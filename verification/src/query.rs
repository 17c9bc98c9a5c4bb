//! Query strings in the `application/x-www-form-urlencoded` syntax.

use vstd::prelude::*;
use vstd::string::StringExecFns;
use vstd::utf8::{decode_utf8, encode_utf8};

verus! {

/// The bytes that the serializer writes as they are: `*`, `-`, `.`, `_`,
/// the digits and the ASCII letters.
pub open spec fn is_unreserved(b: u8) -> bool {
    ||| b == 0x2a
    ||| b == 0x2d
    ||| b == 0x2e
    ||| b == 0x5f
    ||| 0x30 <= b <= 0x39
    ||| 0x41 <= b <= 0x5a
    ||| 0x61 <= b <= 0x7a
}

/// The upper-case hexadecimal digit of a value below sixteen.
pub open spec fn hex_digit(n: int) -> char {
    if n < 10 {
        ((0x30 + n) as u8) as char
    } else {
        ((0x37 + n) as u8) as char
    }
}

/// The value of a hexadecimal digit of either case, and -1 for any other
/// character.
pub open spec fn hex_value(c: char) -> int {
    if '0' <= c <= '9' {
        (c as u8) - 0x30
    } else if 'A' <= c <= 'F' {
        (c as u8) - 0x37
    } else if 'a' <= c <= 'f' {
        (c as u8) - 0x57
    } else {
        -1
    }
}

/// One byte, serialized: itself where it is unreserved, `+` for a space,
/// and otherwise a percent sign with its two upper-case hexadecimal digits.
pub open spec fn encode_byte(b: u8) -> Seq<char> {
    if is_unreserved(b) {
        seq![b as char]
    } else if b == 0x20 {
        seq!['+']
    } else {
        seq!['%', hex_digit(b as int / 16), hex_digit(b as int % 16)]
    }
}

/// A byte string, serialized byte by byte.
pub open spec fn encode_bytes(bytes: Seq<u8>) -> Seq<char>
    decreases bytes.len(),
{
    if bytes.len() == 0 {
        Seq::empty()
    } else {
        encode_byte(bytes[0]) + encode_bytes(bytes.drop_first())
    }
}

/// A text, serialized: the serialization of its UTF-8 bytes.
pub open spec fn form_encoded(text: Seq<char>) -> Seq<char> {
    encode_bytes(encode_utf8(text))
}

/// The bytes that a serialized text stands for: `+` is a space, a percent
/// sign with two hexadecimal digits is the byte they spell, and any other
/// character is its own byte.
pub open spec fn decode_chars(text: Seq<char>) -> Seq<u8>
    decreases text.len(),
{
    if text.len() == 0 {
        Seq::empty()
    } else if text[0] == '%' && text.len() >= 3 && hex_value(text[1]) >= 0 && hex_value(text[2])
        >= 0 {
        seq![(hex_value(text[1]) * 16 + hex_value(text[2])) as u8] + decode_chars(text.skip(3))
    } else if text[0] == '+' {
        seq![0x20u8] + decode_chars(text.skip(1))
    } else {
        seq![text[0] as u8] + decode_chars(text.skip(1))
    }
}

/// The text that a serialized text stands for.
pub open spec fn form_decoded(text: Seq<char>) -> Seq<char> {
    decode_utf8(decode_chars(text))
}

/// A character that a serialized text can hold: an unreserved one, `+`, `%`.
/// (The hexadecimal digits are unreserved.)
pub open spec fn is_serialized_char(c: char) -> bool {
    ||| c == '+'
    ||| c == '%'
    ||| (c as u32) < 0x80 && is_unreserved(c as u8)
}

/// A name and a value, serialized and joined by `=`.
pub open spec fn pair_text(name: Seq<char>, value: Seq<char>) -> Seq<char> {
    form_encoded(name) + seq!['='] + form_encoded(value)
}

/// The query of a call with one argument: `type` and `arg`.
pub open spec fn query_one(fun: Seq<char>, arg: Seq<char>) -> Seq<char> {
    pair_text("type"@, fun) + seq!['&'] + pair_text("arg"@, arg)
}

/// One `arg[]` pair per argument, each led by `&`, in the order given.
pub open spec fn arg_list(args: Seq<Seq<char>>) -> Seq<char>
    decreases args.len(),
{
    if args.len() == 0 {
        Seq::empty()
    } else {
        arg_list(args.drop_last()) + seq!['&'] + pair_text("arg[]"@, args.last())
    }
}

/// The query of a call with a list of arguments: `type`, then one `arg[]`
/// pair per argument.
pub open spec fn query_multi(fun: Seq<char>, args: Seq<Seq<char>>) -> Seq<char> {
    pair_text("type"@, fun) + arg_list(args)
}

/// The texts of a list of string slices.
pub open spec fn texts(args: Seq<&str>) -> Seq<Seq<char>> {
    Seq::new(args.len(), |i: int| args[i]@)
}

/// Calls `url::form_urlencoded::byte_serialize` on the UTF-8 bytes of `text`
/// and collects the pieces.
///
/// Taken on trust, as the source shows it: each byte is written as itself
/// where it is one of `*-._`, a digit or an ASCII letter, as `+` where it is
/// a space, and else as `%` with its two upper-case hexadecimal digits.
#[verifier::external_body]
fn form_encode(text: &str) -> (r: String)
    ensures
        r@ == form_encoded(text@),
{
    url::form_urlencoded::byte_serialize(text.as_bytes()).collect()
}

/// Appends `name=value`, both serialized, to `query`.
fn append_pair(query: &mut String, name: &str, value: &str)
    ensures
        final(query)@ == old(query)@ + pair_text(name@, value@),
{
    proof {
        reveal_strlit("=");
    }
    let ghost before = query@;
    let n = form_encode(name);
    let v = form_encode(value);
    query.append(n.as_str());
    query.append("=");
    query.append(v.as_str());
    assert(query@ =~= before + pair_text(name@, value@));
}

/// The URL that asks `endpoint` for the operation `fun` on one argument.
pub fn one_argument_url(endpoint: &str, fun: &str, arg: &str) -> (url: String)
    ensures
        url@ == endpoint@ + seq!['?'] + query_one(fun@, arg@),
{
    proof {
        reveal_strlit("?");
        reveal_strlit("&");
    }
    let mut url = endpoint.to_owned();
    url.append("?");
    append_pair(&mut url, "type", fun);
    url.append("&");
    append_pair(&mut url, "arg", arg);
    assert(url@ =~= endpoint@ + seq!['?'] + query_one(fun@, arg@));
    url
}

/// The URL that asks `endpoint` for the operation `fun` on a list of
/// arguments. An empty list gives a URL with no `arg[]` pair.
pub fn many_arguments_url(endpoint: &str, fun: &str, args: &[&str]) -> (url: String)
    ensures
        url@ == endpoint@ + seq!['?'] + query_multi(fun@, texts(args@)),
{
    proof {
        reveal_strlit("?");
        reveal_strlit("&");
    }
    let mut url = endpoint.to_owned();
    url.append("?");
    append_pair(&mut url, "type", fun);
    let ghost head = url@;
    let mut i: usize = 0;
    assert(texts(args@).take(0) =~= Seq::<Seq<char>>::empty());
    while i < args.len()
        invariant
            i <= args.len(),
            head == endpoint@ + seq!['?'] + pair_text("type"@, fun@),
            url@ == head + arg_list(texts(args@).take(i as int)),
            "&"@ == seq!['&'],
        decreases args.len() - i,
    {
        url.append("&");
        append_pair(&mut url, "arg[]", args[i]);
        proof {
            let done = texts(args@).take(i as int);
            let next = texts(args@).take(i + 1);
            assert(next.drop_last() =~= done);
            assert(next.last() == args@[i as int]@);
            assert(url@ =~= head + arg_list(next));
        }
        i += 1;
    }
    assert(texts(args@).take(args.len() as int) =~= texts(args@));
    assert(url@ =~= endpoint@ + seq!['?'] + query_multi(fun@, texts(args@)));
    url
}

/// `c` does not occur in `text`.
pub open spec fn free_of(text: Seq<char>, c: char) -> bool {
    forall|i: int| 0 <= i < text.len() ==> text[i] != c
}

/// `i` is the last position of `c` in `text`.
pub open spec fn is_last(text: Seq<char>, c: char, i: int) -> bool {
    &&& 0 <= i < text.len()
    &&& text[i] == c
    &&& forall|k: int| i < k < text.len() ==> text[k] != c
}

/// `i` is the first position of `c` in `text`.
pub open spec fn is_first_char(text: Seq<char>, c: char, i: int) -> bool {
    &&& 0 <= i < text.len()
    &&& text[i] == c
    &&& forall|k: int| 0 <= k < i ==> text[k] != c
}

/// The pieces of a query between its `&` signs, in order.
pub open spec fn segments(query: Seq<char>) -> Seq<Seq<char>>
    decreases query.len(),
{
    let i = choose|i: int| is_last(query, '&', i);
    if is_last(query, '&', i) {
        segments(query.take(i)).push(query.skip(i + 1))
    } else {
        seq![query]
    }
}

/// The name and value that a piece of a query spells: what stands before
/// and after its first `=`, each decoded. A piece without `=` is a name with
/// an empty value.
pub open spec fn pair_of(segment: Seq<char>) -> (Seq<char>, Seq<char>) {
    let i = choose|i: int| is_first_char(segment, '=', i);
    if is_first_char(segment, '=', i) {
        (form_decoded(segment.take(i)), form_decoded(segment.skip(i + 1)))
    } else {
        (form_decoded(segment), Seq::empty())
    }
}

/// The names and values that a query spells, in order.
pub open spec fn query_pairs(query: Seq<char>) -> Seq<(Seq<char>, Seq<char>)> {
    segments(query).map_values(|segment: Seq<char>| pair_of(segment))
}

/// One `arg[]` pair per argument, in the order given.
pub open spec fn arg_pairs(args: Seq<Seq<char>>) -> Seq<(Seq<char>, Seq<char>)> {
    Seq::new(args.len(), |i: int| ("arg[]"@, args[i]))
}

proof fn hex_digit_value(n: int)
    requires
        0 <= n < 16,
    ensures
        hex_value(hex_digit(n)) == n,
        is_serialized_char(hex_digit(n)),
{
}

proof fn encode_byte_decodes(b: u8, rest: Seq<char>)
    ensures
        decode_chars(encode_byte(b) + rest) == seq![b] + decode_chars(rest),
{
    let text = encode_byte(b) + rest;
    if is_unreserved(b) {
        assert(text[0] == b as char);
        assert(text.skip(1) =~= rest);
    } else if b == 0x20 {
        assert(text[0] == '+');
        assert(text.skip(1) =~= rest);
    } else {
        hex_digit_value(b as int / 16);
        hex_digit_value(b as int % 16);
        assert(text[0] == '%');
        assert(text[1] == hex_digit(b as int / 16));
        assert(text[2] == hex_digit(b as int % 16));
        assert(text.skip(3) =~= rest);
        assert((b as int / 16) * 16 + b as int % 16 == b as int);
    }
}

/// Decoding undoes the serialization of a byte string.
pub proof fn bytes_round_trip(bytes: Seq<u8>)
    ensures
        decode_chars(encode_bytes(bytes)) == bytes,
    decreases bytes.len(),
{
    if bytes.len() > 0 {
        bytes_round_trip(bytes.drop_first());
        encode_byte_decodes(bytes[0], encode_bytes(bytes.drop_first()));
        assert(seq![bytes[0]] + bytes.drop_first() =~= bytes);
    }
}

/// Decoding a serialized text gives the text back, whatever characters it
/// holds.
pub proof fn encoding_round_trip(text: Seq<char>)
    ensures
        form_decoded(form_encoded(text)) == text,
{
    broadcast use vstd::utf8::encode_utf8_decode_utf8;

    bytes_round_trip(encode_utf8(text));
}

/// A serialized byte string holds serialized characters only.
pub proof fn encoded_bytes_are_plain(bytes: Seq<u8>)
    ensures
        forall|i: int|
            0 <= i < encode_bytes(bytes).len() ==> is_serialized_char(
                #[trigger] encode_bytes(bytes)[i],
            ),
    decreases bytes.len(),
{
    if bytes.len() > 0 {
        encoded_bytes_are_plain(bytes.drop_first());
        let b = bytes[0];
        hex_digit_value(b as int / 16);
        hex_digit_value(b as int % 16);
        let head = encode_byte(b);
        let tail = encode_bytes(bytes.drop_first());
        assert forall|i: int| 0 <= i < (head + tail).len() implies is_serialized_char(
            #[trigger] (head + tail)[i],
        ) by {
            if i >= head.len() {
                assert((head + tail)[i] == tail[i - head.len()]);
            }
        }
    }
}

/// A serialized text holds none of the signs that structure a URL's query:
/// no `&`, no `=`, no `?`, no `#`.
pub proof fn encoded_is_plain(text: Seq<char>)
    ensures
        free_of(form_encoded(text), '&'),
        free_of(form_encoded(text), '='),
        free_of(form_encoded(text), '?'),
        free_of(form_encoded(text), '#'),
{
    encoded_bytes_are_plain(encode_utf8(text));
    let e = form_encoded(text);
    assert forall|i: int| 0 <= i < e.len() implies e[i] != '&' && e[i] != '=' && e[i] != '?'
        && e[i] != '#' by {
        assert(is_serialized_char(e[i]));
    }
}

proof fn segments_of_plain(text: Seq<char>)
    requires
        free_of(text, '&'),
    ensures
        segments(text) == seq![text],
{
    assert forall|i: int| !is_last(text, '&', i) by {}
}

proof fn segments_push(head: Seq<char>, last: Seq<char>)
    requires
        free_of(last, '&'),
    ensures
        segments(head + seq!['&'] + last) == segments(head).push(last),
{
    let query = head + seq!['&'] + last;
    let at = head.len() as int;
    assert(query[at] == '&');
    assert forall|k: int| at < k < query.len() implies query[k] != '&' by {
        assert(query[k] == last[k - at - 1]);
    }
    assert(is_last(query, '&', at));
    let i = choose|i: int| is_last(query, '&', i);
    assert(is_last(query, '&', i));
    assert(i == at);
    assert(query.take(at) =~= head);
    assert(query.skip(at + 1) =~= last);
}

proof fn pair_of_pair_text(name: Seq<char>, value: Seq<char>)
    ensures
        pair_of(pair_text(name, value)) == (name, value),
        free_of(pair_text(name, value), '&'),
{
    encoded_is_plain(name);
    encoded_is_plain(value);
    encoding_round_trip(name);
    encoding_round_trip(value);
    let n = form_encoded(name);
    let v = form_encoded(value);
    let segment = pair_text(name, value);
    let at = n.len() as int;
    assert(segment[at] == '=');
    assert forall|k: int| 0 <= k < at implies segment[k] != '=' by {
        assert(segment[k] == n[k]);
    }
    assert(is_first_char(segment, '=', at));
    let i = choose|i: int| is_first_char(segment, '=', i);
    assert(is_first_char(segment, '=', i));
    assert(i == at);
    assert(segment.take(at) =~= n);
    assert(segment.skip(at + 1) =~= v);
    assert forall|k: int| 0 <= k < segment.len() implies segment[k] != '&' by {
        if k < at {
            assert(segment[k] == n[k]);
        } else if k > at {
            assert(segment[k] == v[k - at - 1]);
        }
    }
}

/// Read back as names and values, the query of a call with one argument is
/// `type` with the operation and `arg` with the argument, and nothing else,
/// whatever characters the argument holds.
pub proof fn one_argument_query_reads_back(fun: Seq<char>, arg: Seq<char>)
    ensures
        query_pairs(query_one(fun, arg)) == seq![("type"@, fun), ("arg"@, arg)],
{
    let first = pair_text("type"@, fun);
    let second = pair_text("arg"@, arg);
    let query = query_one(fun, arg);
    pair_of_pair_text("type"@, fun);
    pair_of_pair_text("arg"@, arg);
    assert(segments(query) == seq![first, second]) by {
        segments_of_plain(first);
        segments_push(first, second);
        assert(seq![first].push(second) =~= seq![first, second]);
    }
    let pairs = query_pairs(query);
    let expected = seq![("type"@, fun), ("arg"@, arg)];
    assert(pairs.len() == 2);
    assert(pairs[0] == pair_of(first));
    assert(pairs[1] == pair_of(second));
    assert(pairs =~= expected);
}

proof fn multi_query_segments(fun: Seq<char>, args: Seq<Seq<char>>)
    ensures
        segments(query_multi(fun, args)).len() == args.len() + 1,
        segments(query_multi(fun, args))[0] == pair_text("type"@, fun),
        forall|i: int|
            0 <= i < args.len() ==> #[trigger] segments(query_multi(fun, args))[i + 1]
                == pair_text("arg[]"@, args[i]),
    decreases args.len(),
{
    let first = pair_text("type"@, fun);
    pair_of_pair_text("type"@, fun);
    if args.len() == 0 {
        segments_of_plain(first);
        assert(query_multi(fun, args) =~= first);
    } else {
        let before = args.drop_last();
        let last = pair_text("arg[]"@, args.last());
        multi_query_segments(fun, before);
        pair_of_pair_text("arg[]"@, args.last());
        assert(query_multi(fun, args) =~= query_multi(fun, before) + seq!['&'] + last);
        segments_push(query_multi(fun, before), last);
        let all = segments(query_multi(fun, args));
        assert forall|i: int| 0 <= i < args.len() implies #[trigger] all[i + 1] == pair_text(
            "arg[]"@,
            args[i],
        ) by {
            if i < before.len() {
                assert(all[i + 1] == segments(query_multi(fun, before))[i + 1]);
                assert(before[i] == args[i]);
            }
        }
    }
}

/// Read back as names and values, the query of a call with a list of
/// arguments is `type` with the operation, once, followed by one `arg[]`
/// per argument, in the order given, and nothing else.
pub proof fn many_arguments_query_reads_back(fun: Seq<char>, args: Seq<Seq<char>>)
    ensures
        query_pairs(query_multi(fun, args)) == seq![("type"@, fun)] + arg_pairs(args),
        query_pairs(query_multi(fun, args)).len() == args.len() + 1,
{
    multi_query_segments(fun, args);
    pair_of_pair_text("type"@, fun);
    let pairs = query_pairs(query_multi(fun, args));
    let expected = seq![("type"@, fun)] + arg_pairs(args);
    assert forall|i: int| 0 <= i < pairs.len() implies pairs[i] == expected[i] by {
        if i > 0 {
            pair_of_pair_text("arg[]"@, args[i - 1]);
            assert(segments(query_multi(fun, args))[(i - 1) + 1] == pair_text(
                "arg[]"@,
                args[i - 1],
            ));
        }
    }
    assert(pairs =~= expected);
}

/// An unreserved character: one of `*-._`, a digit or an ASCII letter.
pub open spec fn is_plain_char(c: char) -> bool {
    ||| c == '*'
    ||| c == '-'
    ||| c == '.'
    ||| c == '_'
    ||| '0' <= c <= '9'
    ||| 'A' <= c <= 'Z'
    ||| 'a' <= c <= 'z'
}

/// Every character of `text` is unreserved.
pub open spec fn is_plain(text: Seq<char>) -> bool {
    forall|i: int| 0 <= i < text.len() ==> is_plain_char(#[trigger] text[i])
}

proof fn plain_bytes_encode_as_themselves(bytes: Seq<u8>)
    requires
        forall|i: int| 0 <= i < bytes.len() ==> is_unreserved(bytes[i]),
    ensures
        encode_bytes(bytes) == Seq::new(bytes.len(), |i: int| bytes[i] as char),
    decreases bytes.len(),
{
    if bytes.len() > 0 {
        let rest = bytes.drop_first();
        assert forall|i: int| 0 <= i < rest.len() implies is_unreserved(rest[i]) by {
            assert(rest[i] == bytes[i + 1]);
        }
        plain_bytes_encode_as_themselves(rest);
        assert(encode_bytes(bytes) =~= Seq::new(bytes.len(), |i: int| bytes[i] as char));
    } else {
        assert(encode_bytes(bytes) =~= Seq::new(bytes.len(), |i: int| bytes[i] as char));
    }
}

/// A text of unreserved characters is its own serialization.
pub proof fn plain_text_encodes_as_itself(text: Seq<char>)
    requires
        is_plain(text),
    ensures
        form_encoded(text) == text,
{
    assert(vstd::utf8::is_ascii_chars(text)) by {
        assert forall|i: int| 0 <= i < text.len() implies '\0' <= #[trigger] text[i]
            <= '\u{7f}' by {
            assert(is_plain_char(text[i]));
        }
    }
    vstd::utf8::is_ascii_chars_encode_utf8(text);
    let bytes = encode_utf8(text);
    assert forall|i: int| 0 <= i < bytes.len() implies is_unreserved(bytes[i]) by {
        assert(bytes[i] == text[i] as u8);
        assert(is_plain_char(text[i]));
    }
    plain_bytes_encode_as_themselves(bytes);
    assert forall|i: int| 0 <= i < text.len() implies (bytes[i] as char) == text[i] by {
        assert(bytes[i] == text[i] as u8);
        assert(is_plain_char(text[i]));
    }
    assert(form_encoded(text) =~= text);
}

/// The query of a call with one argument is, to the letter, `type=` with the
/// operation, `&arg=`, and the serialized argument, for an operation whose
/// name is made of unreserved characters, as those of the service are.
pub proof fn one_argument_query_text(fun: Seq<char>, arg: Seq<char>)
    requires
        is_plain(fun),
    ensures
        query_one(fun, arg) == "type="@ + fun + "&arg="@ + form_encoded(arg),
{
    reveal_strlit("type");
    reveal_strlit("arg");
    reveal_strlit("type=");
    reveal_strlit("&arg=");
    plain_text_encodes_as_itself("type"@);
    plain_text_encodes_as_itself("arg"@);
    plain_text_encodes_as_itself(fun);
    assert(query_one(fun, arg) =~= "type="@ + fun + "&arg="@ + form_encoded(arg));
}

/// The names of the four operations are made of unreserved characters.
pub proof fn operation_names_are_plain()
    ensures
        is_plain("search"@),
        is_plain("msearch"@),
        is_plain("info"@),
        is_plain("multiinfo"@),
{
    reveal_strlit("search");
    reveal_strlit("msearch");
    reveal_strlit("info");
    reveal_strlit("multiinfo");
}

/// The name `arg[]` is serialized as `arg%5B%5D`.
pub proof fn array_argument_name()
    ensures
        form_encoded("arg[]"@) == "arg%5B%5D"@,
{
    reveal_strlit("arg[]");
    reveal_strlit("arg%5B%5D");
    let name = "arg[]"@;
    assert(vstd::utf8::is_ascii_chars(name));
    vstd::utf8::is_ascii_chars_encode_utf8(name);
    let bytes = encode_utf8(name);
    assert(bytes =~= seq![0x61u8, 0x72u8, 0x67u8, 0x5bu8, 0x5du8]);
    reveal_with_fuel(encode_bytes, 6);
    assert(encode_bytes(bytes) =~= "arg%5B%5D"@);
}

/// The query of a call with a list of arguments is, to the letter,
/// `type=` with the operation, followed by `&arg%5B%5D=` with the serialized
/// argument for each argument in turn, for an operation whose name is made
/// of unreserved characters.
pub proof fn many_arguments_query_text(fun: Seq<char>, args: Seq<Seq<char>>)
    requires
        is_plain(fun),
    ensures
        query_multi(fun, args) == "type="@ + fun + arg_list(args),
        args.len() > 0 ==> arg_list(args) == arg_list(args.drop_last()) + "&arg%5B%5D="@
            + form_encoded(args.last()),
        args.len() == 0 ==> query_multi(fun, args) == "type="@ + fun,
{
    reveal_strlit("type");
    reveal_strlit("type=");
    reveal_strlit("&arg%5B%5D=");
    reveal_strlit("arg%5B%5D");
    plain_text_encodes_as_itself("type"@);
    plain_text_encodes_as_itself(fun);
    array_argument_name();
    assert(query_multi(fun, args) =~= "type="@ + fun + arg_list(args));
    if args.len() > 0 {
        assert(arg_list(args) =~= arg_list(args.drop_last()) + "&arg%5B%5D="@ + form_encoded(
            args.last(),
        ));
    } else {
        assert(query_multi(fun, args) =~= "type="@ + fun);
    }
}

} // verus!
