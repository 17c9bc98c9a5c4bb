use raur::envelope::{open_envelope, rpc, Envelope, INVALID_TEXT};
use raur::scan::{advance, examine, Flags, Frame, Verdict};
use raur::{Error, ParseError, Response, Value};

fn reply(status: u16, body: &str) -> Response {
    Response { status, body: body.as_bytes().to_vec() }
}

fn text(s: &str) -> Value {
    Value::String(s.to_string())
}

#[test]
fn service_error_carries_the_message() {
    let r = rpc(&reply(200, r#"{"type":"error","results":"boom"}"#));
    assert_eq!(r, Err(Error::Aur("boom".to_string())));
}

#[test]
fn service_error_renders_a_payload_that_is_no_string() {
    let r = rpc(&reply(200, r#"{"type":"error","results":{"b":[1,-2,2.5,true,null],"a":"x"}}"#));
    assert_eq!(r, Err(Error::Aur(r#"{"a":"x","b":[1,-2,2.5,true,null]}"#.to_string())));
    let r = rpc(&reply(200, r#"{"type":"error","results":42}"#));
    assert_eq!(r, Err(Error::Aur("42".to_string())));
    let r = rpc(&reply(200, r#"{"results":null,"type":"error"}"#));
    assert_eq!(r, Err(Error::Aur("null".to_string())));
}

#[test]
fn missing_results_is_invalid() {
    let r = rpc(&reply(200, r#"{"type":"search"}"#));
    assert_eq!(r, Err(Error::InvalidResponse));
}

#[test]
fn missing_type_is_invalid() {
    let r = rpc(&reply(200, r#"{"results":[]}"#));
    assert_eq!(r, Err(Error::InvalidResponse));
}

#[test]
fn type_that_is_no_string_is_invalid() {
    let r = rpc(&reply(200, r#"{"type":7,"results":[]}"#));
    assert_eq!(r, Err(Error::InvalidResponse));
    let r = rpc(&reply(200, r#"{"type":null,"results":"boom"}"#));
    assert_eq!(r, Err(Error::InvalidResponse));
}

#[test]
fn document_that_is_no_object_is_invalid() {
    assert_eq!(rpc(&reply(200, "[1,2]")), Err(Error::InvalidResponse));
    assert_eq!(rpc(&reply(200, r#""error""#)), Err(Error::InvalidResponse));
    assert_eq!(rpc(&reply(200, "null")), Err(Error::InvalidResponse));
}

#[test]
fn success_hands_back_the_payload() {
    let r = rpc(&reply(200, r#"{"type":"search","results":[1,"a",null]}"#));
    assert_eq!(r, Ok(Value::Array(vec![Value::U64(1), text("a"), Value::Null])));
}

#[test]
fn any_type_but_error_is_a_success() {
    let r = rpc(&reply(200, r#"{"type":"no-such-operation","results":{"k":false}}"#));
    assert_eq!(r, Ok(Value::Object(vec![("k".to_string(), Value::Boolean(false))])));
    let r = rpc(&reply(204, r#"{"type":"Error","results":"kept"}"#));
    assert_eq!(r, Ok(text("kept")));
    let r = rpc(&reply(299, r#"{"type":"","results":3}"#));
    assert_eq!(r, Ok(Value::U64(3)));
}

#[test]
fn numbers_keep_their_form() {
    let r = rpc(&reply(200, r#"{"type":"x","results":[0,-1,1.5,18446744073709551615]}"#));
    assert_eq!(
        r,
        Ok(Value::Array(vec![
            Value::U64(0),
            Value::I64(-1),
            Value::F64(1.5f64.to_bits()),
            Value::U64(u64::MAX),
        ]))
    );
}

#[test]
fn failure_status_reports_the_body() {
    let r = rpc(&reply(429, "rate limited"));
    assert_eq!(r, Err(Error::Http { code: 429, message: "rate limited".to_string() }));
    let r = rpc(&reply(503, ""));
    assert_eq!(r, Err(Error::Http { code: 503, message: String::new() }));
}

#[test]
fn failure_status_wins_over_a_valid_document() {
    let body = r#"{"type":"search","results":[]}"#;
    assert_eq!(rpc(&reply(404, body)), Err(Error::Http { code: 404, message: body.to_string() }));
    assert_eq!(rpc(&reply(199, body)), Err(Error::Http { code: 199, message: body.to_string() }));
    assert_eq!(rpc(&reply(300, body)), Err(Error::Http { code: 300, message: body.to_string() }));
}

#[test]
fn failure_status_with_a_body_that_is_no_text_is_an_io_failure() {
    let r = rpc(&Response { status: 500, body: vec![0x66, 0xff, 0x6f] });
    assert_eq!(r, Err(Error::Io(INVALID_TEXT.to_string())));
    assert_eq!(INVALID_TEXT, "stream did not contain valid UTF-8");
}

#[test]
fn success_status_with_a_body_that_is_no_text_is_a_parse_failure() {
    let r = rpc(&Response { status: 200, body: vec![0x7b, 0xff, 0x7d] });
    assert_eq!(r, Err(Error::Parse { code: ParseError::NotUtf8, line: 0, col: 0 }));
}

#[test]
fn syntax_errors_carry_code_line_and_column() {
    let r = rpc(&reply(200, "{"));
    assert_eq!(r, Err(Error::Parse { code: ParseError::EOFWhileParsingObject, line: 1, col: 2 }));
    let r = rpc(&reply(200, "{\"type\":\n  ?}"));
    assert_eq!(r, Err(Error::Parse { code: ParseError::InvalidSyntax, line: 2, col: 4 }));
    let r = rpc(&reply(200, ""));
    assert_eq!(r, Err(Error::Parse { code: ParseError::EOFWhileParsingValue, line: 1, col: 1 }));
    let r = rpc(&reply(200, "[] x"));
    assert_eq!(r, Err(Error::Parse { code: ParseError::TrailingCharacters, line: 1, col: 4 }));
}

#[test]
fn repeated_name_in_a_document_takes_the_last_value() {
    let r = rpc(&reply(200, r#"{"type":"error","type":"info","results":1,"results":2}"#));
    assert_eq!(r, Ok(Value::U64(2)));
}

#[test]
fn envelope_of_an_owned_value() {
    let doc = Value::Object(vec![
        ("results".to_string(), text("boom")),
        ("type".to_string(), text("error")),
    ]);
    assert_eq!(open_envelope(doc), Envelope::ServiceError(text("boom")));
    let doc = Value::Object(vec![
        ("extra".to_string(), Value::Null),
        ("type".to_string(), text("multiinfo")),
        ("results".to_string(), Value::Array(vec![])),
    ]);
    assert_eq!(open_envelope(doc), Envelope::Results(Value::Array(vec![])));
    let doc = Value::Object(vec![("type".to_string(), text("error"))]);
    assert_eq!(open_envelope(doc), Envelope::Malformed);
    assert_eq!(open_envelope(Value::Array(vec![])), Envelope::Malformed);
}

#[test]
fn envelope_of_a_list_that_repeats_a_name_takes_the_first() {
    let doc = Value::Object(vec![
        ("type".to_string(), text("search")),
        ("results".to_string(), Value::U64(1)),
        ("type".to_string(), text("error")),
        ("results".to_string(), Value::U64(2)),
    ]);
    assert_eq!(open_envelope(doc), Envelope::Results(Value::U64(1)));
}

fn nested(depth: usize, inner: &str) -> String {
    format!("{}{}{}", "[".repeat(depth), inner, "]".repeat(depth))
}

fn nested_value(depth: usize, inner: Value) -> Value {
    let mut v = inner;
    for _ in 0..depth {
        v = Value::Array(vec![v]);
    }
    v
}

fn results(payload: &str) -> Response {
    reply(200, &format!("{{\"type\":\"x\",\"results\":{}}}", payload))
}

fn object_of(name: &str, value: Value) -> Value {
    Value::Object(vec![(name.to_string(), value)])
}

#[test]
fn comma_before_a_closing_brace_inside_another_value_is_a_syntax_error() {
    let r = rpc(&reply(200, r#"[{"x":{"a":1,},"y":2}]"#));
    assert_eq!(r, Err(Error::Parse { code: ParseError::TrailingComma, line: 1, col: 14 }));
    let r = rpc(&reply(200, r#"{"type":"search","results":[{"x":{"a":1,},"y":2}]}"#));
    assert_eq!(r, Err(Error::Parse { code: ParseError::TrailingComma, line: 1, col: 41 }));
    let r = rpc(&reply(200, r#"[{"a":1,}]"#));
    assert_eq!(r, Err(Error::Parse { code: ParseError::TrailingComma, line: 1, col: 9 }));
    let r = rpc(&reply(200, "{\"type\":\"x\",\"results\":{\"a\":[],\t\r\n }}"));
    assert_eq!(r, Err(Error::Parse { code: ParseError::TrailingComma, line: 2, col: 3 }));
    let r = rpc(&reply(200, "[\n{\"\u{e9}\u{1f600}\":\"\\\"\u{e9}\",\n }]"));
    assert_eq!(r, Err(Error::Parse { code: ParseError::TrailingComma, line: 3, col: 3 }));
    let r = rpc(&reply(200, "[{\"\u{e9}\u{1f600}\":\"\\\"\u{e9}\",}]"));
    assert_eq!(r, Err(Error::Parse { code: ParseError::TrailingComma, line: 1, col: 14 }));
    assert_eq!(examine(br#"[{"x":{"a":1,},"y":2}]"#).verdict, Verdict::TrailingComma { line: 1, col: 14 });
}

#[test]
fn comma_before_the_closing_brace_of_the_document_is_the_parsers_syntax_error() {
    let r = rpc(&reply(200, r#"{"type":"x","results":1,}"#));
    assert_eq!(r, Err(Error::Parse { code: ParseError::TrailingComma, line: 1, col: 25 }));
    let r = rpc(&reply(200, "{\"a\":1,\n\u{e9} }"));
    assert_eq!(r, Err(Error::Parse { code: ParseError::KeyMustBeAString, line: 2, col: 2 }));
    let r = rpc(&reply(200, "{\"a\":1,\t\r\n }"));
    assert_eq!(r, Err(Error::Parse { code: ParseError::TrailingComma, line: 2, col: 3 }));
    let r = rpc(&reply(200, "{\"\u{e9}\u{1f600}\":\"\\\"\u{e9}\",}"));
    assert_eq!(r, Err(Error::Parse { code: ParseError::TrailingComma, line: 1, col: 13 }));
    assert_eq!(examine(br#"{"type":"x","results":1,}"#).verdict, Verdict::Fine);
}

#[test]
fn comma_and_brace_that_do_not_meet_are_left_to_the_parser() {
    assert_eq!(rpc(&results(r#"["a,}",{"k":",}"}]"#)), Ok(Value::Array(vec![
        text("a,}"),
        object_of("k", text(",}")),
    ])));
    assert_eq!(rpc(&results(r#"[{"a":1},{}]"#)), Ok(Value::Array(vec![
        object_of("a", Value::U64(1)),
        Value::Object(vec![]),
    ])));
    assert_eq!(
        rpc(&reply(200, "[1,}")),
        Err(Error::Parse { code: ParseError::InvalidSyntax, line: 1, col: 4 })
    );
}

#[test]
fn nesting_up_to_the_limit_is_parsed() {
    assert_eq!(rpc(&results(&nested(128, "1"))), Ok(nested_value(128, Value::U64(1))));
    assert_eq!(rpc(&results(&nested(511, "1"))), Ok(nested_value(511, Value::U64(1))));
    assert_eq!(examine(nested(512, "").as_bytes()).verdict, Verdict::Fine);
}

#[test]
fn nesting_beyond_the_limit_is_invalid() {
    assert_eq!(rpc(&results(&nested(512, "1"))), Err(Error::InvalidResponse));
    assert_eq!(examine(nested(513, "").as_bytes()).verdict, Verdict::Beyond);
    assert_eq!(rpc(&reply(200, &"[".repeat(100_000))), Err(Error::InvalidResponse));
}

#[test]
fn syntax_errors_in_nested_documents_are_the_parsers() {
    assert_eq!(
        rpc(&reply(200, &"[".repeat(129))),
        Err(Error::Parse { code: ParseError::EOFWhileParsingValue, line: 1, col: 130 })
    );
    let body = format!("{}{}", "[]".repeat(100_000), "x");
    assert_eq!(
        rpc(&reply(200, &body)),
        Err(Error::Parse { code: ParseError::TrailingCharacters, line: 1, col: 3 })
    );
}

#[test]
fn brackets_inside_strings_do_not_nest() {
    let inner = format!("\"{}\\\"{}\"", "[{".repeat(500), "[".repeat(500));
    let expected = format!("{}\"{}", "[{".repeat(500), "[".repeat(500));
    assert_eq!(rpc(&results(&inner)), Ok(text(&expected)));
}

#[test]
fn names_that_the_parser_can_address_are_parsed() {
    let name = "n".repeat(512);
    let r = rpc(&results(&format!("{{\"{}\" : 1}}", name)));
    assert_eq!(r, Ok(object_of(&name, Value::U64(1))));
    let name = "n".repeat(65_535);
    let r = rpc(&reply(200, &format!("{{\"{}\":[{{\"\":[]}}]}}", name)));
    assert_eq!(r, Err(Error::InvalidResponse));
    assert_eq!(examine(format!("{{\"{}\":[{{\"\":[]}}]}}", name).as_bytes()).verdict, Verdict::Fine);
    let (a, b) = ("a".repeat(40_000), "b".repeat(25_527));
    let r = rpc(&results(&format!("{{\"{}\":{{\"{}\":1}}}}", a, b)));
    assert_eq!(r, Ok(object_of(&a, object_of(&b, Value::U64(1)))));
}

#[test]
fn names_of_members_side_by_side_do_not_add_up() {
    let (a, b) = ("a".repeat(60_000), "b".repeat(60_000));
    let r = rpc(&results(&format!("[{{\"{}\":1,\"{}\":{{\"k\":2}}}},{{\"{}\":3}}]", a, b, a)));
    assert_eq!(
        r,
        Ok(Value::Array(vec![
            Value::Object(vec![
                (a.clone(), Value::U64(1)),
                (b, object_of("k", Value::U64(2))),
            ]),
            object_of(&a, Value::U64(3)),
        ]))
    );
}

#[test]
fn names_count_with_their_escapes_resolved() {
    let r = rpc(&results(&format!("{{\"{}\":1}}", "\\u0041".repeat(11_000))));
    assert_eq!(r, Ok(object_of(&"A".repeat(11_000), Value::U64(1))));
    let r = rpc(&results(&format!("{{\"{}\":1}}", "\\n\\\"\\\\".repeat(21_000))));
    assert_eq!(r, Ok(object_of(&"\n\"\\".repeat(21_000), Value::U64(1))));
    let r = rpc(&results(&format!("{{\"{}\":1}}", "\\u00e9\\u20ac".repeat(13_000))));
    assert_eq!(r, Ok(object_of(&"\u{e9}\u{20ac}".repeat(13_000), Value::U64(1))));
    let r = rpc(&results(&format!("{{\"{}\":1}}", "\\ud83d\\ude00".repeat(16_000))));
    assert_eq!(r, Ok(object_of(&"\u{1f600}".repeat(16_000), Value::U64(1))));
}

#[test]
fn names_beyond_what_the_parser_addresses_are_invalid() {
    let r = rpc(&results(&format!("{{\"{}\":1}}", "n".repeat(65_528))));
    assert_eq!(r, Ok(object_of(&"n".repeat(65_528), Value::U64(1))));
    let r = rpc(&results(&format!("{{\"{}\":1}}", "n".repeat(65_529))));
    assert_eq!(r, Err(Error::InvalidResponse));
    let body = format!("{{\"{}\":{{\"{}\":1}}}}", "a".repeat(40_000), "b".repeat(30_000));
    assert_eq!(rpc(&reply(200, &body)), Err(Error::InvalidResponse));
    let body = format!("{{\"\u{e9}{}\":1}}", "c".repeat(65_535));
    assert_eq!(rpc(&reply(200, &body)), Err(Error::InvalidResponse));
    let body = format!("{{\"{}\":1}}", "\\ud83d\\ude00".repeat(16_384));
    assert_eq!(rpc(&reply(200, &body)), Err(Error::InvalidResponse));
    let body = format!("{{\"{}\":1}}", "\\u20ac".repeat(21_846));
    assert_eq!(rpc(&reply(200, &body)), Err(Error::InvalidResponse));
}

#[test]
fn long_strings_that_are_no_names_are_parsed() {
    let long = "d".repeat(100_000);
    let r = rpc(&results(&format!("[\"{}\",{{\"k\":\"{}\"}}]", long, long)));
    assert_eq!(r, Ok(Value::Array(vec![text(&long), object_of("k", text(&long))])));
    let body = format!("{{\"type\":\"error\",\"results\":\"{}\"}}", long);
    assert_eq!(rpc(&reply(200, &body)), Err(Error::Aur(long)));
}

#[test]
fn exponents_that_a_machine_word_holds_are_parsed() {
    let r = rpc(&results("[1e2,25E-1,1e+000000002,1e0000000002,true]"));
    assert_eq!(
        r,
        Ok(Value::Array(vec![
            Value::F64(100f64.to_bits()),
            Value::F64(2.5f64.to_bits()),
            Value::F64(100f64.to_bits()),
            Value::F64(100f64.to_bits()),
            Value::Boolean(true),
        ]))
    );
    assert_eq!(examine(format!("1e{}", usize::MAX).as_bytes()).verdict, Verdict::Fine);
    assert_eq!(examine(format!("1E-000{}", usize::MAX).as_bytes()).verdict, Verdict::Fine);
    assert!(matches!(rpc(&results(&format!("1e{}", usize::MAX))), Ok(Value::F64(_))));
}

#[test]
fn exponents_beyond_a_machine_word_are_invalid() {
    assert_eq!(rpc(&results("1e99999999999999999999")), Err(Error::InvalidResponse));
    assert_eq!(rpc(&results("[0.5E+340282366920938463463374607431768211456]")), Err(Error::InvalidResponse));
    let one_more = format!("1e{}0", usize::MAX / 10 + 1);
    assert_eq!(examine(one_more.as_bytes()).verdict, Verdict::Beyond);
    assert_eq!(rpc(&results("\"1e99999999999999999999\"")), Ok(text("1e99999999999999999999")));
}

#[test]
fn limits_do_not_touch_a_failure_status_nor_a_body_that_is_no_text() {
    let body = "[".repeat(1000);
    assert_eq!(rpc(&reply(500, &body)), Err(Error::Http { code: 500, message: body }));
    let mut bytes = "[".repeat(1000).into_bytes();
    bytes.push(0xff);
    assert_eq!(
        rpc(&Response { status: 200, body: bytes }),
        Err(Error::Parse { code: ParseError::NotUtf8, line: 0, col: 0 })
    );
}

fn start() -> Flags {
    Flags {
        verdict: Verdict::Fine,
        seen: 0,
        line: 1,
        col: 0,
        in_string: false,
        escaped: false,
        hex_left: 0,
        hex_value: 0,
        after_high: false,
        length: 0,
        after_string: false,
        after_comma: false,
        in_exponent: false,
        sign_allowed: false,
        exponent: 0,
        total: 0,
    }
}

fn step(f: Flags, frames: &mut Vec<Frame>, b: u8) -> Flags {
    let r = advance(f, frames, b);
    assert_eq!(r.seen, f.seen + 1);
    Flags { seen: 0, ..r }
}

#[test]
fn scan_step_by_step() {
    let mut frames: Vec<Frame> = Vec::new();
    let f = step(start(), &mut frames, b'{');
    assert_eq!(f, Flags { col: 1, ..start() });
    assert_eq!(frames, vec![Frame { object: true, name: 0 }]);
    let f = step(f, &mut frames, b'"');
    assert_eq!(f, Flags { col: 2, in_string: true, ..start() });
    let f = step(f, &mut frames, b'\\');
    assert_eq!(f, Flags { col: 3, in_string: true, escaped: true, ..start() });
    let f = step(f, &mut frames, b'"');
    assert_eq!(f, Flags { col: 4, in_string: true, length: 1, ..start() });
    let f = step(f, &mut frames, 0xc3);
    let f = step(f, &mut frames, 0xa9);
    assert_eq!(f, Flags { col: 5, in_string: true, length: 3, ..start() });
    let f = step(f, &mut frames, b'"');
    assert_eq!(f, Flags { col: 6, after_string: true, length: 3, ..start() });
    let f = step(f, &mut frames, b'\n');
    assert_eq!(f, Flags { line: 2, col: 1, after_string: true, length: 3, ..start() });
    let f = step(f, &mut frames, b':');
    assert_eq!(f, Flags { line: 2, col: 2, length: 3, total: 3, ..start() });
    assert_eq!(frames, vec![Frame { object: true, name: 3 }]);
    let f = step(f, &mut frames, b'[');
    assert_eq!(frames, vec![Frame { object: true, name: 3 }, Frame { object: false, name: 0 }]);
    let f = step(step(step(f, &mut frames, b'1'), &mut frames, b'e'), &mut frames, b'-');
    assert_eq!(f, Flags { line: 2, col: 6, length: 3, total: 3, in_exponent: true, ..start() });
    let f = step(step(f, &mut frames, b'7'), &mut frames, b'2');
    assert_eq!(
        f,
        Flags { line: 2, col: 8, length: 3, total: 3, in_exponent: true, exponent: 72, ..start() }
    );
    let f = step(f, &mut frames, b']');
    assert_eq!(frames, vec![Frame { object: true, name: 3 }]);
    let f = step(f, &mut frames, b',');
    assert_eq!(
        f,
        Flags { line: 2, col: 10, length: 3, after_comma: true, exponent: 72, ..start() }
    );
    assert_eq!(frames, vec![Frame { object: true, name: 0 }]);
    let f = step(f, &mut frames, b'}');
    assert_eq!(f, Flags { line: 2, col: 11, length: 3, exponent: 72, ..start() });
    assert_eq!(frames, vec![]);
    let refused = Flags { verdict: Verdict::Beyond, ..start() };
    assert_eq!(advance(refused, &mut frames, b'['), refused);
    assert_eq!(frames, vec![]);
}

#[test]
fn scan_keeps_the_place_where_it_stopped() {
    let f = examine(br#"[{"x":{"a":1,},"y":2}]"#);
    assert_eq!(f.verdict, Verdict::TrailingComma { line: 1, col: 14 });
    assert_eq!(f.seen, 13);
    let f = examine(format!("{}]", "[".repeat(513)).as_bytes());
    assert_eq!((f.verdict, f.seen), (Verdict::Beyond, 512));
    let f = examine(b"[1, 2]\n");
    assert_eq!((f.verdict, f.seen, f.line, f.col), (Verdict::Fine, 7, 2, 1));
}

#[test]
fn syntax_error_before_the_place_where_the_scan_stops_is_the_parsers() {
    let body = format!("x{}", "[".repeat(600));
    assert_eq!(
        rpc(&reply(200, &body)),
        Err(Error::Parse { code: ParseError::InvalidSyntax, line: 1, col: 1 })
    );
    let r = rpc(&reply(200, r#"[tru,{"a":{"b":1,}}]"#));
    assert_eq!(r, Err(Error::Parse { code: ParseError::InvalidSyntax, line: 1, col: 5 }));
    let r = rpc(&reply(200, "{\"a\" 1,\n\"x\":{\"b\":1,}}"));
    assert_eq!(r, Err(Error::Parse { code: ParseError::ExpectedColon, line: 1, col: 6 }));
    let body = format!("[1] {{\"{}\":1}}", "n".repeat(70_000));
    assert_eq!(
        rpc(&reply(200, &body)),
        Err(Error::Parse { code: ParseError::TrailingCharacters, line: 1, col: 5 })
    );
    let r = rpc(&reply(200, "nulle99999999999999999999"));
    assert_eq!(r, Err(Error::Parse { code: ParseError::TrailingCharacters, line: 1, col: 5 }));
    let r = rpc(&reply(200, "[01e99999999999999999999]"));
    assert_eq!(r, Err(Error::Parse { code: ParseError::InvalidNumber, line: 1, col: 3 }));
}

#[test]
fn scan_reads_escapes_as_the_characters_they_stand_for() {
    let mut frames: Vec<Frame> = Vec::new();
    let mut f = start();
    for b in br#"{"\u0041\u00e9\u20ac\ud83d\ude00\/x"#.iter() {
        f = advance(f, &mut frames, *b);
    }
    assert_eq!(f.length, 1 + 2 + 3 + 4 + 1 + 1);
    assert!(f.in_string && !f.escaped && f.hex_left == 0 && !f.after_high);
}
