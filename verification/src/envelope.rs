//! The service's envelope: from the status and body of a response to the
//! result payload or a typed failure.

use crate::error::{Error, Failure};
use crate::json::{
    blurred, blurred_float_free, blurred_members, blurred_to_float_free, float_free, import,
    lookup, lookup_blurred, lookup_first,
    members_view, object_view, parse_document, parsed, position, render_member, rendered,
    same_text, JsonModel, Members, Value,
};
use crate::scan::{
    examine, found, next, next_number, sample, sample_is_takeable, takeable, verdict_of, Flags,
    Verdict,
};
use vstd::slice::slice_subrange;
use vstd::prelude::*;
use vstd::utf8::{decode_utf8, encode_utf8, valid_utf8};

verus! {

/// What the transport got back for one request.
#[derive(Clone, Debug, PartialEq)]
pub struct Response {
    /// The HTTP status code.
    pub status: u16,
    /// The whole body.
    pub body: Vec<u8>,
}

/// The description carried by the failure to read a body as text.
pub const INVALID_TEXT: &'static str = "stream did not contain valid UTF-8";

/// The status is in the success class.
pub open spec fn is_success(status: u16) -> bool {
    200 <= status <= 299
}

/// What a decoded document is, read as an envelope.
#[derive(Debug, PartialEq)]
pub enum Envelope {
    /// No object, `type` or `results` missing, or `type` no string.
    Malformed,
    /// `type` is the string `error`; the payload is `results`.
    ServiceError(Value),
    /// `type` is any other string; the payload is `results`.
    Results(Value),
}

/// The mathematical content of an [`Envelope`].
pub enum EnvelopeModel {
    Malformed,
    ServiceError(JsonModel),
    Results(JsonModel),
}

impl View for Envelope {
    type V = EnvelopeModel;

    open spec fn view(&self) -> EnvelopeModel {
        match self {
            Envelope::Malformed => EnvelopeModel::Malformed,
            Envelope::ServiceError(payload) => EnvelopeModel::ServiceError(payload@),
            Envelope::Results(payload) => EnvelopeModel::Results(payload@),
        }
    }
}

/// A document read as an envelope.
///
/// Only the literal `error` marks a failure: any other string under `type`
/// is a success, whatever the operation was.
pub open spec fn envelope_of(doc: JsonModel) -> EnvelopeModel {
    match doc {
        JsonModel::Object(members) => match (lookup(members, "type"@), lookup(members, "results"@)) {
            (Some(JsonModel::String(kind)), Some(results)) => if kind == "error"@ {
                EnvelopeModel::ServiceError(results)
            } else {
                EnvelopeModel::Results(results)
            },
            _ => EnvelopeModel::Malformed,
        },
        _ => EnvelopeModel::Malformed,
    }
}

/// The message of a service error: the payload itself where it is a string,
/// its compact rendering otherwise.
pub open spec fn service_message(payload: JsonModel) -> Seq<char> {
    match payload {
        JsonModel::String(s) => s,
        other => rendered(other),
    }
}

/// What a decoded document amounts to: its payload, or the failure it
/// reports or is.
pub open spec fn reply_of(doc: JsonModel) -> Result<JsonModel, Failure> {
    match envelope_of(doc) {
        EnvelopeModel::Malformed => Err(Failure::InvalidResponse),
        EnvelopeModel::ServiceError(payload) => Err(Failure::Aur(service_message(payload))),
        EnvelopeModel::Results(payload) => Ok(payload),
    }
}

/// What a response outside the success class amounts to: an HTTP failure
/// with the body as its message, or, where the body is no text, an I/O
/// failure.
pub open spec fn refusal_of(status: u16, body: Seq<u8>) -> Result<JsonModel, Failure> {
    if valid_utf8(body) {
        Err(Failure::Http { code: status, message: decode_utf8(body) })
    } else {
        Err(Failure::Io(INVALID_TEXT@))
    }
}

/// `parse` is what the parser makes of `body`: the failure it reports, or a
/// tree that is the one it builds up to the bits of floats.
pub open spec fn parses_to(body: Seq<u8>, parse: Result<JsonModel, Failure>) -> bool {
    match (parse, parsed(body)) {
        (Ok(tree), Ok(shape)) => blurred(tree) == shape,
        (Err(e), Err(f)) => e == f,
        _ => false,
    }
}

/// What the result of parsing amounts to: the reply that the document is,
/// or the parser's failure.
pub open spec fn parse_outcome(parse: Result<JsonModel, Failure>) -> Result<JsonModel, Failure> {
    match parse {
        Ok(doc) => reply_of(doc),
        Err(failure) => Err(failure),
    }
}

/// The failure that a comma before a closing brace amounts to where the
/// parser cannot be asked: a syntax error with the code that the parser
/// gives such a comma where it can be asked, at the line and column of the
/// brace.
pub open spec fn trailing_comma_failure(line: usize, col: usize) -> Failure {
    match parsed(sample()) {
        Err(Failure::Parse { code, line: _, col: _ }) => Failure::Parse { code, line, col },
        _ => Failure::InvalidResponse,
    }
}

/// What a document amounts to that the parser cannot take: a syntax error
/// for a comma before a closing brace, and an invalid response for a
/// document beyond what the parser addresses, counts or the stack holds.
pub open spec fn refused(verdict: Verdict) -> Failure {
    match verdict {
        Verdict::TrailingComma { line, col } => trailing_comma_failure(line, col),
        _ => Failure::InvalidResponse,
    }
}

/// The syntax error that the parser reports for `head` before it has read
/// all of it, if there is one: an error at the place where `head` ends says
/// only that `head` is not the whole document.
pub open spec fn earlier_failure(head: Seq<u8>) -> Option<Failure> {
    let f = found(head);
    if f.verdict is Fine {
        match parsed(head) {
            Err(Failure::Parse { code, line, col }) => if line == f.line && col == next_number(
                f.col,
            ) {
                None
            } else {
                Some(Failure::Parse { code, line, col })
            },
            _ => None,
        }
    } else {
        None
    }
}

/// What a document amounts to that the parser cannot take. The part before
/// the place where the scan stopped is parsed: a syntax error in that part
/// is what the parser says of the whole, since it reads from the front and
/// stops at the first error. Without one the parser would get to that place,
/// and the document is what the scan's finding amounts to.
pub open spec fn untaken(body: Seq<u8>) -> Failure {
    let f = found(body);
    if f.seen <= body.len() {
        match earlier_failure(body.take(f.seen as int)) {
            Some(failure) => failure,
            None => refused(f.verdict),
        }
    } else {
        refused(f.verdict)
    }
}

/// `r` is what a response amounts to.
///
/// Outside the success class the body is the message of an HTTP failure,
/// or, where it is no text, an I/O failure. Inside it, a body that the
/// parser cannot take is the failure described above; any other body is
/// parsed, and the document read as an envelope.
pub open spec fn is_outcome(status: u16, body: Seq<u8>, r: Result<JsonModel, Failure>) -> bool {
    if !is_success(status) {
        r == refusal_of(status, body)
    } else if !takeable(body) {
        r == Err::<JsonModel, Failure>(untaken(body))
    } else {
        exists|parse: Result<JsonModel, Failure>| #[trigger]
            parses_to(body, parse) && r == parse_outcome(parse)
    }
}

/// The content of a result that holds a JSON value.
pub open spec fn payload_view(r: Result<Value, Error>) -> Result<JsonModel, Failure> {
    match r {
        Ok(v) => Ok(v@),
        Err(e) => Err(e@),
    }
}

/// Calls `core::str::from_utf8`.
///
/// Taken on trust, as std documents it: the call succeeds exactly on
/// well-formed UTF-8, and the text then consists of the very bytes given.
#[verifier::external_body]
fn text_of(bytes: &[u8]) -> (r: Option<&str>)
    ensures
        r is Some <==> valid_utf8(bytes@),
        r matches Some(text) ==> encode_utf8(text@) == bytes@,
{
    core::str::from_utf8(bytes).ok()
}

/// Reads a decoded document as an envelope and takes its payload out.
pub fn open_envelope(doc: Value) -> (e: Envelope)
    ensures
        e@ == envelope_of(doc@),
{
    let mut members = match doc {
        Value::Object(members) => members,
        _ => {
            return Envelope::Malformed;
        },
    };
    proof {
        object_view(members);
    }
    let ghost models = members_view(members@);
    let (kind_at, results_at) = match (position(&members, "type"), position(&members, "results")) {
        (Some(k), Some(r)) => (k, r),
        _ => {
            return Envelope::Malformed;
        },
    };
    proof {
        lookup_first(models, "type"@, kind_at as int);
        lookup_first(models, "results"@, results_at as int);
    }
    let failed = match &members[kind_at].1 {
        Value::String(kind) => same_text(kind.as_str(), "error"),
        _ => {
            return Envelope::Malformed;
        },
    };
    let (_, results) = members.swap_remove(results_at);
    if failed {
        Envelope::ServiceError(results)
    } else {
        Envelope::Results(results)
    }
}

/// The failure for a comma before a closing brace at `line` and `col`.
fn trailing_comma(line: usize, col: usize) -> (e: Error)
    ensures
        e@ == trailing_comma_failure(line, col),
{
    let mut bytes: Vec<u8> = Vec::new();
    bytes.push(0x7b);
    bytes.push(0x22);
    bytes.push(0x22);
    bytes.push(0x3a);
    bytes.push(0x30);
    bytes.push(0x2c);
    bytes.push(0x7d);
    proof {
        assert(bytes@ =~= sample());
        sample_is_takeable();
    }
    match parse_document(bytes.as_slice()) {
        Err(Error::Parse { code, line: _, col: _ }) => Error::Parse { code, line, col },
        _ => Error::InvalidResponse,
    }
}

/// The failure for a document that the parser cannot take.
fn untaken_error(body: &[u8], f: Flags) -> (e: Error)
    requires
        f == found(body@),
    ensures
        e@ == untaken(body@),
{
    if f.seen <= body.len() {
        let head = slice_subrange(body, 0, f.seen);
        assert(head@ =~= body@.take(f.seen as int));
        let h = examine(head);
        if let Verdict::Fine = h.verdict {
            if let Err(Error::Parse { code, line, col }) = parse_document(head) {
                if !(line == h.line && col == next(h.col)) {
                    return Error::Parse { code, line, col };
                }
            }
        }
    }
    match f.verdict {
        Verdict::TrailingComma { line, col } => trailing_comma(line, col),
        _ => Error::InvalidResponse,
    }
}

/// Interprets a response: the raw result payload, or the failure that the
/// status, the parser or the service reports.
///
/// The payload is handed back unexamined; its shape is the caller's matter.
/// No object in it holds a name twice.
///
/// A document that the parser cannot take never reaches it as a whole. The
/// part before the place where the scan stopped does: a syntax error that
/// the parser finds there is the answer. Without one, a comma before a
/// closing brace is a syntax error at that brace, and a document beyond what
/// the parser addresses, adds up or the stack holds is an invalid response.
pub fn rpc(response: &Response) -> (r: Result<Value, Error>)
    ensures
        is_outcome(response.status, response.body@, payload_view(r)),
        r matches Ok(v) ==> v@.unique_keys(),
{
    broadcast use vstd::utf8::encode_utf8_decode_utf8;

    let body = response.body.as_slice();
    let text = text_of(body);
    if response.status < 200 || response.status > 299 {
        return match text {
            Some(text) => Err(Error::Http { code: response.status, message: text.to_owned() }),
            None => Err(Error::Io(INVALID_TEXT.to_owned())),
        };
    }
    if text.is_some() {
        let f = examine(body);
        match f.verdict {
            Verdict::Fine => {},
            _ => {
                return Err(untaken_error(body, f));
            },
        }
    }
    let j = match parse_document(body) {
        Ok(j) => j,
        Err(e) => {
            assert(parses_to(response.body@, Err::<JsonModel, Failure>(e@)));
            return Err(e);
        },
    };
    let doc = import(&j);
    assert(parses_to(response.body@, Ok::<JsonModel, Failure>(doc@)));
    match open_envelope(doc) {
        Envelope::Malformed => Err(Error::InvalidResponse),
        Envelope::Results(payload) => Ok(payload),
        Envelope::ServiceError(Value::String(message)) => Err(Error::Aur(message)),
        Envelope::ServiceError(_) => match render_member(&j, "results") {
            Some(text) => Err(Error::Aur(text)),
            None => Err(Error::InvalidResponse),
        },
    }
}

/// A document without `results`, or without `type`, is an invalid response.
pub proof fn missing_member_is_invalid(members: Members)
    requires
        lookup(members, "results"@) is None || lookup(members, "type"@) is None,
    ensures
        reply_of(JsonModel::Object(members)) == Err::<JsonModel, Failure>(Failure::InvalidResponse),
{
}

/// A document that is no object, or whose `type` is no string, is an invalid
/// response.
pub proof fn malformed_document_is_invalid(doc: JsonModel)
    requires
        !(doc is Object) || !(lookup(doc->Object_0, "type"@) matches Some(
            JsonModel::String(_),
        )),
    ensures
        reply_of(doc) == Err::<JsonModel, Failure>(Failure::InvalidResponse),
{
}

/// A document whose `type` is `error` is a service error that carries
/// `results`: as it stands where it is a string, rendered otherwise.
pub proof fn error_document_is_service_error(members: Members, payload: JsonModel)
    requires
        lookup(members, "type"@) == Some(JsonModel::String("error"@)),
        lookup(members, "results"@) == Some(payload),
    ensures
        reply_of(JsonModel::Object(members)) == Err::<JsonModel, Failure>(
            Failure::Aur(service_message(payload)),
        ),
        payload matches JsonModel::String(text) ==> service_message(payload) == text,
{
}

/// A document whose `type` is any string but `error` succeeds with its
/// `results`, whatever the string is.
pub proof fn other_document_is_success(members: Members, kind: Seq<char>, payload: JsonModel)
    requires
        lookup(members, "type"@) == Some(JsonModel::String(kind)),
        kind != "error"@,
        lookup(members, "results"@) == Some(payload),
    ensures
        reply_of(JsonModel::Object(members)) == Ok::<JsonModel, Failure>(payload),
{
}

/// A response outside the success class whose body is the UTF-8 form of a
/// text is an HTTP failure with the response's status and that text.
pub proof fn failure_status_reports_body(
    status: u16,
    message: Seq<char>,
    r: Result<JsonModel, Failure>,
)
    requires
        !is_success(status),
        is_outcome(status, encode_utf8(message), r),
    ensures
        r == Err::<JsonModel, Failure>(Failure::Http { code: status, message }),
{
    broadcast use vstd::utf8::encode_utf8_decode_utf8, vstd::utf8::encode_utf8_valid_utf8;

}

/// A body that the parser cannot take is a failure and nothing else: a
/// syntax error that the parser reports for the part before the place where
/// the scan stopped, or else what the scan's finding amounts to.
pub proof fn untaken_document_is_a_failure(
    status: u16,
    body: Seq<u8>,
    r: Result<JsonModel, Failure>,
)
    requires
        is_success(status),
        !takeable(body),
    ensures
        is_outcome(status, body, r) <==> r == Err::<JsonModel, Failure>(untaken(body)),
        untaken(body) is Parse || untaken(body) is InvalidResponse,
{
}

/// Where the parser fails, its failure is what the response amounts to.
pub proof fn parse_failure_is_the_outcome(
    status: u16,
    body: Seq<u8>,
    r: Result<JsonModel, Failure>,
)
    requires
        is_success(status),
        takeable(body),
        parsed(body) is Err,
    ensures
        is_outcome(status, body, r) <==> r == Err::<JsonModel, Failure>(parsed(body)->Err_0),
{
    if r == Err::<JsonModel, Failure>(parsed(body)->Err_0) {
        assert(parses_to(body, Err::<JsonModel, Failure>(parsed(body)->Err_0)));
    }
}

/// Where the document holds no number with a fraction or an exponent, the
/// bytes fix what the response amounts to: the reply that the parsed tree
/// is.
pub proof fn outcome_without_floats(status: u16, body: Seq<u8>, r: Result<JsonModel, Failure>)
    requires
        is_success(status),
        takeable(body),
        parsed(body) matches Ok(shape) && float_free(shape),
    ensures
        is_outcome(status, body, r) <==> r == reply_of(parsed(body)->Ok_0),
{
    let shape = parsed(body)->Ok_0;
    if is_outcome(status, body, r) {
        let parse = choose|parse: Result<JsonModel, Failure>| #[trigger]
            parses_to(body, parse) && r == parse_outcome(parse);
        blurred_to_float_free(parse->Ok_0);
    }
    if r == reply_of(shape) {
        blurred_float_free(shape);
        assert(parses_to(body, Ok::<JsonModel, Failure>(shape)));
    }
}

/// Two outcomes are the same apart from the bits of floats in a payload and
/// the text of a service error.
pub open spec fn alike(first: Result<JsonModel, Failure>, second: Result<JsonModel, Failure>) -> bool {
    match (first, second) {
        (Ok(a), Ok(b)) => blurred(a) == blurred(b),
        (Err(Failure::Aur(_)), Err(Failure::Aur(_))) => true,
        (Err(e), Err(f)) => e == f,
        _ => false,
    }
}

/// Read as an envelope, a document is with the bits of its floats what it is
/// without them, apart from those bits in the payload and from the text of a
/// service error.
pub proof fn reply_ignores_floats(doc: JsonModel)
    ensures
        alike(reply_of(doc), reply_of(blurred(doc))),
        reply_of(blurred(doc)) matches Ok(payload) ==> blurred(payload) == payload,
{
    if let JsonModel::Object(members) = doc {
        assert(blurred(doc) == JsonModel::Object(blurred_members(members)));
        lookup_blurred(members, "type"@);
        lookup_blurred(members, "results"@);
        if let Some(payload) = lookup(members, "results"@) {
            blurring_twice(payload);
        }
    }
}

/// Forgetting the bits of floats a second time changes nothing.
pub proof fn blurring_twice(tree: JsonModel)
    ensures
        blurred(blurred(tree)) == blurred(tree),
    decreases tree,
{
    match tree {
        JsonModel::Array(items) => {
            let once = blurred(tree)->Array_0;
            assert forall|i: int| 0 <= i < items.len() implies blurred(once[i]) == once[i] by {
                blurring_twice(items[i]);
            }
            assert(blurred(blurred(tree))->Array_0 =~= once);
        },
        JsonModel::Object(members) => {
            let once = blurred(tree)->Object_0;
            assert forall|i: int| 0 <= i < members.len() implies blurred(once[i].1)
                == once[i].1 by {
                blurring_twice(members[i].1);
            }
            assert(blurred(blurred(tree))->Object_0 =~= once);
        },
        _ => {},
    }
}

/// The bytes of a response fix what it amounts to, apart from the bits of
/// floats in the payload and from the text of a service error.
pub proof fn outcomes_are_alike(
    status: u16,
    body: Seq<u8>,
    first: Result<JsonModel, Failure>,
    second: Result<JsonModel, Failure>,
)
    requires
        is_outcome(status, body, first),
        is_outcome(status, body, second),
    ensures
        alike(first, second),
{
    if is_success(status) && takeable(body) {
        let a = choose|parse: Result<JsonModel, Failure>| #[trigger]
            parses_to(body, parse) && first == parse_outcome(parse);
        let b = choose|parse: Result<JsonModel, Failure>| #[trigger]
            parses_to(body, parse) && second == parse_outcome(parse);
        if let Ok(shape) = parsed(body) {
            reply_ignores_floats(a->Ok_0);
            reply_ignores_floats(b->Ok_0);
        }
    }
}

} // verus!
