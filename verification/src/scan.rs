//! A scan of a document's bytes that finds what the parser cannot take.
//!
//! The parser keeps the names on the path to the member it reads in one
//! buffer that it addresses with 16 bits, adds up the digits of an exponent
//! in a machine word, descends once per level of nesting, counts the items
//! of an array in 32 bits, and loses its place at a comma before a closing
//! brace inside another array or object. The scan follows the bytes the way
//! the parser's reader does and stops at the first place where one of these
//! would go wrong.

use vstd::prelude::*;
use vstd::utf8::valid_utf8;

verus! {

/// The deepest nesting of arrays and objects that is handed to the parser.
///
/// This is a bound on the stack, not on JSON: the parser and the copy of its
/// value take about a kilobyte of stack per level, and a thread's stack of
/// two mebibytes gives out between two and three thousand levels.
pub const MAX_DEPTH: usize = 512;

/// The most bytes that the names on the path to a member may take together,
/// escapes resolved: what 16 bits address.
pub const MAX_NAMES: usize = 65_535;

/// The most bytes that a document may have, so that 32 bits count the items
/// of its arrays and hold the line and column of its end.
pub const MAX_BODY: usize = 0xffff_fffe;

/// What a scan has found.
#[derive(Clone, Copy, Debug, PartialEq, Eq)]
pub enum Verdict {
    /// Nothing that the parser cannot take.
    Fine,
    /// A comma before the closing brace of an object that lies inside
    /// another array or object, at this line and column.
    TrailingComma { line: usize, col: usize },
    /// Names too long for the path, an exponent too large, nesting too deep
    /// or a document too long.
    Beyond,
}

/// An array or object that is open.
#[derive(Clone, Copy, Debug, PartialEq, Eq)]
pub struct Frame {
    /// It is an object.
    pub object: bool,
    /// The bytes of the name of the member that is being read.
    pub name: usize,
}

/// Where a scan stands, apart from the arrays and objects that are open.
#[derive(Clone, Copy, Debug, PartialEq, Eq)]
pub struct Flags {
    pub verdict: Verdict,
    /// The bytes read before the scan found anything.
    pub seen: usize,
    /// Line and column of the last character, counted as the parser counts.
    pub line: usize,
    pub col: usize,
    /// The scan is inside a string.
    pub in_string: bool,
    /// Inside a string, the last byte was a backslash that starts an escape.
    pub escaped: bool,
    /// The hexadecimal digits of a `\u` escape that are still to come.
    pub hex_left: usize,
    /// The value of the digits of that escape read so far.
    pub hex_value: usize,
    /// The last `\u` escape was the first half of a pair.
    pub after_high: bool,
    /// The bytes of the string that is read or was read last, escapes
    /// resolved, counted up to one past `MAX_NAMES`.
    pub length: usize,
    /// A string has ended and only whitespace has followed it.
    pub after_string: bool,
    /// A comma was read and only whitespace has followed it.
    pub after_comma: bool,
    /// An `e` or `E` was read and only a sign and digits have followed it.
    pub in_exponent: bool,
    /// A sign may still follow that `e` or `E`.
    pub sign_allowed: bool,
    /// The value of the digits read since.
    pub exponent: usize,
    /// The bytes of the names of all open objects together.
    pub total: usize,
}

/// Where a scan stands.
pub struct Scan {
    pub flags: Flags,
    /// The arrays and objects that are open, the innermost last.
    pub frames: Seq<Frame>,
}

/// The scan before the first byte.
pub open spec fn start() -> Scan {
    Scan {
        flags: Flags {
            verdict: Verdict::Fine,
            seen: 0,
            line: 1,
            col: 0,
            in_string: false,
            escaped: false,
            hex_left: 0,
            hex_value: 0,
            after_high: false,
            length: 0,
            after_string: false,
            after_comma: false,
            in_exponent: false,
            sign_allowed: false,
            exponent: 0,
            total: 0,
        },
        frames: Seq::empty(),
    }
}

/// One of the four bytes that the parser skips between tokens.
pub open spec fn is_space(b: u8) -> bool {
    b == 0x20 || b == 0x0a || b == 0x09 || b == 0x0d
}

/// The value of a hexadecimal digit, and 16 for any other byte.
pub open spec fn hex_of(b: u8) -> usize {
    if 0x30 <= b <= 0x39 {
        (b - 0x30) as usize
    } else if 0x41 <= b <= 0x46 {
        (b - 0x37) as usize
    } else if 0x61 <= b <= 0x66 {
        (b - 0x57) as usize
    } else {
        16
    }
}

/// A count with `more` added, held at one past `MAX_NAMES`.
pub open spec fn grown(length: usize, more: usize) -> usize {
    if length + more <= MAX_NAMES {
        (length + more) as usize
    } else {
        (MAX_NAMES + 1) as usize
    }
}

/// A line or column number with one added, held at `MAX_BODY`.
pub open spec fn next_number(n: usize) -> usize {
    if n < MAX_BODY {
        (n + 1) as usize
    } else {
        n
    }
}

/// Line and column after one more byte: a line feed starts a line, a byte
/// that continues a character does not count, any other byte is one column.
pub open spec fn moved(f: Flags, b: u8) -> Flags {
    if b == 0x0a {
        Flags { line: next_number(f.line), col: 1, ..f }
    } else if 0x80 <= b <= 0xbf {
        f
    } else {
        Flags { col: next_number(f.col), ..f }
    }
}

/// The bytes that the character of a finished `\u` escape takes: none where
/// it is the second half of a pair, four for the pair where it is the first
/// half, and else what UTF-8 takes for its value.
pub open spec fn escape_bytes(f: Flags, value: usize) -> usize {
    if f.after_high {
        0
    } else if 0xd800 <= value <= 0xdbff {
        4
    } else if value < 0x80 {
        1
    } else if value < 0x800 {
        2
    } else {
        3
    }
}

/// The flags after one more byte inside a string.
pub open spec fn step_inside(f: Flags, b: u8) -> Flags {
    if f.hex_left > 0 {
        if hex_of(b) < 16 {
            let value = ((f.hex_value % 0x1000) * 16 + hex_of(b)) as usize;
            if f.hex_left == 1 {
                Flags {
                    hex_left: 0,
                    hex_value: 0,
                    after_high: !f.after_high && 0xd800 <= value <= 0xdbff,
                    length: grown(f.length, escape_bytes(f, value)),
                    ..f
                }
            } else {
                Flags { hex_left: (f.hex_left - 1) as usize, hex_value: value, ..f }
            }
        } else {
            Flags { hex_left: 0, hex_value: 0, after_high: false, length: grown(f.length, 1), ..f }
        }
    } else if f.escaped {
        if b == 0x75 {
            Flags { escaped: false, hex_left: 4, hex_value: 0, ..f }
        } else {
            Flags { escaped: false, after_high: false, length: grown(f.length, 1), ..f }
        }
    } else if b == 0x5c {
        Flags { escaped: true, ..f }
    } else if b == 0x22 {
        Flags { in_string: false, after_high: false, after_string: true, ..f }
    } else {
        Flags { after_high: false, length: grown(f.length, 1), ..f }
    }
}

/// The flags with everything forgotten that only lasts up to the next token.
pub open spec fn cleared(f: Flags) -> Flags {
    Flags { after_string: false, after_comma: false, in_exponent: false, sign_allowed: false, ..f }
}

/// The scan after a quote outside a string: a string begins.
pub open spec fn step_quote(s: Scan) -> Scan {
    Scan {
        flags: Flags {
            in_string: true,
            escaped: false,
            hex_left: 0,
            hex_value: 0,
            after_high: false,
            length: 0,
            ..cleared(s.flags)
        },
        frames: s.frames,
    }
}

/// The scan after a colon: where a string came before it and the innermost
/// thing open is an object, the string is the name of the member that
/// begins, and the names on the path must fit `MAX_NAMES`.
pub open spec fn step_colon(s: Scan) -> Scan {
    let f = s.flags;
    if f.after_string && s.frames.len() > 0 && s.frames.last().object {
        if f.total + f.length > MAX_NAMES {
            Scan { flags: Flags { verdict: Verdict::Beyond, ..cleared(f) }, frames: s.frames }
        } else {
            Scan {
                flags: Flags { total: (f.total + f.length) as usize, ..cleared(f) },
                frames: s.frames.update(
                    s.frames.len() - 1,
                    Frame { object: true, name: f.length },
                ),
            }
        }
    } else {
        Scan { flags: cleared(f), frames: s.frames }
    }
}

/// The flags with the name of the innermost member taken off the path.
pub open spec fn without_name(f: Flags, frames: Seq<Frame>) -> Flags {
    if frames.len() > 0 && frames.last().name <= f.total {
        Flags { total: (f.total - frames.last().name) as usize, ..f }
    } else {
        f
    }
}

/// The scan after a comma: the member that ended gives up its name.
pub open spec fn step_comma(s: Scan) -> Scan {
    let f = Flags { after_comma: true, ..cleared(without_name(s.flags, s.frames)) };
    if s.frames.len() > 0 {
        Scan {
            flags: f,
            frames: s.frames.update(
                s.frames.len() - 1,
                Frame { object: s.frames.last().object, name: 0 },
            ),
        }
    } else {
        Scan { flags: f, frames: s.frames }
    }
}

/// The scan after an opening bracket or brace: one level deeper, which must
/// not pass `MAX_DEPTH`.
pub open spec fn step_open(s: Scan, object: bool) -> Scan {
    if s.frames.len() >= MAX_DEPTH {
        Scan { flags: Flags { verdict: Verdict::Beyond, ..cleared(s.flags) }, frames: s.frames }
    } else {
        Scan { flags: cleared(s.flags), frames: s.frames.push(Frame { object, name: 0 }) }
    }
}

/// The scan after a closing bracket or brace: the innermost level ends. A
/// brace that closes an object right after a comma, inside another array or
/// object, is where the parser loses its place.
pub open spec fn step_close(s: Scan, brace: bool) -> Scan {
    let f = s.flags;
    if brace && f.after_comma && s.frames.len() > 1 && s.frames.last().object {
        Scan {
            flags: Flags {
                verdict: Verdict::TrailingComma { line: f.line, col: f.col },
                ..cleared(f)
            },
            frames: s.frames,
        }
    } else if s.frames.len() > 0 {
        Scan { flags: cleared(without_name(f, s.frames)), frames: s.frames.drop_last() }
    } else {
        Scan { flags: cleared(f), frames: s.frames }
    }
}

/// The flags after a digit outside a string: in an exponent it adds to the
/// value, which must fit a machine word.
pub open spec fn step_digit(f: Flags, b: u8) -> Flags {
    if !f.in_exponent {
        cleared(f)
    } else if f.exponent * 10 + (b - 0x30) > usize::MAX {
        Flags { verdict: Verdict::Beyond, ..cleared(f) }
    } else {
        Flags {
            after_string: false,
            after_comma: false,
            sign_allowed: false,
            exponent: (f.exponent * 10 + (b - 0x30)) as usize,
            ..f
        }
    }
}

/// The scan after one more byte outside a string.
pub open spec fn step_outside(s: Scan, b: u8) -> Scan {
    let f = s.flags;
    if is_space(b) {
        Scan { flags: Flags { in_exponent: false, sign_allowed: false, ..f }, frames: s.frames }
    } else if b == 0x22 {
        step_quote(s)
    } else if b == 0x3a {
        step_colon(s)
    } else if b == 0x2c {
        step_comma(s)
    } else if b == 0x5b || b == 0x7b {
        step_open(s, b == 0x7b)
    } else if b == 0x5d || b == 0x7d {
        step_close(s, b == 0x7d)
    } else if b == 0x65 || b == 0x45 {
        Scan {
            flags: Flags { in_exponent: true, sign_allowed: true, exponent: 0, ..cleared(f) },
            frames: s.frames,
        }
    } else if b == 0x2b || b == 0x2d {
        Scan {
            flags: Flags {
                in_exponent: f.in_exponent && f.sign_allowed,
                sign_allowed: false,
                ..cleared(f)
            },
            frames: s.frames,
        }
    } else if 0x30 <= b <= 0x39 {
        Scan { flags: step_digit(f, b), frames: s.frames }
    } else {
        Scan { flags: cleared(f), frames: s.frames }
    }
}

/// What one more byte turns a scan into that has found nothing so far.
pub open spec fn turned(s: Scan, b: u8) -> Scan {
    if s.flags.in_string {
        Scan { flags: step_inside(moved(s.flags, b), b), frames: s.frames }
    } else {
        step_outside(Scan { flags: moved(s.flags, b), frames: s.frames }, b)
    }
}

/// The scan after one more byte. A scan that has found something stays where
/// it is, so that it keeps the number of bytes that came before the find.
pub open spec fn step(s: Scan, b: u8) -> Scan {
    if !(s.flags.verdict is Fine) {
        s
    } else {
        let t = turned(s, b);
        if t.flags.verdict is Fine {
            Scan { flags: Flags { seen: next_number(s.flags.seen), ..t.flags }, frames: t.frames }
        } else {
            t
        }
    }
}

/// The scan after all of `bytes`, read from the first to the last.
pub open spec fn scan(bytes: Seq<u8>) -> Scan
    decreases bytes.len(),
{
    if bytes.len() == 0 {
        start()
    } else {
        step(scan(bytes.drop_last()), bytes.last())
    }
}

/// Where the scan of a document ends. A document longer than `MAX_BODY` is
/// beyond the parser before its first byte.
pub open spec fn found(body: Seq<u8>) -> Flags {
    if body.len() > MAX_BODY {
        Flags { verdict: Verdict::Beyond, ..start().flags }
    } else {
        scan(body).flags
    }
}

/// What the scan finds in a document.
pub open spec fn verdict_of(body: Seq<u8>) -> Verdict {
    found(body).verdict
}

/// The parser can take the document: it is no text at all, which the parser
/// finds out before it reads a token, or the scan finds nothing in it.
pub open spec fn takeable(body: Seq<u8>) -> bool {
    !valid_utf8(body) || verdict_of(body) is Fine
}

/// The seven bytes `{"":0,}`: an object with a comma before its closing
/// brace that lies in nothing else, which the parser turns away by name.
pub open spec fn sample() -> Seq<u8> {
    seq![0x7bu8, 0x22u8, 0x22u8, 0x3au8, 0x30u8, 0x2cu8, 0x7du8]
}

/// The scan finds nothing in the sample.
pub proof fn sample_is_takeable()
    ensures
        takeable(sample()),
{
    let s = sample();
    let s0 = start();
    assert(s.take(0) =~= Seq::<u8>::empty());
    assert(scan(s.take(0)) == s0);
    let s1 = step(s0, 0x7b);
    assert(s.take(1).drop_last() =~= s.take(0) && s.take(1).last() == 0x7b);
    assert(scan(s.take(1)) == s1);
    assert(s1.flags.verdict is Fine && s1.frames.len() == 1 && !s1.flags.in_string);
    let s2 = step(s1, 0x22);
    assert(s.take(2).drop_last() =~= s.take(1) && s.take(2).last() == 0x22);
    assert(scan(s.take(2)) == s2);
    assert(s2.flags.verdict is Fine && s2.frames.len() == 1 && s2.flags.in_string
        && s2.flags.hex_left == 0 && !s2.flags.escaped && s2.flags.length == 0);
    let s3 = step(s2, 0x22);
    assert(s.take(3).drop_last() =~= s.take(2) && s.take(3).last() == 0x22);
    assert(scan(s.take(3)) == s3);
    assert(s3.flags.verdict is Fine && s3.frames.len() == 1 && !s3.flags.in_string
        && s3.flags.length == 0 && s3.flags.total == 0);
    let s4 = step(s3, 0x3a);
    assert(s.take(4).drop_last() =~= s.take(3) && s.take(4).last() == 0x3a);
    assert(scan(s.take(4)) == s4);
    assert(s4.flags.verdict is Fine && s4.frames.len() == 1 && !s4.flags.in_string
        && !s4.flags.in_exponent);
    let s5 = step(s4, 0x30);
    assert(s.take(5).drop_last() =~= s.take(4) && s.take(5).last() == 0x30);
    assert(scan(s.take(5)) == s5);
    assert(s5.flags.verdict is Fine && s5.frames.len() == 1 && !s5.flags.in_string);
    let s6 = step(s5, 0x2c);
    assert(s.take(6).drop_last() =~= s.take(5) && s.take(6).last() == 0x2c);
    assert(scan(s.take(6)) == s6);
    assert(s6.flags.verdict is Fine && s6.frames.len() == 1 && !s6.flags.in_string);
    let s7 = step(s6, 0x7d);
    assert(s.take(7).drop_last() =~= s.take(6) && s.take(7).last() == 0x7d);
    assert(s.take(7) =~= s);
    assert(scan(s) == s7);
    assert(s7.flags.verdict is Fine);
}

fn grow(length: usize, more: usize) -> (r: usize)
    requires
        more <= 4,
    ensures
        r == grown(length, more),
{
    if length <= MAX_NAMES && more <= MAX_NAMES - length {
        length + more
    } else {
        MAX_NAMES + 1
    }
}

/// A line or column number with one added, held at `MAX_BODY`.
pub fn next(n: usize) -> (r: usize)
    ensures
        r == next_number(n),
{
    if n < MAX_BODY {
        n + 1
    } else {
        n
    }
}

fn hex(b: u8) -> (r: usize)
    ensures
        r == hex_of(b),
{
    if 0x30 <= b && b <= 0x39 {
        (b - 0x30) as usize
    } else if 0x41 <= b && b <= 0x46 {
        (b - 0x37) as usize
    } else if 0x61 <= b && b <= 0x66 {
        (b - 0x57) as usize
    } else {
        16
    }
}

fn clear(f: Flags) -> (r: Flags)
    ensures
        r == cleared(f),
{
    let mut r = f;
    r.after_string = false;
    r.after_comma = false;
    r.in_exponent = false;
    r.sign_allowed = false;
    r
}

fn advance_inside(f: Flags, b: u8) -> (r: Flags)
    ensures
        r == step_inside(f, b),
{
    let mut r = f;
    if f.hex_left > 0 {
        let digit = hex(b);
        if digit < 16 {
            let value = (f.hex_value % 0x1000) * 16 + digit;
            if f.hex_left == 1 {
                let high = 0xd800 <= value && value <= 0xdbff;
                let bytes: usize = if f.after_high {
                    0
                } else if high {
                    4
                } else if value < 0x80 {
                    1
                } else if value < 0x800 {
                    2
                } else {
                    3
                };
                r.hex_left = 0;
                r.hex_value = 0;
                r.after_high = !f.after_high && high;
                r.length = grow(f.length, bytes);
            } else {
                r.hex_left = f.hex_left - 1;
                r.hex_value = value;
            }
        } else {
            r.hex_left = 0;
            r.hex_value = 0;
            r.after_high = false;
            r.length = grow(f.length, 1);
        }
    } else if f.escaped {
        r.escaped = false;
        if b == 0x75 {
            r.hex_left = 4;
            r.hex_value = 0;
        } else {
            r.after_high = false;
            r.length = grow(f.length, 1);
        }
    } else if b == 0x5c {
        r.escaped = true;
    } else if b == 0x22 {
        r.in_string = false;
        r.after_high = false;
        r.after_string = true;
    } else {
        r.after_high = false;
        r.length = grow(f.length, 1);
    }
    r
}

fn forget_name(f: Flags, frames: &Vec<Frame>) -> (r: Flags)
    ensures
        r == without_name(f, frames@),
{
    let mut r = f;
    if frames.len() > 0 {
        let name = frames[frames.len() - 1].name;
        if name <= f.total {
            r.total = f.total - name;
        }
    }
    r
}

/// The scan after one more byte.
pub fn advance(flags: Flags, frames: &mut Vec<Frame>, b: u8) -> (r: Flags)
    ensures
        (Scan { flags: r, frames: final(frames)@ }) == step(
            Scan { flags, frames: old(frames)@ },
            b,
        ),
{
    match flags.verdict {
        Verdict::Fine => {},
        _ => {
            return flags;
        },
    }
    let mut r = turn(flags, frames, b);
    match r.verdict {
        Verdict::Fine => {
            r.seen = next(flags.seen);
        },
        _ => {},
    }
    r
}

fn turn(flags: Flags, frames: &mut Vec<Frame>, b: u8) -> (r: Flags)
    ensures
        (Scan { flags: r, frames: final(frames)@ }) == turned(
            Scan { flags, frames: old(frames)@ },
            b,
        ),
{
    let mut f = flags;
    if b == 0x0a {
        f.line = next(flags.line);
        f.col = 1;
    } else if 0x80 <= b && b <= 0xbf {
    } else {
        f.col = next(flags.col);
    }
    if f.in_string {
        return advance_inside(f, b);
    }
    let n = frames.len();
    if b == 0x20 || b == 0x0a || b == 0x09 || b == 0x0d {
        f.in_exponent = false;
        f.sign_allowed = false;
        f
    } else if b == 0x22 {
        let mut r = clear(f);
        r.in_string = true;
        r.escaped = false;
        r.hex_left = 0;
        r.hex_value = 0;
        r.after_high = false;
        r.length = 0;
        r
    } else if b == 0x3a {
        let mut r = clear(f);
        if f.after_string && n > 0 && frames[n - 1].object {
            if f.length > MAX_NAMES || f.total > MAX_NAMES - f.length {
                r.verdict = Verdict::Beyond;
            } else {
                r.total = f.total + f.length;
                frames.set(n - 1, Frame { object: true, name: f.length });
                assert(frames@ =~= old(frames)@.update(n - 1, Frame { object: true, name: f.length }));
            }
        }
        r
    } else if b == 0x2c {
        let mut r = clear(forget_name(f, frames));
        r.after_comma = true;
        if n > 0 {
            let object = frames[n - 1].object;
            frames.set(n - 1, Frame { object, name: 0 });
            assert(frames@ =~= old(frames)@.update(n - 1, Frame { object, name: 0 }));
        }
        r
    } else if b == 0x5b || b == 0x7b {
        let mut r = clear(f);
        if n >= MAX_DEPTH {
            r.verdict = Verdict::Beyond;
        } else {
            frames.push(Frame { object: b == 0x7b, name: 0 });
        }
        r
    } else if b == 0x5d || b == 0x7d {
        if b == 0x7d && f.after_comma && n > 1 && frames[n - 1].object {
            let mut r = clear(f);
            r.verdict = Verdict::TrailingComma { line: f.line, col: f.col };
            r
        } else if n > 0 {
            let r = clear(forget_name(f, frames));
            frames.pop();
            r
        } else {
            clear(f)
        }
    } else if b == 0x65 || b == 0x45 {
        let mut r = clear(f);
        r.in_exponent = true;
        r.sign_allowed = true;
        r.exponent = 0;
        r
    } else if b == 0x2b || b == 0x2d {
        let mut r = clear(f);
        r.in_exponent = f.in_exponent && f.sign_allowed;
        r
    } else if 0x30 <= b && b <= 0x39 {
        if !f.in_exponent {
            clear(f)
        } else {
            let digit = (b - 0x30) as usize;
            if f.exponent > (usize::MAX - digit) / 10 {
                let mut r = clear(f);
                r.verdict = Verdict::Beyond;
                r
            } else {
                let mut r = f;
                r.after_string = false;
                r.after_comma = false;
                r.sign_allowed = false;
                r.exponent = f.exponent * 10 + digit;
                r
            }
        }
    } else {
        clear(f)
    }
}

/// Scans a document.
pub fn examine(body: &[u8]) -> (r: Flags)
    ensures
        r == found(body@),
{
    let mut flags = Flags {
        verdict: Verdict::Fine,
        seen: 0,
        line: 1,
        col: 0,
        in_string: false,
        escaped: false,
        hex_left: 0,
        hex_value: 0,
        after_high: false,
        length: 0,
        after_string: false,
        after_comma: false,
        in_exponent: false,
        sign_allowed: false,
        exponent: 0,
        total: 0,
    };
    if body.len() > MAX_BODY {
        flags.verdict = Verdict::Beyond;
        return flags;
    }
    let mut frames: Vec<Frame> = Vec::new();
    let mut i: usize = 0;
    assert(body@.take(0) =~= Seq::<u8>::empty());
    while i < body.len()
        invariant
            i <= body.len(),
            (Scan { flags, frames: frames@ }) == scan(body@.take(i as int)),
        decreases body.len() - i,
    {
        proof {
            let upto = body@.take(i + 1);
            assert(upto.drop_last() =~= body@.take(i as int));
            assert(upto.last() == body@[i as int]);
        }
        flags = advance(flags, &mut frames, body[i]);
        i += 1;
    }
    assert(body@.take(body.len() as int) =~= body@);
    flags
}

} // verus!
