//! Turning what the interpreter left behind (its exit code and the bytes on
//! its standard output) into the outcome of one transaction.
use vstd::prelude::*;
use crate::json::{json_parse, parse_json, describe_json_error};

verus! {

/// The code reported for a process that ended without an exit code (killed
/// by a signal, for instance).
pub const NO_EXIT_CODE: i32 = -1;

/// The two operations that the interpreter performs on an asset file.
#[derive(Clone, Copy, Debug, PartialEq, Eq, Structural)]
pub enum Operation {
    /// Decode a file; the structured result comes back on standard output.
    Read,
    /// Encode a value into a file; the value goes in on standard input and
    /// standard output holds at most a confirmation text.
    Write,
}

/// The classified result of one transaction.
#[derive(Clone, Debug, PartialEq)]
pub enum Outcome {
    /// The interpreter exited with code zero. A read carries the decoded
    /// value; a write carries none.
    Success(Option<serde_json::Value>),
    /// The interpreter exited with a non-zero code, or with none at all
    /// (then the code is `NO_EXIT_CODE`).
    ExitFailure(i32),
    /// The interpreter could not be started.
    SpawnFailure(String),
    /// Writing to or reading from one of the interpreter's pipes failed.
    IoFailure(String),
    /// The interpreter exited with code zero but serde_json does not accept
    /// its output as a JSON document; `raw` holds that output unchanged.
    ProtocolFailure { cause: String, raw: Vec<u8> },
}

/// The code that an exit failure reports for an exit code as the process
/// handle gave it.
pub open spec fn reported_code(code: Option<i32>) -> i32 {
    match code {
        Some(c) => c,
        None => NO_EXIT_CODE,
    }
}

/// Whether `o` is the outcome that an `op` transaction has, whose process
/// ended with `code` after writing `out` to its standard output.
pub open spec fn classified(op: Operation, code: Option<i32>, out: Seq<u8>, o: Outcome) -> bool {
    if code != Some(0i32) {
        o == Outcome::ExitFailure(reported_code(code))
    } else if op is Write {
        o == Outcome::Success(None)
    } else {
        match json_parse(out) {
            Some(v) => o == Outcome::Success(Some(v)),
            None => o matches Outcome::ProtocolFailure { raw, .. } && raw@ == out,
        }
    }
}

/// Classifies a finished transaction from the process's exit code (`None`
/// where the platform reported none) and everything it wrote to standard
/// output.
pub fn classify(op: Operation, code: Option<i32>, stdout: Vec<u8>) -> (o: Outcome)
    ensures
        classified(op, code, stdout@, o),
{
    match code {
        Some(c) if c == 0 => {},
        Some(c) => return Outcome::ExitFailure(c),
        None => return Outcome::ExitFailure(NO_EXIT_CODE),
    }
    match op {
        Operation::Write => Outcome::Success(None),
        Operation::Read => match parse_json(stdout.as_slice()) {
            Ok(v) => Outcome::Success(Some(v)),
            Err(e) => Outcome::ProtocolFailure { cause: describe_json_error(&e), raw: stdout },
        },
    }
}

/// The text that a byte string reads as, where each ill-formed UTF-8
/// sequence reads as the replacement character.
pub uninterp spec fn lossy_utf8(b: Seq<u8>) -> Seq<char>;

/// Relies on `String::from_utf8_lossy`: the bytes read as UTF-8, each
/// ill-formed sequence replaced by U+FFFD; the text depends on the bytes
/// alone.
#[verifier::external_body]
fn read_lossy(b: &[u8]) -> (r: Vec<char>)
    ensures
        r@ == lossy_utf8(b@),
{
    String::from_utf8_lossy(b).chars().collect()
}

/// Whether a character is white space: the Unicode `White_Space` code
/// points, which `char::is_whitespace` and `str::trim` go by.
pub open spec fn is_white(c: char) -> bool {
    let u = c as u32;
    (0x9 <= u <= 0xd) || u == 0x20 || u == 0x85 || u == 0xa0 || u == 0x1680 || (0x2000 <= u
        <= 0x200a) || u == 0x2028 || u == 0x2029 || u == 0x202f || u == 0x205f || u == 0x3000
}

fn white(c: char) -> (r: bool)
    ensures
        r == is_white(c),
{
    let u = c as u32;
    (0x9 <= u && u <= 0xd) || u == 0x20 || u == 0x85 || u == 0xa0 || u == 0x1680 || (0x2000 <= u
        && u <= 0x200a) || u == 0x2028 || u == 0x2029 || u == 0x202f || u == 0x205f || u == 0x3000
}

/// Whether `t` is `text` without its leading and trailing white space
/// (empty where `text` is all white space).
pub open spec fn trimmed(text: Seq<char>, t: Seq<char>) -> bool {
    exists|s: int, e: int|
        #![trigger text.subrange(s, e)]
        0 <= s <= e <= text.len() && t == text.subrange(s, e) && (s < e ==> !is_white(text[s])
            && !is_white(text[e - 1])) && (forall|k: int| 0 <= k < s ==> is_white(text[k])) && (
        forall|k: int| e <= k < text.len() ==> is_white(text[k]))
}

/// The confirmation text of a write: `None` where its standard output is
/// empty, and otherwise that output read as UTF-8 (ill-formed sequences
/// replaced) without leading and trailing white space, which may leave
/// nothing. It is logged, never decoded.
pub fn confirmation(stdout: &[u8]) -> (r: Option<Vec<char>>)
    ensures
        r is None <==> stdout@.len() == 0,
        r matches Some(t) ==> trimmed(lossy_utf8(stdout@), t@),
{
    if stdout.len() == 0 {
        return None;
    }
    let text = read_lossy(stdout);
    let n = text.len();
    let mut s: usize = 0;
    while s < n && white(text[s])
        invariant
            n == text@.len(),
            s <= n,
            forall|k: int| 0 <= k < s ==> is_white(text@[k]),
        decreases n - s,
    {
        s = s + 1;
    }
    let mut e: usize = n;
    while e > s && white(text[e - 1])
        invariant
            n == text@.len(),
            s <= e <= n,
            s < n ==> !is_white(text@[s as int]),
            forall|k: int| e <= k < n ==> is_white(text@[k]),
        decreases e,
    {
        e = e - 1;
    }
    let mut t: Vec<char> = Vec::new();
    let mut i: usize = s;
    while i < e
        invariant
            s <= i <= e <= n,
            n == text@.len(),
            t@ == text@.subrange(s as int, i as int),
        decreases e - i,
    {
        t.push(text[i]);
        assert(t@ =~= text@.subrange(s as int, i as int + 1));
        i = i + 1;
    }
    assert(trimmed(text@, t@)) by {
        assert(t@ == text@.subrange(s as int, e as int));
    }
    Some(t)
}

/// A process that exits with a non-zero code, or with none, always ends in
/// an exit failure that carries its code, and never in success, whatever
/// it wrote to standard output.
pub proof fn failed_exit_is_never_success(op: Operation, code: Option<i32>, out: Seq<u8>, o: Outcome)
    requires
        code != Some(0i32),
        classified(op, code, out, o),
    ensures
        o == Outcome::ExitFailure(reported_code(code)),
        !(o is Success),
{
}

/// A read whose process exits with code zero but whose output is not one
/// JSON document always ends in a protocol failure that carries that output
/// unchanged.
pub proof fn malformed_output_is_protocol_failure(out: Seq<u8>, o: Outcome)
    requires
        json_parse(out) is None,
        classified(Operation::Read, Some(0i32), out, o),
    ensures
        o matches Outcome::ProtocolFailure { raw, .. } && raw@ == out,
{
}

} // verus!
