//! An operation request, and what the interpreter is handed for it: the
//! argument vector and the bytes for its standard input.
use vstd::prelude::*;
use vstd::string::*;
use crate::json::{json_text, write_json};
use crate::outcome::Operation;

verus! {

/// One request to the interpreter. A read carries no payload; a write
/// carries the value to be written.
#[derive(Clone, Debug)]
pub struct Request {
    /// The asset file that the interpreter reads or writes.
    pub file_path: String,
    /// The value to write; `None` for a read.
    pub payload: Option<serde_json::Value>,
    /// Auxiliary parameters (a language tag, say), handed on in this order.
    pub params: Vec<(String, String)>,
    /// Whether the interpreter is asked for debug diagnostics.
    pub debug: bool,
}

/// What the interpreter process is started with.
#[derive(Clone, Debug, PartialEq, Eq)]
pub struct Invocation {
    /// The arguments after the interpreter itself: entry script first.
    pub args: Vec<String>,
    /// The bytes for standard input, written once and then closed; `None`
    /// where standard input is not used.
    pub stdin: Option<Vec<u8>>,
}

/// `--name`: how a parameter's name is written on the command line.
pub open spec fn flag(name: Seq<char>) -> Seq<char> {
    seq!['-', '-'] + name
}

/// The flag that asks for debug diagnostics.
pub open spec fn debug_flag() -> Seq<char> {
    flag(seq!['d', 'e', 'b', 'u', 'g'])
}

/// The parameters as flag / value pairs, in their order.
pub open spec fn param_args(ps: Seq<(String, String)>) -> Seq<Seq<char>>
    decreases ps.len(),
{
    if ps.len() == 0 {
        seq![]
    } else {
        param_args(ps.drop_last()) + seq![flag(ps.last().0@), ps.last().1@]
    }
}

/// The views of a vector of strings.
pub open spec fn texts(v: Seq<String>) -> Seq<Seq<char>> {
    v.map_values(|s: String| s@)
}

impl Request {
    /// The operation that this request asks for.
    pub open spec fn op(&self) -> Operation {
        if self.payload is Some { Operation::Write } else { Operation::Read }
    }

    /// `<entry> <file_path> [--<name> <value> ...] [--debug]`.
    pub open spec fn args_for(&self, entry: Seq<char>) -> Seq<Seq<char>> {
        seq![entry, self.file_path@] + param_args(self.params@) + if self.debug {
            seq![debug_flag()]
        } else {
            seq![]
        }
    }

    /// The standard input of a request: the payload's JSON text for a write,
    /// nothing for a read.
    pub open spec fn stdin_for(&self) -> Option<Seq<u8>> {
        match self.payload {
            Some(v) => Some(json_text(v)),
            None => None,
        }
    }

    /// A request to read `file_path`.
    pub fn read(file_path: String, params: Vec<(String, String)>, debug: bool) -> (r: Request)
        ensures
            r.file_path == file_path,
            r.payload is None,
            r.params == params,
            r.debug == debug,
            r.op() == Operation::Read,
    {
        Request { file_path, payload: None, params, debug }
    }

    /// A request to write `payload` to `file_path`.
    pub fn write(
        file_path: String,
        payload: serde_json::Value,
        params: Vec<(String, String)>,
        debug: bool,
    ) -> (r: Request)
        ensures
            r.file_path == file_path,
            r.payload == Some(payload),
            r.params == params,
            r.debug == debug,
            r.op() == Operation::Write,
    {
        Request { file_path, payload: Some(payload), params, debug }
    }

    /// The operation that this request asks for.
    pub fn operation(&self) -> (r: Operation)
        ensures
            r == self.op(),
    {
        match self.payload {
            Some(_) => Operation::Write,
            None => Operation::Read,
        }
    }

    /// The argument vector and standard input for this request, with
    /// `entry` (the interpreter's script) as the first argument.
    pub fn encode(&self, entry: &str) -> (inv: Invocation)
        ensures
            texts(inv.args@) == self.args_for(entry@),
            match inv.stdin {
                Some(b) => self.stdin_for() == Some(b@),
                None => self.stdin_for() is None,
            },
    {
        let mut args: Vec<String> = Vec::new();
        args.push(String::from_str(entry));
        args.push(self.file_path.clone());
        let n = self.params.len();
        let mut i: usize = 0;
        while i < n
            invariant
                n == self.params@.len(),
                i <= n,
                texts(args@) == seq![entry@, self.file_path@] + param_args(self.params@.take(i as int)),
            decreases n - i,
        {
            let ghost before = args@;
            let pair = &self.params[i];
            let mut name = String::from_str("--");
            proof {
                reveal_strlit("--");
                assert(name@ =~= seq!['-', '-']);
            }
            name.append(pair.0.as_str());
            assert(name@ =~= flag(pair.0@));
            let value = pair.1.clone();
            args.push(name);
            args.push(value);
            proof {
                let ps = self.params@.take(i as int + 1);
                assert(ps.drop_last() =~= self.params@.take(i as int));
                assert(ps.last() == *pair);
                assert(texts(args@) =~= texts(before) + seq![flag(ps.last().0@), ps.last().1@]);
            }
            i = i + 1;
        }
        assert(self.params@.take(n as int) =~= self.params@);
        if self.debug {
            let ghost before = args@;
            let d = String::from_str("--debug");
            proof {
                reveal_strlit("--debug");
                assert(d@ =~= debug_flag());
            }
            args.push(d);
            assert(texts(args@) =~= texts(before) + seq![debug_flag()]);
        }
        assert(texts(args@) =~= self.args_for(entry@));
        let stdin = match &self.payload {
            Some(v) => Some(write_json(v)),
            None => None,
        };
        Invocation { args, stdin }
    }
}

} // verus!
