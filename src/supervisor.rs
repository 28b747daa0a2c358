//! The order of one transaction's steps, as a machine from the event that
//! the last step produced to the next step to perform.
//!
//! The diagnostic stream is drained from before standard input is written
//! until the process closes it, so that a child blocked on a full stderr
//! pipe can never hold up the write: spawn with all three streams piped,
//! start draining stderr, write and close standard input (a read closes it
//! unwritten), await the exit together with all
//! of standard output, decode. The drain is not awaited before the outcome
//! is handed back, so its last lines may reach the log after it.
use vstd::prelude::*;
use crate::outcome::{Operation, Outcome, classified, classify};

verus! {

/// Where a transaction stands.
#[derive(Clone, Copy, Debug, PartialEq, Eq, Structural)]
pub enum Phase {
    /// The process is being started.
    Spawning,
    /// The process runs; the stderr drain is being started. A stderr pipe
    /// that cannot be had fails the transaction here.
    Spawned,
    /// Standard input is being written (for a write) and closed.
    Writing,
    /// Standard input is closed; exit and output are awaited
    /// while stderr drains.
    Draining,
    /// The outcome has been decoded.
    Decoded,
    /// The process could not be started.
    SpawnFailed,
    /// A pipe failed.
    IoFailed,
}

/// What the last step produced.
#[derive(Clone, Debug, PartialEq)]
pub enum Event {
    /// The process started, with its pipes.
    Spawned,
    /// The process could not be started.
    SpawnFailed(String),
    /// The requested step completed.
    Done,
    /// Writing to or reading from a pipe failed.
    IoFailed(String),
    /// The process exited with `code` (none where the platform gave none),
    /// after writing `stdout` to standard output.
    Exited { code: Option<i32>, stdout: Vec<u8> },
}

/// The next step to perform.
#[derive(Clone, Debug, PartialEq)]
pub enum Action {
    /// Start the process with standard input, output and error piped.
    Spawn,
    /// Start forwarding stderr, line by line, to the log, concurrently and
    /// until the stream ends; then report `Done`.
    DrainStderr,
    /// Write these bytes to standard input, close it, and report `Done`.
    WriteStdin(Vec<u8>),
    /// Close standard input unwritten, and report `Done`.
    CloseStdin,
    /// Await the exit and all of standard output, and report `Exited`.
    AwaitExit,
    /// The transaction is over with this outcome.
    Finish(Outcome),
    /// Nothing to do: the event does not belong to this phase.
    Ignore,
}

/// The phase after `ev` in phase `p`.
pub open spec fn next_phase(p: Phase, ev: Event) -> Phase {
    match (p, ev) {
        (Phase::Spawning, Event::Spawned) => Phase::Spawned,
        (Phase::Spawning, Event::SpawnFailed(_)) => Phase::SpawnFailed,
        (Phase::Spawned, Event::Done) => Phase::Writing,
        (Phase::Spawned, Event::IoFailed(_)) => Phase::IoFailed,
        (Phase::Writing, Event::Done) => Phase::Draining,
        (Phase::Writing, Event::IoFailed(_)) => Phase::IoFailed,
        (Phase::Draining, Event::Exited { .. }) => Phase::Decoded,
        (Phase::Draining, Event::IoFailed(_)) => Phase::IoFailed,
        _ => p,
    }
}

/// Whether `a` is the step that follows `ev` in phase `p`, for an `op`
/// transaction whose standard input is `input`.
pub open spec fn next_action(p: Phase, op: Operation, input: Option<Seq<u8>>, ev: Event, a: Action) -> bool {
    match (p, ev) {
        (Phase::Spawning, Event::Spawned) => a == Action::DrainStderr,
        (Phase::Spawning, Event::SpawnFailed(c)) => a == Action::Finish(Outcome::SpawnFailure(c)),
        (Phase::Spawned, Event::Done) => match input {
            Some(b) => a matches Action::WriteStdin(w) && w@ == b,
            None => a == Action::CloseStdin,
        },
        (Phase::Spawned, Event::IoFailed(c)) => a == Action::Finish(Outcome::IoFailure(c)),
        (Phase::Writing, Event::Done) => a == Action::AwaitExit,
        (Phase::Writing, Event::IoFailed(c)) => a == Action::Finish(Outcome::IoFailure(c)),
        (Phase::Draining, Event::Exited { code, stdout }) => a matches Action::Finish(o)
            && classified(op, code, stdout@, o),
        (Phase::Draining, Event::IoFailed(c)) => a == Action::Finish(Outcome::IoFailure(c)),
        _ => a == Action::Ignore,
    }
}

/// Standard input is written only in the phase that follows the start of
/// the stderr drain, and the one way into that phase asks for the drain:
/// a payload never goes out before its diagnostics are being read.
pub proof fn drain_starts_before_write(
    p: Phase,
    op: Operation,
    input: Option<Seq<u8>>,
    ev: Event,
    a: Action,
)
    requires
        next_action(p, op, input, ev, a),
    ensures
        a is WriteStdin ==> p == Phase::Spawned && ev == Event::Done,
        (p != Phase::Spawned && next_phase(p, ev) == Phase::Spawned) ==> (p
            == Phase::Spawning && ev == Event::Spawned && a == Action::DrainStderr),
{
}

/// One transaction in progress.
pub struct Supervisor {
    op: Operation,
    input: Option<Vec<u8>>,
    writes: bool,
    phase: Phase,
}

impl Supervisor {
    pub closed spec fn op(&self) -> Operation {
        self.op
    }

    pub closed spec fn phase(&self) -> Phase {
        self.phase
    }

    /// Whether standard input is written in this transaction.
    pub closed spec fn writes(&self) -> bool {
        self.writes
    }

    /// The bytes for standard input, until they are handed out.
    pub closed spec fn input(&self) -> Option<Seq<u8>> {
        match self.input {
            Some(b) => Some(b@),
            None => None,
        }
    }

    /// The bytes are held exactly until the write step hands them out.
    pub closed spec fn wf(&self) -> bool {
        &&& (self.input is Some ==> self.writes)
        &&& (self.writes && (self.phase == Phase::Spawning || self.phase == Phase::Spawned)
            ==> self.input is Some)
    }

    /// A transaction of `op` that writes `stdin` to the process, if any.
    pub fn new(op: Operation, stdin: Option<Vec<u8>>) -> (s: Supervisor)
        ensures
            s.wf(),
            s.op() == op,
            s.phase() == Phase::Spawning,
            s.writes() == stdin is Some,
            s.input() == match stdin {
                Some(b) => Some(b@),
                None => None::<Seq<u8>>,
            },
    {
        let writes = stdin.is_some();
        Supervisor { op, input: stdin, writes, phase: Phase::Spawning }
    }

    /// The step that opens the transaction.
    pub fn spawn_action(&self) -> (a: Action)
        ensures
            a == Action::Spawn,
    {
        Action::Spawn
    }

    /// The phase that the transaction is in.
    pub fn phase_now(&self) -> (p: Phase)
        ensures
            p == self.phase(),
    {
        self.phase
    }

    /// Whether the transaction is over.
    pub fn is_finished(&self) -> (r: bool)
        ensures
            r == (self.phase() == Phase::Decoded || self.phase() == Phase::SpawnFailed
                || self.phase() == Phase::IoFailed),
    {
        match self.phase {
            Phase::Decoded | Phase::SpawnFailed | Phase::IoFailed => true,
            _ => false,
        }
    }

    /// Takes the event that the last step produced and gives the next step.
    pub fn step(&mut self, ev: Event) -> (a: Action)
        requires
            old(self).wf(),
        ensures
            final(self).wf(),
            final(self).op() == old(self).op(),
            final(self).writes() == old(self).writes(),
            final(self).phase() == next_phase(old(self).phase(), ev),
            final(self).input() == if old(self).phase() == Phase::Spawned && ev is Done {
                None
            } else {
                old(self).input()
            },
            next_action(old(self).phase(), old(self).op(), old(self).input(), ev, a),
    {
        match (self.phase, ev) {
            (Phase::Spawning, Event::Spawned) => {
                self.phase = Phase::Spawned;
                Action::DrainStderr
            },
            (Phase::Spawning, Event::SpawnFailed(c)) => {
                self.phase = Phase::SpawnFailed;
                Action::Finish(Outcome::SpawnFailure(c))
            },
            (Phase::Spawned, Event::Done) => {
                let mut taken: Option<Vec<u8>> = None;
                std::mem::swap(&mut taken, &mut self.input);
                match taken {
                    Some(b) => {
                        self.phase = Phase::Writing;
                        Action::WriteStdin(b)
                    },
                    None => {
                        self.phase = Phase::Writing;
                        Action::CloseStdin
                    },
                }
            },
            (Phase::Spawned, Event::IoFailed(c)) => {
                self.phase = Phase::IoFailed;
                Action::Finish(Outcome::IoFailure(c))
            },
            (Phase::Writing, Event::Done) => {
                self.phase = Phase::Draining;
                Action::AwaitExit
            },
            (Phase::Writing, Event::IoFailed(c)) => {
                self.phase = Phase::IoFailed;
                Action::Finish(Outcome::IoFailure(c))
            },
            (Phase::Draining, Event::Exited { code, stdout }) => {
                self.phase = Phase::Decoded;
                Action::Finish(classify(self.op, code, stdout))
            },
            (Phase::Draining, Event::IoFailed(c)) => {
                self.phase = Phase::IoFailed;
                Action::Finish(Outcome::IoFailure(c))
            },
            _ => Action::Ignore,
        }
    }
}

} // verus!
