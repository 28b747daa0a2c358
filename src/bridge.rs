//! Everything that is settled before the interpreter is started: which
//! interpreter, which entry script, and what it is handed.
use vstd::prelude::*;
use crate::json::{json_parse, json_text};
use crate::locator::{LocatorInputs, RuntimeLocation, resolution, resolve, script, script_path};
use crate::outcome::{Operation, Outcome, classified};
use crate::request::{Invocation, Request, texts};

verus! {

/// Why a transaction could not be prepared.
#[derive(Clone, Copy, Debug, PartialEq, Eq, Structural)]
pub enum BridgeError {
    /// The resource directory that holds the entry scripts is unknown.
    ScriptNotFound(Operation),
    /// No strategy found the interpreter.
    RuntimeNotFound,
}

/// A transaction ready to be started: the interpreter and its arguments
/// and standard input.
#[derive(Clone, Debug, PartialEq, Eq)]
pub struct Prepared {
    pub program: RuntimeLocation,
    pub invocation: Invocation,
}

/// Locates the entry script for the request's operation and the
/// interpreter, and encodes the request for them.
pub fn prepare(req: &Request, inputs: &LocatorInputs) -> (r: Result<Prepared, BridgeError>)
    ensures
        inputs.resource_dir is None ==> r == Err::<Prepared, BridgeError>(
            BridgeError::ScriptNotFound(req.op()),
        ),
        inputs.resource_dir is Some && resolution(*inputs) is None ==> r == Err::<
            Prepared,
            BridgeError,
        >(BridgeError::RuntimeNotFound),
        r matches Ok(p) ==> {
            &&& inputs.resource_dir is Some
            &&& resolution(*inputs) == Some((p.program.path@, p.program.strategy))
            &&& texts(p.invocation.args@) == req.args_for(
                script(inputs.resource_dir->Some_0@, req.op()),
            )
            &&& match p.invocation.stdin {
                Some(b) => req.stdin_for() == Some(b@),
                None => req.stdin_for() is None,
            }
        },
        (inputs.resource_dir is Some && resolution(*inputs) is Some) ==> r is Ok,
{
    let op = req.operation();
    let entry = match &inputs.resource_dir {
        Some(dir) => script_path(dir.as_str(), op),
        None => return Err(BridgeError::ScriptNotFound(op)),
    };
    let program = match resolve(inputs) {
        Ok(loc) => loc,
        Err(_) => return Err(BridgeError::RuntimeNotFound),
    };
    let invocation = req.encode(entry.as_str());
    Ok(Prepared { program, invocation })
}

/// A write's standard input, echoed back unchanged by the interpreter and
/// decoded as a read's output, decodes to exactly what the payload's JSON
/// text denotes: nothing on the way alters, drops or adds a byte.
pub proof fn echoed_payload_decodes(req: Request, o: Outcome)
    requires
        req.payload is Some,
        classified(Operation::Read, Some(0i32), req.stdin_for()->Some_0, o),
    ensures
        req.stdin_for() == Some(json_text(req.payload->Some_0)),
        json_parse(json_text(req.payload->Some_0)) matches Some(w) ==> o == Outcome::Success(
            Some(w),
        ),
        json_parse(json_text(req.payload->Some_0)) is None ==> (o matches Outcome::ProtocolFailure {
            raw,
            ..
        } && raw@ == json_text(req.payload->Some_0)),
{
}

} // verus!
