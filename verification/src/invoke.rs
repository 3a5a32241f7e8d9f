//! The invoke operation around the launch of the command: what is run, and
//! what the host gets back for each way the launch can end.

use crate::codec::{encode_response, length_fault, response_bytes};
use crate::error::{ErrorModel, ProviderError};
use crate::shell::{InvokeResponse, ResponseModel};
use crate::text::{decode_lossy, lossy_text};
use crate::wire::fits;
use vstd::prelude::*;
use vstd::utf8::{decode_utf8, valid_utf8};

verus! {

/// The longest that a command may run, in seconds. A command that runs
/// longer is ended, and the call with it.
pub const WAIT_LIMIT_SECONDS: u64 = 30;

/// How the launch of a command ended.
#[derive(Debug, PartialEq, Eq, Clone)]
pub enum LaunchOutcome {
    /// The command ran to its end and wrote these bytes to standard output.
    Exited(Vec<u8>),
    /// The command could not be started. The text is the reason.
    NotStarted(String),
    /// The command was ended because it ran longer than it was allowed to.
    TimedOut,
}

/// What an outcome is in contracts.
pub enum OutcomeModel {
    Exited(Seq<u8>),
    NotStarted(Seq<char>),
    TimedOut,
}

impl View for LaunchOutcome {
    type V = OutcomeModel;

    open spec fn view(&self) -> OutcomeModel {
        match self {
            LaunchOutcome::Exited(stdout) => OutcomeModel::Exited(stdout@),
            LaunchOutcome::NotStarted(reason) => OutcomeModel::NotStarted(reason@),
            LaunchOutcome::TimedOut => OutcomeModel::TimedOut,
        }
    }
}

/// What the host gets for an outcome of which `captured` is the output as
/// text: the response with that output on the wire, or an encode error where
/// the output is too long for the format; a launch error with the reason;
/// or a timeout.
pub open spec fn concluded(outcome: OutcomeModel, captured: Seq<char>) -> Result<
    Seq<u8>,
    ErrorModel,
> {
    match outcome {
        OutcomeModel::Exited(_) => if fits(captured) {
            Ok(response_bytes(ResponseModel { output: captured }))
        } else {
            Err(ErrorModel::Encode(length_fault()))
        },
        OutcomeModel::NotStarted(reason) => Err(ErrorModel::ProcessLaunch(reason)),
        OutcomeModel::TimedOut => Err(ErrorModel::Timeout),
    }
}

/// The bytes that a command wrote, or none where it did not run to its end.
pub open spec fn stdout_of(outcome: OutcomeModel) -> Seq<u8> {
    match outcome {
        OutcomeModel::Exited(stdout) => stdout,
        _ => Seq::empty(),
    }
}

/// The result of ending a call, in contracts.
pub open spec fn reply_of(r: Result<Vec<u8>, ProviderError>) -> Result<Seq<u8>, ErrorModel> {
    match r {
        Ok(bytes) => Ok(bytes@),
        Err(error) => Err(error@),
    }
}

/// Ends an invoke call on the outcome of the launch and on the output as
/// text: the output goes back in a response, a failed launch and a timeout
/// as errors.
pub fn respond(outcome: LaunchOutcome, captured: String) -> (r: Result<Vec<u8>, ProviderError>)
    ensures
        reply_of(r) == concluded(outcome@, captured@),
{
    match outcome {
        LaunchOutcome::Exited(_) => encode_response(&InvokeResponse::new(captured)),
        LaunchOutcome::NotStarted(reason) => Err(ProviderError::ProcessLaunch(reason)),
        LaunchOutcome::TimedOut => Err(ProviderError::Timeout),
    }
}

/// Ends an invoke call on the outcome of the launch. Output is read as
/// text, lossily: bytes that are no UTF-8 are replaced, never refused. A
/// failed launch and a timeout are errors for the host and nothing more.
pub fn conclude(outcome: LaunchOutcome) -> (r: Result<Vec<u8>, ProviderError>)
    ensures
        reply_of(r) == concluded(outcome@, lossy_text(stdout_of(outcome@))),
        valid_utf8(stdout_of(outcome@)) ==> reply_of(r) == concluded(
            outcome@,
            decode_utf8(stdout_of(outcome@)),
        ),
{
    let captured = match &outcome {
        LaunchOutcome::Exited(stdout) => decode_lossy(stdout.as_slice()),
        _ => String::new(),
    };
    respond(outcome, captured)
}

} // verus!
