//! The messages of the shell capability and the operation that carries them.

use crate::text::same_text;
use vstd::prelude::*;

verus! {

/// The operation tag that selects a shell invocation.
pub const OP_INVOKE: &'static str = "Invoke";

/// The operation tag of a shell invocation, as a sequence of characters.
pub open spec fn invoke_operation() -> Seq<char> {
    "Invoke"@
}

/// The texts that a vector of strings holds, in its order.
pub open spec fn texts_of(items: Seq<String>) -> Seq<Seq<char>> {
    items.map_values(|item: String| item@)
}

/// A command to run on the host: the executable and its argument vector.
/// Nothing is demanded of either field.
#[derive(Debug, PartialEq, Eq, Clone)]
pub struct InvokeRequest {
    pub command: String,
    pub args: Vec<String>,
}

/// What a request is in contracts.
pub struct RequestModel {
    pub command: Seq<char>,
    pub args: Seq<Seq<char>>,
}

impl View for InvokeRequest {
    type V = RequestModel;

    open spec fn view(&self) -> RequestModel {
        RequestModel { command: self.command@, args: texts_of(self.args@) }
    }
}

/// The captured output of a command.
#[derive(Debug, PartialEq, Eq, Clone)]
pub struct InvokeResponse {
    pub output: String,
}

/// What a response is in contracts.
pub struct ResponseModel {
    pub output: Seq<char>,
}

impl View for InvokeResponse {
    type V = ResponseModel;

    open spec fn view(&self) -> ResponseModel {
        ResponseModel { output: self.output@ }
    }
}

impl InvokeRequest {
    /// A request for `command` with the arguments `args`, in their order.
    pub fn new(command: String, args: Vec<String>) -> (request: InvokeRequest)
        ensures
            request.command == command,
            request.args == args,
            request@.command == command@,
            request@.args == texts_of(args@),
    {
        InvokeRequest { command, args }
    }
}

impl InvokeResponse {
    /// A response that carries `output`.
    pub fn new(output: String) -> (response: InvokeResponse)
        ensures
            response.output == output,
            response@.output == output@,
    {
        InvokeResponse { output }
    }
}

/// Whether `op` is the tag of a shell invocation.
pub fn is_invoke(op: &str) -> (r: bool)
    ensures
        r == (op@ == invoke_operation()),
{
    same_text(op, OP_INVOKE)
}

} // verus!
