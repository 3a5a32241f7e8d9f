//! The provider: its identity, the dispatcher it was given, and the routing
//! of the host's calls.

use crate::binding::{
    bind_operation, configuration_fault, decode_configuration, is_bind, is_system,
    nesting_fault, system_actor,
};
use crate::depth::{is_shallow, shallow};
use crate::codec::{decode_request, layout_fault, request_at};
use crate::error::{ErrorModel, ProviderError};
use crate::shell::{invoke_operation, is_invoke, InvokeRequest, RequestModel};
use vstd::prelude::*;

verus! {

/// The identifier under which the host routes capability claims here.
pub const CAPABILITY_ID: &'static str = "YOLO:FTW";

/// The provider's name for people.
pub const PROVIDER_NAME: &'static str = "Shell Capability Provider";

/// The place of the host's dispatcher: empty until the host hands one over.
pub enum DispatcherSlot<D> {
    /// No dispatcher was given yet.
    Unset,
    /// The dispatcher that the host gave last.
    Bound(D),
}

/// A shell capability provider. `D` is the type of the host's dispatcher,
/// which the provider keeps and never calls.
pub struct ShellProvider<D> {
    dispatcher: DispatcherSlot<D>,
}

/// What is left to do for a call once it has been routed.
#[derive(Debug, PartialEq, Eq, Clone)]
pub enum CallStep {
    /// The call is done: these bytes go back to the host.
    Reply(Vec<u8>),
    /// The call asks for this command: it is to be launched, and the call
    /// ended on the outcome.
    Launch(InvokeRequest),
}

/// What a step is in contracts.
pub enum StepModel {
    Reply(Seq<u8>),
    Launch(RequestModel),
}

impl View for CallStep {
    type V = StepModel;

    open spec fn view(&self) -> StepModel {
        match self {
            CallStep::Reply(bytes) => StepModel::Reply(bytes@),
            CallStep::Launch(request) => StepModel::Launch(request@),
        }
    }
}

/// The result of routing, in contracts.
pub open spec fn routed(r: Result<CallStep, ProviderError>) -> Result<StepModel, ErrorModel> {
    match r {
        Ok(step) => Ok(step@),
        Err(error) => Err(error@),
    }
}

/// What a binding call ends in, given what the decoder said of its payload:
/// an empty reply where the payload decoded, else a decode error with the
/// decoder's text.
pub open spec fn bound(fault: Option<Seq<char>>) -> Result<StepModel, ErrorModel> {
    match fault {
        None => Ok(StepModel::Reply(Seq::empty())),
        Some(text) => Err(ErrorModel::Decode(text)),
    }
}

/// What an invoke call goes on with: the launch of the request that the
/// payload holds, or a decode error where it holds none.
pub open spec fn invoked(payload: Seq<u8>) -> Result<StepModel, ErrorModel> {
    match request_at(payload) {
        Some(request) => Ok(StepModel::Launch(request)),
        None => Err(ErrorModel::Decode(layout_fault())),
    }
}

/// What a binding call from the system actor ends in. A payload whose
/// value is nested too deeply is refused with a decode error before it is decoded;
/// any other ends as `bound` says of what the decoder said of it.
pub open spec fn handshake(payload: Seq<u8>, fault: Option<Seq<char>>) -> Result<
    StepModel,
    ErrorModel,
> {
    if shallow(payload) {
        bound(fault)
    } else {
        Err(ErrorModel::Decode(nesting_fault()))
    }
}

/// The dispatch policy, for a call with `payload` of which the decoder of
/// binding messages said `fault`. A binding call from the system actor ends
/// as `handshake` says; an invoke call from any actor goes on as `invoked`
/// says; every other call is refused with the operation that it named.
pub open spec fn dispatch(
    actor: Seq<char>,
    op: Seq<char>,
    payload: Seq<u8>,
    fault: Option<Seq<char>>,
) -> Result<StepModel, ErrorModel> {
    if op == bind_operation() && actor == system_actor() {
        handshake(payload, fault)
    } else if op == invoke_operation() {
        invoked(payload)
    } else {
        Err(ErrorModel::BadDispatch(op))
    }
}

impl<D> ShellProvider<D> {
    /// The dispatcher slot as it stands.
    pub closed spec fn slot(&self) -> DispatcherSlot<D> {
        self.dispatcher
    }

    /// Whether the host has handed over a dispatcher.
    pub open spec fn is_configured(&self) -> bool {
        self.slot() is Bound
    }

    /// A provider without a dispatcher.
    pub fn new() -> (provider: Self)
        ensures
            provider.slot() == DispatcherSlot::<D>::Unset,
            !provider.is_configured(),
    {
        ShellProvider { dispatcher: DispatcherSlot::Unset }
    }

    /// The identifier under which the host knows this capability. It is the
    /// same on every call.
    pub fn capability_id(&self) -> (id: &'static str)
        ensures
            id@ == CAPABILITY_ID@,
    {
        CAPABILITY_ID
    }

    /// The provider's name for people. It is the same on every call.
    pub fn name(&self) -> (name: &'static str)
        ensures
            name@ == PROVIDER_NAME@,
    {
        PROVIDER_NAME
    }

    /// Takes the host's dispatcher in place of whatever the slot held. Any
    /// dispatcher is accepted.
    pub fn configure_dispatch(&mut self, dispatcher: D) -> (r: Result<(), ProviderError>)
        ensures
            r is Ok,
            final(self).slot() == DispatcherSlot::Bound(dispatcher),
            final(self).is_configured(),
    {
        self.dispatcher = DispatcherSlot::Bound(dispatcher);
        Ok(())
    }

    /// The dispatcher slot.
    pub fn dispatcher(&self) -> (slot: &DispatcherSlot<D>)
        ensures
            *slot == self.slot(),
    {
        &self.dispatcher
    }

    /// Accepts a binding message. Its contents are not read and nothing is
    /// kept of it: the reply is empty.
    pub fn configure(&self, config: wascc_codec::core::CapabilityConfiguration) -> (r: Result<
        CallStep,
        ProviderError,
    >)
        ensures
            routed(r) == Ok::<StepModel, ErrorModel>(StepModel::Reply(Seq::empty())),
    {
        let _config = config;
        Ok(CallStep::Reply(Vec::new()))
    }

    /// Ends a binding call on what the decoder made of its payload: the
    /// message is accepted, a decoder's error is handed on as a decode error.
    pub fn bind(
        &self,
        decoded: Result<wascc_codec::core::CapabilityConfiguration, String>,
    ) -> (r: Result<CallStep, ProviderError>)
        ensures
            decoded is Ok ==> routed(r) == bound(None),
            decoded matches Err(text) ==> routed(r) == bound(Some(text@)),
    {
        match decoded {
            Ok(config) => self.configure(config),
            Err(text) => Err(ProviderError::Decode(text)),
        }
    }

    /// Routes one call of the host by its operation and its actor, as
    /// `dispatch` says. A binding call is ended here; an invoke call is
    /// decoded and handed back for its command to be launched. The provider
    /// is the same after the call as before it, whether or not a dispatcher
    /// was given.
    pub fn handle_call(&self, actor: &str, op: &str, msg: &[u8]) -> (r: Result<
        CallStep,
        ProviderError,
    >)
        ensures
            routed(r) == dispatch(actor@, op@, msg@, configuration_fault(msg@)),
    {
        if is_bind(op) && is_system(actor) {
            if is_shallow(msg) {
                let decoded = decode_configuration(msg);
                self.bind(decoded)
            } else {
                Err(ProviderError::Decode("payload is nested too deeply".to_owned()))
            }
        } else if is_invoke(op) {
            match decode_request(msg) {
                Ok(request) => Ok(CallStep::Launch(request)),
                Err(error) => Err(error),
            }
        } else {
            Err(ProviderError::BadDispatch(op.to_owned()))
        }
    }
}

impl<D> Default for ShellProvider<D> {
    /// A provider without a dispatcher.
    fn default() -> (provider: Self)
        ensures
            provider.slot() == DispatcherSlot::<D>::Unset,
    {
        ShellProvider::new()
    }
}

} // verus!
