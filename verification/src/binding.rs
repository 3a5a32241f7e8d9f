//! The configuration handshake: the operation that carries it, the actor
//! that may send it, and the decoding of its payload.

use crate::codec::texts_bytes;
use crate::depth::shallow;
use crate::text::same_text;
use crate::wire::{header, map_family, text_bytes};
use vstd::prelude::*;

verus! {

/// The one actor that may bind.
pub const SYSTEM_ACTOR: &'static str = "system";

/// The name of the actor that may bind, as a sequence of characters.
pub open spec fn system_actor() -> Seq<char> {
    "system"@
}

/// The tag of the binding operation, as a sequence of characters.
pub open spec fn bind_operation() -> Seq<char> {
    "BindActor"@
}

/// The host's binding message. Its contents are never read here.
#[verifier::external_type_specification]
#[verifier::external_body]
pub struct ExCapabilityConfiguration(wascc_codec::core::CapabilityConfiguration);

/// What `wascc_codec::deserialize` says of a payload that is read as a
/// binding message, where it is called: `None` where the payload decodes,
/// else the text of the error that it returns.
pub uninterp spec fn configuration_fault(payload: Seq<u8>) -> Option<Seq<char>>;

/// The constant `wascc_codec::core::OP_BIND_ACTOR`, which that crate sets to
/// the text "BindActor".
#[verifier::external_body]
pub(crate) fn bind_operation_tag() -> (tag: &'static str)
    ensures
        tag@ == bind_operation(),
{
    wascc_codec::core::OP_BIND_ACTOR
}

/// The text of the error for a binding payload whose value is nested deeper
/// than the decoder is trusted with.
pub open spec fn nesting_fault() -> Seq<char> {
    "payload is nested too deeply"@
}

/// A binding message in the layout of two levels: a map of the module under
/// its name and, under theirs, the settings, which are a map from text to
/// text. `settings` holds the keys and the values in turn.
pub open spec fn configuration_bytes(module: Seq<char>, settings: Seq<Seq<char>>) -> Seq<u8> {
    header(map_family(), 2) + text_bytes("module"@) + text_bytes(module) + text_bytes("values"@)
        + header(map_family(), settings.len() / 2) + texts_bytes(settings)
}

/// Calls `wascc_codec::deserialize` for a `CapabilityConfiguration`. It
/// returns the message where the payload decodes and the error's text where
/// it does not; which of the two depends on the payload alone. Nothing is
/// claimed of the message itself. The decoder calls itself once for each
/// array or map inside another, without a limit of its own, and an unknown
/// field may hold any value: a payload whose value is nested deeper than
/// `MAX_NESTING` is left out. Besides that the decoder takes memory as the
/// payload's announced lengths ask for it.
#[verifier::external_body]
pub(crate) fn decode_configuration(payload: &[u8]) -> (decoded: Result<
    wascc_codec::core::CapabilityConfiguration,
    String,
>)
    requires
        shallow(payload@),
    ensures
        decoded is Ok <==> configuration_fault(payload@) is None,
        decoded matches Err(text) ==> configuration_fault(payload@) == Some(text@),
{
    match wascc_codec::deserialize::<wascc_codec::core::CapabilityConfiguration>(payload) {
        Ok(configuration) => Ok(configuration),
        Err(error) => Err(error.to_string()),
    }
}

/// Whether `op` is the tag of the binding operation.
pub fn is_bind(op: &str) -> (r: bool)
    ensures
        r == (op@ == bind_operation()),
{
    same_text(op, bind_operation_tag())
}

/// Whether `actor` is the actor that may bind.
pub fn is_system(actor: &str) -> (r: bool)
    ensures
        r == (actor@ == system_actor()),
{
    same_text(actor, SYSTEM_ACTOR)
}

} // verus!
