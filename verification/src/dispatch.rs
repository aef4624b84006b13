//! Outbound dispatch: from a message handle and its declared type identifier
//! to the one call that has to cross the boundary, or to the status that says
//! why there is none.

use vstd::prelude::*;
use crate::messages::{known_id, spec_known_id, spec_message_id, spec_to_wire, Message, MessageView};
use crate::status::{STATUS_OK, STATUS_TYPE_MISMATCH, STATUS_UNKNOWN_MESSAGE_TYPE};
use crate::wire::copy_bytes;

verus! {

/// A message handle as a sender passes it on: the type identifier that the
/// handle declares, and the message behind it.
#[derive(Debug, PartialEq, Eq)]
pub struct Envelope {
    pub type_id: i32,
    pub body: Message,
}

/// The arguments of one call of the peer island's delivery entry point.
#[derive(Debug, PartialEq, Eq)]
pub struct OutboundCall {
    pub target: Vec<u8>,
    pub sender: Vec<u8>,
    pub type_id: i32,
    pub wire: Vec<u8>,
}

/// The status of a dispatch before anything crosses the boundary: an
/// identifier outside the catalog is unknown; a known identifier over a
/// message of another type is a mismatch.
pub open spec fn spec_dispatch_status(type_id: i32, body: MessageView) -> i32 {
    if !spec_known_id(type_id) {
        STATUS_UNKNOWN_MESSAGE_TYPE
    } else if spec_message_id(body) != type_id {
        STATUS_TYPE_MISMATCH
    } else {
        STATUS_OK
    }
}

impl Envelope {
    /// The handle of `body` under the identifier of its own type.
    pub fn new(body: Message) -> (out: Envelope)
        ensures
            out.body == body,
            out.type_id == spec_message_id(body@),
            spec_dispatch_status(out.type_id, out.body@) == STATUS_OK,
    {
        let type_id: i32 = body.message_id();
        Envelope { type_id, body }
    }
}

/// Prepares the delivery of `envelope` to `target` on the peer island. The
/// call is owed exactly where the declared identifier is in the catalog and
/// names the type of the message; it then carries the names, the identifier
/// and the wire record of the message. Otherwise the status says which of
/// the two failed, the unknown identifier first.
pub fn dispatch(target: &[u8], sender: &[u8], envelope: &Envelope) -> (out: Result<
    OutboundCall,
    i32,
>)
    ensures
        out is Ok <==> spec_dispatch_status(envelope.type_id, envelope.body@) == STATUS_OK,
        match out {
            Ok(call) => {
                &&& call.target@ == target@
                &&& call.sender@ == sender@
                &&& call.type_id == envelope.type_id
                &&& call.wire@ == spec_to_wire(envelope.body@)
            },
            Err(status) => status == spec_dispatch_status(envelope.type_id, envelope.body@),
        },
{
    if !known_id(envelope.type_id) {
        return Err(STATUS_UNKNOWN_MESSAGE_TYPE);
    }
    if envelope.body.message_id() != envelope.type_id {
        return Err(STATUS_TYPE_MISMATCH);
    }
    Ok(
        OutboundCall {
            target: copy_bytes(target),
            sender: copy_bytes(sender),
            type_id: envelope.type_id,
            wire: envelope.body.to_wire(),
        },
    )
}

} // verus!
