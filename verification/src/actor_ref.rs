//! Actor references. A reference is either local, a handle into this
//! island's scheduler, or remote, a pair of names bound to the peer island.
//! Senders use both in the same way.

use vstd::prelude::*;
use crate::dispatch::{dispatch, spec_dispatch_status, Envelope, OutboundCall};
use crate::messages::spec_to_wire;
use crate::status::STATUS_OK;
use crate::wire::copy_bytes;

verus! {

/// Where a reference leads.
pub enum Route {
    /// To the actor that the local scheduler knows under `handle`.
    Local { handle: int },
    /// To the actor `target` of the peer island, on behalf of `sender`.
    Remote { target: Seq<u8>, sender: Seq<u8> },
}

#[derive(Debug, PartialEq, Eq)]
enum Target {
    Local { handle: usize },
    Remote { target: Vec<u8>, sender: Vec<u8> },
}

/// A reference to an actor of either island. Only resolution makes one.
#[derive(Debug, PartialEq, Eq)]
pub struct ActorRef {
    to: Target,
}

impl View for ActorRef {
    type V = Route;

    closed spec fn view(&self) -> Route {
        match self.to {
            Target::Local { handle } => Route::Local { handle: handle as int },
            Target::Remote { target, sender } => Route::Remote {
                target: target@,
                sender: sender@,
            },
        }
    }
}

/// What the surrounding program has to do for one send.
#[derive(Debug, PartialEq, Eq)]
pub enum SendAction {
    /// Hand the message to the local scheduler, for the actor under `handle`.
    Enqueue { handle: usize, envelope: Envelope },
    /// Call the peer island's delivery entry point.
    Call(OutboundCall),
    /// Nothing: the send failed with this status.
    Fail(i32),
}

impl ActorRef {
    pub(crate) fn local(handle: usize) -> (out: ActorRef)
        ensures
            out@ == (Route::Local { handle: handle as int }),
    {
        ActorRef { to: Target::Local { handle } }
    }

    pub(crate) fn remote(target: &[u8], sender: &[u8]) -> (out: ActorRef)
        ensures
            out@ == (Route::Remote { target: target@, sender: sender@ }),
    {
        ActorRef { to: Target::Remote { target: copy_bytes(target), sender: copy_bytes(sender) } }
    }

    /// Whether the reference leads to an actor of this island.
    pub fn is_local(&self) -> (local: bool)
        ensures
            local == (self@ is Local),
    {
        match &self.to {
            Target::Local { .. } => true,
            Target::Remote { .. } => false,
        }
    }

    /// The scheduler's handle of the actor, where the reference is local.
    pub fn local_handle(&self) -> (out: Option<usize>)
        ensures
            out is Some <==> self@ is Local,
            self@ matches Route::Local { handle } ==> out == Some(handle as usize),
    {
        match &self.to {
            Target::Local { handle } => Some(*handle),
            Target::Remote { .. } => None,
        }
    }

    /// A second reference to the same actor.
    pub fn duplicate(&self) -> (out: ActorRef)
        ensures
            out@ == self@,
    {
        match &self.to {
            Target::Local { handle } => ActorRef::local(*handle),
            Target::Remote { target, sender } => ActorRef::remote(
                target.as_slice(),
                sender.as_slice(),
            ),
        }
    }

    /// Sends `envelope` to the actor. A local reference hands it to the
    /// scheduler as it is; a remote one goes through dispatch with the names
    /// that the reference was bound to.
    pub fn send(&self, envelope: Envelope) -> (out: SendAction)
        ensures
            match self@ {
                Route::Local { handle } => out matches SendAction::Enqueue {
                    handle: h,
                    envelope: e,
                } && h == handle && e == envelope,
                Route::Remote { target, sender } => {
                    if spec_dispatch_status(envelope.type_id, envelope.body@) == STATUS_OK {
                        &&& out matches SendAction::Call(call)
                        &&& call.target@ == target
                        &&& call.sender@ == sender
                        &&& call.type_id == envelope.type_id
                        &&& call.wire@ == spec_to_wire(envelope.body@)
                    } else {
                        out == SendAction::Fail(
                            spec_dispatch_status(envelope.type_id, envelope.body@),
                        )
                    }
                },
            },
    {
        match &self.to {
            Target::Local { handle } => SendAction::Enqueue { handle: *handle, envelope },
            Target::Remote { target, sender } => {
                match dispatch(target.as_slice(), sender.as_slice(), &envelope) {
                    Ok(call) => SendAction::Call(call),
                    Err(status) => SendAction::Fail(status),
                }
            },
        }
    }
}

impl SendAction {
    /// The status that the sender sees once the action was carried out:
    /// success for a local enqueue, what the peer reported for a call, the
    /// failure itself where nothing was sent.
    pub fn status(&self, peer_status: i32) -> (out: i32)
        ensures
            out == match *self {
                SendAction::Enqueue { .. } => STATUS_OK,
                SendAction::Call(_) => peer_status,
                SendAction::Fail(status) => status,
            },
    {
        match self {
            SendAction::Enqueue { .. } => STATUS_OK,
            SendAction::Call(_) => peer_status,
            SendAction::Fail(status) => *status,
        }
    }
}

} // verus!
