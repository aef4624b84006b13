//! The island's manager slot and the operations that the peer island calls
//! on it: creation, registration, start, shutdown, name resolution and
//! inbound delivery.
//!
//! The slot is empty until the manager is created and again once it is shut
//! down. Every operation on an empty slot leaves it empty and reports a
//! failure value; none of them fails in any other way.

use vstd::prelude::*;
use crate::actor_ref::{ActorRef, Route};
use crate::messages::{known_id, spec_from_wire, spec_known_id, Message};
use crate::registry::{distinct_names, lemma_lookup, lemma_lookup_after_push, spec_lookup, Registry};
use crate::wire::copy_bytes;
use crate::status::{
    STATUS_MANAGER_NOT_CREATED, STATUS_OK, STATUS_TARGET_NOT_FOUND, STATUS_TYPE_MISMATCH,
    STATUS_UNKNOWN_MESSAGE_TYPE,
};

verus! {

/// Where the manager slot stands in its life.
#[derive(Clone, Copy, Debug, PartialEq, Eq, Structural)]
pub enum Phase {
    /// No manager was created yet.
    Uninitialized,
    /// The manager exists and takes registrations.
    Registering,
    /// The actors were started; the registry is fixed.
    Running,
    /// The manager was shut down and the slot is empty again.
    ShutDown,
}

/// The bridge-owned state of one island.
pub struct Bridge {
    phase: Phase,
    registry: Registry,
    lookup_installed: bool,
}

/// What a resolution on this island alone arrives at.
#[derive(Debug, PartialEq, Eq)]
pub enum Resolution {
    /// The name is registered here.
    Found(ActorRef),
    /// The name is not registered here; the peer island has to be asked.
    AskPeer,
    /// The name is not registered here and there is nobody to ask.
    NotFound,
}

/// What the surrounding program has to do for one inbound delivery.
#[derive(Debug, PartialEq, Eq)]
pub enum Delivery {
    /// Hand `message` to the scheduler, for the actor under `handle`.
    Enqueue { handle: usize, sender: Vec<u8>, message: Message },
    /// Nothing: the delivery was refused with this status.
    Rejected { status: i32 },
}

/// The route that resolving `name` on behalf of `sender` yields: the local
/// actor where the name is registered; else the peer's actor, where a peer
/// lookup is installed and the peer knows the name; else none.
pub open spec fn spec_resolve(
    live: bool,
    names: Seq<Seq<u8>>,
    lookup_installed: bool,
    peer_exists: bool,
    name: Seq<u8>,
    sender: Seq<u8>,
) -> Option<Route> {
    if !live {
        None
    } else if names.contains(name) {
        Some(Route::Local { handle: spec_lookup(names, name).unwrap() })
    } else if lookup_installed && peer_exists {
        Some(Route::Remote { target: name, sender })
    } else {
        None
    }
}

/// The status of an inbound delivery: in this order, the manager must exist,
/// the target must be registered, the identifier must be in the catalog and
/// the record must have the layout that the identifier names.
pub open spec fn spec_deliver_status(
    live: bool,
    names: Seq<Seq<u8>>,
    target: Seq<u8>,
    type_id: i32,
    wire: Seq<u8>,
) -> i32 {
    if !live {
        STATUS_MANAGER_NOT_CREATED
    } else if !names.contains(target) {
        STATUS_TARGET_NOT_FOUND
    } else if !spec_known_id(type_id) {
        STATUS_UNKNOWN_MESSAGE_TYPE
    } else if spec_from_wire(type_id, wire) is None {
        STATUS_TYPE_MISMATCH
    } else {
        STATUS_OK
    }
}

/// The name of the ping actor, `rust_ping`, as bytes.
pub open spec fn spec_ping_name() -> Seq<u8> {
    seq![114u8, 117u8, 115u8, 116u8, 95u8, 112u8, 105u8, 110u8, 103u8]
}

/// The name of the pong actor, `rust_pong`, as bytes.
pub open spec fn spec_pong_name() -> Seq<u8> {
    seq![114u8, 117u8, 115u8, 116u8, 95u8, 112u8, 111u8, 110u8, 103u8]
}

/// The name of the publisher, `rust_publisher`, as bytes.
pub open spec fn spec_publisher_name() -> Seq<u8> {
    seq![
        114u8, 117u8, 115u8, 116u8, 95u8, 112u8, 117u8, 98u8, 108u8,
        105u8, 115u8, 104u8, 101u8, 114u8,
    ]
}

/// The name of the subscriber, `rust_price_monitor`, as bytes.
pub open spec fn spec_subscriber_name() -> Seq<u8> {
    seq![
        114u8, 117u8, 115u8, 116u8, 95u8, 112u8, 114u8, 105u8, 99u8,
        101u8, 95u8, 109u8, 111u8, 110u8, 105u8, 116u8, 111u8, 114u8,
    ]
}

impl Bridge {
    /// Where the slot stands in its life.
    pub closed spec fn phase(&self) -> Phase {
        self.phase
    }

    /// The registered names, in the order of their handles.
    pub closed spec fn names(&self) -> Seq<Seq<u8>> {
        self.registry@
    }

    /// Whether the lookup on the peer island is installed.
    pub closed spec fn lookup_installed(&self) -> bool {
        self.lookup_installed
    }

    /// The slot holds a manager.
    pub open spec fn live(&self) -> bool {
        self.phase() == Phase::Registering || self.phase() == Phase::Running
    }

    /// The invariant of the bridge: no name is registered twice, and an empty
    /// slot has no names.
    pub open spec fn wf(&self) -> bool {
        &&& distinct_names(self.names())
        &&& (!self.live() ==> self.names().len() == 0)
    }

    /// Both bridges are in the same state.
    pub open spec fn same_as(&self, other: &Bridge) -> bool {
        &&& self.phase() == other.phase()
        &&& self.names() == other.names()
        &&& self.lookup_installed() == other.lookup_installed()
    }

    /// A bridge with an empty slot and no peer lookup.
    pub fn new() -> (out: Bridge)
        ensures
            out.wf(),
            out.phase() == Phase::Uninitialized,
            out.names().len() == 0,
            !out.lookup_installed(),
    {
        Bridge { phase: Phase::Uninitialized, registry: Registry::new(), lookup_installed: false }
    }

    /// Where the slot stands in its life.
    pub fn current_phase(&self) -> (out: Phase)
        ensures
            out == self.phase(),
    {
        self.phase
    }

    /// Whether the lookup on the peer island is installed.
    pub fn has_peer_lookup(&self) -> (out: bool)
        ensures
            out == self.lookup_installed(),
    {
        self.lookup_installed
    }

    /// The number of registered actors.
    pub fn actor_count(&self) -> (n: usize)
        ensures
            n == self.names().len(),
    {
        self.registry.len()
    }
}

fn ping_name() -> (out: Vec<u8>)
    ensures
        out@ == spec_ping_name(),
{
    let out: Vec<u8> = vec![114u8, 117u8, 115u8, 116u8, 95u8, 112u8, 105u8, 110u8, 103u8];
    assert(out@ =~= spec_ping_name());
    out
}

fn pong_name() -> (out: Vec<u8>)
    ensures
        out@ == spec_pong_name(),
{
    let out: Vec<u8> = vec![114u8, 117u8, 115u8, 116u8, 95u8, 112u8, 111u8, 110u8, 103u8];
    assert(out@ =~= spec_pong_name());
    out
}

fn publisher_name() -> (out: Vec<u8>)
    ensures
        out@ == spec_publisher_name(),
{
    let out: Vec<u8> = vec![
        114u8, 117u8, 115u8, 116u8, 95u8, 112u8, 117u8, 98u8, 108u8,
        105u8, 115u8, 104u8, 101u8, 114u8,
    ];
    assert(out@ =~= spec_publisher_name());
    out
}

fn subscriber_name() -> (out: Vec<u8>)
    ensures
        out@ == spec_subscriber_name(),
{
    let out: Vec<u8> = vec![
        114u8, 117u8, 115u8, 116u8, 95u8, 112u8, 114u8, 105u8, 99u8,
        101u8, 95u8, 109u8, 111u8, 110u8, 105u8, 116u8, 111u8, 114u8,
    ];
    assert(out@ =~= spec_subscriber_name());
    out
}

/// Creates the manager. This takes effect once, on a slot that never held a
/// manager; any later call changes nothing and says so.
pub fn create_rust_manager(bridge: &mut Bridge) -> (created: bool)
    requires
        old(bridge).wf(),
    ensures
        final(bridge).wf(),
        created == (old(bridge).phase() == Phase::Uninitialized),
        created ==> final(bridge).phase() == Phase::Registering && final(bridge).names()
            == old(bridge).names() && final(bridge).lookup_installed() == old(
            bridge,
        ).lookup_installed(),
        !created ==> final(bridge).same_as(old(bridge)),
{
    match bridge.phase {
        Phase::Uninitialized => {
            bridge.phase = Phase::Registering;
            true
        },
        _ => false,
    }
}

/// Registers an actor under `name` and returns its handle. The registration
/// is accepted exactly while the manager takes registrations and the name is
/// not registered yet; otherwise nothing changes and there is no handle.
pub fn register_actor(bridge: &mut Bridge, name: &[u8]) -> (out: Option<usize>)
    requires
        old(bridge).wf(),
    ensures
        final(bridge).wf(),
        out is Some <==> old(bridge).phase() == Phase::Registering && !old(
            bridge,
        ).names().contains(name@),
        match out {
            Some(handle) => {
                &&& handle == old(bridge).names().len()
                &&& final(bridge).names() == old(bridge).names().push(name@)
                &&& final(bridge).phase() == Phase::Registering
                &&& final(bridge).lookup_installed() == old(bridge).lookup_installed()
            },
            None => final(bridge).same_as(old(bridge)),
        },
{
    match bridge.phase {
        Phase::Registering => bridge.registry.register(name),
        _ => None,
    }
}

/// Registers the ping actor under its fixed name.
pub fn register_rust_ping_actor(bridge: &mut Bridge) -> (out: Option<usize>)
    requires
        old(bridge).wf(),
    ensures
        final(bridge).wf(),
        out is Some <==> old(bridge).phase() == Phase::Registering && !old(
            bridge,
        ).names().contains(spec_ping_name()),
        match out {
            Some(handle) => {
                &&& handle == old(bridge).names().len()
                &&& final(bridge).names() == old(bridge).names().push(spec_ping_name())
                &&& final(bridge).phase() == Phase::Registering
                &&& final(bridge).lookup_installed() == old(bridge).lookup_installed()
            },
            None => final(bridge).same_as(old(bridge)),
        },
{
    let name: Vec<u8> = ping_name();
    register_actor(bridge, name.as_slice())
}

/// Registers the pong actor under its fixed name.
pub fn register_rust_pong_actor(bridge: &mut Bridge) -> (out: Option<usize>)
    requires
        old(bridge).wf(),
    ensures
        final(bridge).wf(),
        out is Some <==> old(bridge).phase() == Phase::Registering && !old(
            bridge,
        ).names().contains(spec_pong_name()),
        match out {
            Some(handle) => {
                &&& handle == old(bridge).names().len()
                &&& final(bridge).names() == old(bridge).names().push(spec_pong_name())
                &&& final(bridge).phase() == Phase::Registering
                &&& final(bridge).lookup_installed() == old(bridge).lookup_installed()
            },
            None => final(bridge).same_as(old(bridge)),
        },
{
    let name: Vec<u8> = pong_name();
    register_actor(bridge, name.as_slice())
}

/// Registers the publisher under its fixed name.
pub fn register_rust_publisher(bridge: &mut Bridge) -> (out: Option<usize>)
    requires
        old(bridge).wf(),
    ensures
        final(bridge).wf(),
        out is Some <==> old(bridge).phase() == Phase::Registering && !old(
            bridge,
        ).names().contains(spec_publisher_name()),
        match out {
            Some(handle) => {
                &&& handle == old(bridge).names().len()
                &&& final(bridge).names() == old(bridge).names().push(spec_publisher_name())
                &&& final(bridge).phase() == Phase::Registering
                &&& final(bridge).lookup_installed() == old(bridge).lookup_installed()
            },
            None => final(bridge).same_as(old(bridge)),
        },
{
    let name: Vec<u8> = publisher_name();
    register_actor(bridge, name.as_slice())
}

/// Registers the subscriber under its fixed name.
pub fn register_rust_subscriber(bridge: &mut Bridge) -> (out: Option<usize>)
    requires
        old(bridge).wf(),
    ensures
        final(bridge).wf(),
        out is Some <==> old(bridge).phase() == Phase::Registering && !old(
            bridge,
        ).names().contains(spec_subscriber_name()),
        match out {
            Some(handle) => {
                &&& handle == old(bridge).names().len()
                &&& final(bridge).names() == old(bridge).names().push(spec_subscriber_name())
                &&& final(bridge).phase() == Phase::Registering
                &&& final(bridge).lookup_installed() == old(bridge).lookup_installed()
            },
            None => final(bridge).same_as(old(bridge)),
        },
{
    let name: Vec<u8> = subscriber_name();
    register_actor(bridge, name.as_slice())
}

/// The manager's registry, while the slot holds a manager.
pub fn get_rust_manager(bridge: &Bridge) -> (out: Option<&Registry>)
    ensures
        out is Some <==> bridge.live(),
        out matches Some(registry) ==> registry@ == bridge.names(),
{
    match bridge.phase {
        Phase::Registering | Phase::Running => Some(&bridge.registry),
        _ => None,
    }
}

/// Starts the actors: closes registration and returns how many actors are
/// owed a start notification, those under the handles below that number.
/// Only a manager that takes registrations can be started; otherwise nothing
/// changes and there is no number.
pub fn rust_manager_init(bridge: &mut Bridge) -> (out: Option<usize>)
    requires
        old(bridge).wf(),
    ensures
        final(bridge).wf(),
        out is Some <==> old(bridge).phase() == Phase::Registering,
        match out {
            Some(n) => {
                &&& n == old(bridge).names().len()
                &&& final(bridge).phase() == Phase::Running
                &&& final(bridge).names() == old(bridge).names()
                &&& final(bridge).lookup_installed() == old(bridge).lookup_installed()
            },
            None => final(bridge).same_as(old(bridge)),
        },
{
    match bridge.phase {
        Phase::Registering => {
            bridge.phase = Phase::Running;
            Some(bridge.registry.len())
        },
        _ => None,
    }
}

/// Shuts the manager down: empties the slot and returns how many actor
/// contexts have to be joined. On a slot that was shut down before, the call
/// succeeds with nothing to join; on one that never held a manager it fails.
/// Neither changes anything.
pub fn rust_manager_end(bridge: &mut Bridge) -> (out: Option<usize>)
    requires
        old(bridge).wf(),
    ensures
        final(bridge).wf(),
        out is None <==> old(bridge).phase() == Phase::Uninitialized,
        old(bridge).live() ==> {
            &&& out == Some(old(bridge).names().len() as usize)
            &&& final(bridge).phase() == Phase::ShutDown
            &&& final(bridge).names().len() == 0
            &&& final(bridge).lookup_installed() == old(bridge).lookup_installed()
        },
        old(bridge).phase() == Phase::ShutDown ==> out == Some(0usize),
        !old(bridge).live() ==> final(bridge).same_as(old(bridge)),
{
    match bridge.phase {
        Phase::Uninitialized => None,
        Phase::ShutDown => Some(0),
        _ => {
            let n: usize = bridge.registry.len();
            bridge.registry = Registry::new();
            bridge.phase = Phase::ShutDown;
            Some(n)
        },
    }
}

/// Installs the lookup on the peer island. From then on a name that is not
/// registered here is asked for there.
pub fn init_cpp_actor_lookup(bridge: &mut Bridge)
    requires
        old(bridge).wf(),
    ensures
        final(bridge).wf(),
        final(bridge).lookup_installed(),
        final(bridge).phase() == old(bridge).phase(),
        final(bridge).names() == old(bridge).names(),
{
    bridge.lookup_installed = true;
}

/// Resolves `name` as far as this island can: to the local actor where the
/// name is registered, to a question for the peer where it is not and a peer
/// lookup is installed, and to nothing otherwise, as on an empty slot.
pub fn get_actor_ref(bridge: &Bridge, name: &[u8], sender: &[u8]) -> (out: Resolution)
    requires
        bridge.wf(),
    ensures
        match out {
            Resolution::Found(actor) => {
                &&& bridge.live()
                &&& bridge.names().contains(name@)
                &&& actor@ == (Route::Local {
                    handle: spec_lookup(bridge.names(), name@).unwrap(),
                })
            },
            Resolution::AskPeer => {
                &&& bridge.live()
                &&& !bridge.names().contains(name@)
                &&& bridge.lookup_installed()
            },
            Resolution::NotFound => {
                ||| !bridge.live()
                ||| (!bridge.names().contains(name@) && !bridge.lookup_installed())
            },
        },
{
    match bridge.phase {
        Phase::Registering | Phase::Running => {
            match bridge.registry.find(name) {
                Some(handle) => Resolution::Found(ActorRef::local(handle)),
                None => {
                    if bridge.lookup_installed {
                        Resolution::AskPeer
                    } else {
                        Resolution::NotFound
                    }
                },
            }
        },
        _ => Resolution::NotFound,
    }
}

/// Turns the peer's answer to the question whether it knows `name` into a
/// reference: a remote one, bound to `name` and `sender`, where it does.
pub fn cpp_actor_lookup(name: &[u8], sender: &[u8], peer_exists: bool) -> (out: Option<ActorRef>)
    ensures
        out is Some <==> peer_exists,
        out matches Some(actor) ==> actor@ == (Route::Remote { target: name@, sender: sender@ }),
{
    if peer_exists {
        Some(ActorRef::remote(name, sender))
    } else {
        None
    }
}

/// Resolves `name` on behalf of `sender`, given what the peer island answers
/// to the question whether it knows the name.
pub fn resolve(bridge: &Bridge, name: &[u8], sender: &[u8], peer_exists: bool) -> (out: Option<
    ActorRef,
>)
    requires
        bridge.wf(),
    ensures
        match spec_resolve(
            bridge.live(),
            bridge.names(),
            bridge.lookup_installed(),
            peer_exists,
            name@,
            sender@,
        ) {
            Some(route) => out is Some && out.unwrap()@ == route,
            None => out is None,
        },
{
    match get_actor_ref(bridge, name, sender) {
        Resolution::Found(actor) => Some(actor),
        Resolution::AskPeer => cpp_actor_lookup(name, sender, peer_exists),
        Resolution::NotFound => None,
    }
}

/// Whether an actor of this island is registered under `name`. On an empty
/// slot none is.
pub fn actor_exists(bridge: &Bridge, name: &[u8]) -> (out: bool)
    requires
        bridge.wf(),
    ensures
        out == (bridge.live() && bridge.names().contains(name@)),
{
    match bridge.phase {
        Phase::Registering | Phase::Running => bridge.registry.find(name).is_some(),
        _ => false,
    }
}

/// Takes a message from the peer island for the actor `target`. The message
/// is handed on exactly where the status is success; it is then the one that
/// the wire record holds, for the actor registered under `target`.
pub fn deliver(bridge: &Bridge, target: &[u8], sender: &[u8], type_id: i32, wire: &[u8]) -> (out:
    Delivery)
    requires
        bridge.wf(),
    ensures
        match out {
            Delivery::Enqueue { handle, sender: from, message } => {
                &&& spec_deliver_status(bridge.live(), bridge.names(), target@, type_id, wire@)
                    == STATUS_OK
                &&& spec_lookup(bridge.names(), target@) == Some(handle as int)
                &&& from@ == sender@
                &&& spec_from_wire(type_id, wire@) == Some(message@)
            },
            Delivery::Rejected { status } => {
                &&& status == spec_deliver_status(
                    bridge.live(),
                    bridge.names(),
                    target@,
                    type_id,
                    wire@,
                )
                &&& status != STATUS_OK
            },
        },
{
    match bridge.phase {
        Phase::Registering | Phase::Running => {},
        _ => {
            return Delivery::Rejected { status: STATUS_MANAGER_NOT_CREATED };
        },
    }
    let handle: usize = match bridge.registry.find(target) {
        Some(h) => h,
        None => {
            return Delivery::Rejected { status: STATUS_TARGET_NOT_FOUND };
        },
    };
    if !known_id(type_id) {
        return Delivery::Rejected { status: STATUS_UNKNOWN_MESSAGE_TYPE };
    }
    match Message::from_wire(type_id, wire) {
        Some(message) => Delivery::Enqueue { handle, sender: copy_bytes(sender), message },
        None => Delivery::Rejected { status: STATUS_TYPE_MISMATCH },
    }
}

impl Delivery {
    /// The status that the peer island is told.
    pub fn status(&self) -> (out: i32)
        ensures
            out == match *self {
                Delivery::Enqueue { .. } => STATUS_OK,
                Delivery::Rejected { status } => status,
            },
    {
        match self {
            Delivery::Enqueue { .. } => STATUS_OK,
            Delivery::Rejected { status } => *status,
        }
    }
}

/// Resolution depends on nothing but the state of the bridge and the peer's
/// answer: two resolutions of one name with no registration in between
/// yield the same route.
pub proof fn lemma_resolution_repeatable(
    first: Bridge,
    second: Bridge,
    name: Seq<u8>,
    sender: Seq<u8>,
    peer_exists: bool,
)
    requires
        first.same_as(&second),
    ensures
        spec_resolve(
            first.live(),
            first.names(),
            first.lookup_installed(),
            peer_exists,
            name,
            sender,
        ) == spec_resolve(
            second.live(),
            second.names(),
            second.lookup_installed(),
            peer_exists,
            name,
            sender,
        ),
{
}

/// A name that is registered here resolves to the same local actor whatever
/// the peer answers, whether or not a peer lookup is installed, and whatever
/// is registered after it.
pub proof fn lemma_local_route_stable(
    names: Seq<Seq<u8>>,
    added: Seq<u8>,
    name: Seq<u8>,
    sender: Seq<u8>,
    installed: bool,
    peer_exists: bool,
    installed_later: bool,
    peer_exists_later: bool,
)
    requires
        names.contains(name),
    ensures
        spec_resolve(true, names, installed, peer_exists, name, sender) is Some,
        spec_resolve(true, names, installed, peer_exists, name, sender) matches Some(route)
            && route is Local,
        spec_resolve(true, names.push(added), installed_later, peer_exists_later, name, sender)
            == spec_resolve(true, names, installed, peer_exists, name, sender),
{
    lemma_lookup(names, name);
    lemma_lookup_after_push(names, added, name);
    let more = names.push(added);
    let i = spec_lookup(names, name).unwrap();
    assert(more[i] == name);
}

/// Before a peer lookup is installed, a name that is not registered here
/// resolves to nothing, whatever the peer would answer.
pub proof fn lemma_unresolved_without_lookup(
    live: bool,
    names: Seq<Seq<u8>>,
    name: Seq<u8>,
    sender: Seq<u8>,
    peer_exists: bool,
)
    requires
        !names.contains(name),
    ensures
        spec_resolve(live, names, false, peer_exists, name, sender) is None,
{
}

} // verus!
