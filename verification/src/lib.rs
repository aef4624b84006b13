//! A bridge between two actor runtimes ("islands") that do not share a type
//! system: a closed catalog of messages with a fixed wire layout, actor
//! references that hide which island hosts the target, name resolution across
//! both islands, outbound dispatch by type identifier, and the life cycle of
//! the island's single manager slot.
//!
//! The library decides; it performs no call across the boundary itself. Each
//! operation returns plain values that say what the surrounding program has
//! to enqueue, call or join.

pub mod status;
pub mod wire;
pub mod messages;
pub mod registry;
pub mod dispatch;
pub mod actor_ref;
pub mod bridge;
