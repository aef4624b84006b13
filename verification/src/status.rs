//! Integer status codes reported across the boundary.

use vstd::prelude::*;

verus! {

/// The operation succeeded.
pub const STATUS_OK: i32 = 0;

/// No actor of the requested name is registered on the receiving island.
pub const STATUS_TARGET_NOT_FOUND: i32 = -1;

/// The type identifier is not part of the message catalog.
pub const STATUS_UNKNOWN_MESSAGE_TYPE: i32 = -2;

/// The payload is not of the type that the identifier names.
pub const STATUS_TYPE_MISMATCH: i32 = -3;

/// The island's manager has not been created, or is already shut down.
pub const STATUS_MANAGER_NOT_CREATED: i32 = -4;

/// Success is zero, every failure is negative, and no two failures share a
/// code.
pub proof fn lemma_statuses_distinct()
    ensures
        STATUS_OK == 0,
        STATUS_TARGET_NOT_FOUND < 0,
        STATUS_UNKNOWN_MESSAGE_TYPE < 0,
        STATUS_TYPE_MISMATCH < 0,
        STATUS_MANAGER_NOT_CREATED < 0,
        STATUS_TARGET_NOT_FOUND != STATUS_UNKNOWN_MESSAGE_TYPE,
        STATUS_TARGET_NOT_FOUND != STATUS_TYPE_MISMATCH,
        STATUS_TARGET_NOT_FOUND != STATUS_MANAGER_NOT_CREATED,
        STATUS_UNKNOWN_MESSAGE_TYPE != STATUS_TYPE_MISMATCH,
        STATUS_UNKNOWN_MESSAGE_TYPE != STATUS_MANAGER_NOT_CREATED,
        STATUS_TYPE_MISMATCH != STATUS_MANAGER_NOT_CREATED,
{
}

} // verus!
