use vstd::prelude::*;
use crate::error::BindingError;

verus! {

/// The largest offset at which the native resource hands out a view.
pub const MAX_OFFSET: i32 = 26;

/// The status with which the native view constructor rejects an offset.
pub const STATUS_REJECTED: i32 = -1;

/// The status of a successful native view construction.
pub const STATUS_OK: i32 = 0;

/// The binding's own check of a requested offset, made before the native
/// call: everything above the maximum is refused.
pub open spec fn offset_outcome(offset: i32) -> Result<(), BindingError> {
    if offset > MAX_OFFSET {
        Err(BindingError::InvalidOffset { offset, max: MAX_OFFSET })
    } else {
        Ok(())
    }
}

/// What the binding makes of the status of the native view constructor.
pub open spec fn status_outcome(offset: i32, status: i32) -> Result<(), BindingError> {
    if status == STATUS_OK {
        Ok(())
    } else if status == STATUS_REJECTED {
        Err(BindingError::InvalidOffset { offset, max: MAX_OFFSET })
    } else {
        Err(BindingError::UnmappedStatus { status })
    }
}

/// Validates a requested view offset against the native maximum.
pub fn check_offset(offset: i32) -> (r: Result<(), BindingError>)
    ensures
        r == offset_outcome(offset),
{
    if offset > MAX_OFFSET {
        Err(BindingError::InvalidOffset { offset, max: MAX_OFFSET })
    } else {
        Ok(())
    }
}

/// Maps the status returned by the native view constructor to a result.
pub fn view_status(offset: i32, status: i32) -> (r: Result<(), BindingError>)
    ensures
        r == status_outcome(offset, status),
{
    if status == STATUS_OK {
        Ok(())
    } else if status == STATUS_REJECTED {
        Err(BindingError::InvalidOffset { offset, max: MAX_OFFSET })
    } else {
        Err(BindingError::UnmappedStatus { status })
    }
}

/// Offsets from zero to the maximum pass the binding's check, and every
/// offset above it is refused with `InvalidOffset` carrying that offset.
pub proof fn lemma_offset_domain(offset: i32)
    ensures
        0 <= offset <= MAX_OFFSET ==> offset_outcome(offset) is Ok,
        offset > MAX_OFFSET ==> offset_outcome(offset) == Err::<(), BindingError>(
            BindingError::InvalidOffset { offset, max: MAX_OFFSET },
        ),
{
}

} // verus!
