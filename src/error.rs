use vstd::prelude::*;

verus! {

/// Everything the binding reports instead of touching native memory it
/// cannot vouch for.
#[derive(Clone, Copy, Debug, PartialEq, Eq, Structural)]
pub enum BindingError {
    /// A view was requested past the native maximum offset.
    InvalidOffset { offset: i32, max: i32 },
    /// The native view constructor answered with a status the binding does
    /// not know.
    UnmappedStatus { status: i32 },
    /// Native text was not terminated or not well-formed UTF-8.
    InvalidEncoding,
    /// The handle has already been released.
    Released,
    /// The view was taken before the last transformation of its handle.
    StaleView,
}

} // verus!
