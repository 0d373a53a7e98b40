//! Safe, verified core of a binding to an opaque native "context" resource.
//!
//! The native side is reached only through a handful of C entry points; the
//! decisions the binding makes around those calls live here as plain-value
//! functions with contracts, so that the code performing the foreign calls
//! stays a thin shell.
pub mod callback;
pub mod classification;
pub mod error;
pub mod handle;
pub mod text;
pub mod view;
