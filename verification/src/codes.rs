//! The error codes that the NIF bridges attach to their failures.
//!
//! The shared error-code registry is not part of this crate: the value of
//! each code is assumed to be its own name.

use vstd::prelude::*;

verus! {

/// A NIF option map that the bridge refuses.
pub const ERR_AUBE_FFI_INVALID_ARGUMENT: &'static str = "ERR_AUBE_FFI_INVALID_ARGUMENT";

/// A NIF runtime that could not be built.
pub const ERR_AUBE_FFI_RUNTIME: &'static str = "ERR_AUBE_FFI_RUNTIME";

/// A project directory that cannot be resolved or is not a directory.
pub const ERR_AUBE_EMBED_INVALID_PROJECT: &'static str = "ERR_AUBE_EMBED_INVALID_PROJECT";

} // verus!
