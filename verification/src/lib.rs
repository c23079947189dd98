//! Request handling for embedding the aube package manager in another host:
//! the embedded install request and its validation, the install plan that the
//! request resolves to, and the option checks of the two Erlang NIF bridges.

pub mod options;
pub mod paths;
pub mod embedded;
pub mod native_nif;
pub mod codes;
pub mod beam_nif;
pub mod laws;
