//! The verified core of a small API gateway: signed, stateless sessions, the
//! authorization check that guards the protected routes, and the decisions of
//! a read-only proxy onto a remote object store.
//!
//! Nothing here performs I/O. Each operation that needs the network is cut in
//! two: a function that says what to ask of the outside service, and a
//! function that takes the service's answer as a plain value and decides what
//! the caller gets back.

pub mod auth;
pub mod directory;
pub mod errors;
pub mod index;
pub mod s3;
pub mod session;
pub mod text;
