//! Generator of twirp service bindings.
//!
//! Given a resolved description of an RPC service (its name, package, wire
//! name, and methods), the generator appends Rust source text to an output
//! buffer: a server-side trait, a shared-ownership adapter that forwards
//! every operation, a router-builder function, a client-side trait, and a
//! client implementation. The emitted text is pinned down, character for
//! character, by the spec functions in [`text`], and the laws relating the
//! artifacts (operation counts, route-path agreement, forwarding shape,
//! determinism) are proved in [`laws`].

pub mod descriptor;
pub mod emit;
pub mod laws;
pub mod text;

pub use descriptor::MethodDescriptor;
pub use descriptor::ServiceDescriptor;
pub use emit::ServiceGenerator;
pub use emit::service_generator;
