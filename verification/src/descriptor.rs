//! The service description the generator consumes, and the route paths
//! derived from it.

use vstd::prelude::*;

verus! {

/// One RPC operation: its Rust identifier, its wire route segment, and the
/// identifiers of its request and response message types.
pub struct MethodDescriptor {
    pub name: String,
    pub proto_name: String,
    pub input_type: String,
    pub output_type: String,
}

/// One RPC service: its Rust identifier, its package, its wire name, and its
/// methods in declaration order. The generator reads it and never mutates it.
pub struct ServiceDescriptor {
    pub name: String,
    pub package: String,
    pub proto_name: String,
    pub methods: Vec<MethodDescriptor>,
}

/// The service's fully qualified name: `package + "." + proto_name`. It is
/// the path prefix of every route of the service.
pub open spec fn fqn_text(s: ServiceDescriptor) -> Seq<char> {
    s.package@ + "."@ + s.proto_name@
}

/// The route path of one method: `"/" + fqn + "/" + proto_name`. The router
/// registers a handler at this path and the client addresses it there; the
/// two must agree byte for byte.
pub open spec fn route_path_text(s: ServiceDescriptor, m: MethodDescriptor) -> Seq<char> {
    seq!['/'] + fqn_text(s) + seq!['/'] + m.proto_name@
}

impl ServiceDescriptor {
    /// The fully qualified name as an owned string.
    pub fn fqn(&self) -> (r: String)
        ensures
            r@ == fqn_text(*self),
    {
        let mut r = String::new();
        r.append(self.package.as_str());
        r.append(".");
        r.append(self.proto_name.as_str());
        proof {
            assert(r@ =~= fqn_text(*self));
        }
        r
    }
}

} // verus!
