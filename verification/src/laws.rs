//! The laws the generated artifacts obey, proved from the text model alone.

use vstd::prelude::*;
use crate::descriptor::MethodDescriptor;
use crate::descriptor::ServiceDescriptor;
use crate::descriptor::route_path_text;
use crate::text::arc_op_lines;
use crate::text::client_impl_head;
use crate::text::client_impl_op_lines;
use crate::text::client_impl_op_text;
use crate::text::client_impl_text;
use crate::text::client_op_line;
use crate::text::client_op_lines;
use crate::text::client_request_path;
use crate::text::client_trait_head;
use crate::text::client_trait_text;
use crate::text::fqn_accessor_value;
use crate::text::generated_text;
use crate::text::lines_text;
use crate::text::route_line;
use crate::text::route_lines;
use crate::text::route_segment;
use crate::text::router_fn_head;
use crate::text::router_fn_tail;
use crate::text::router_fn_text;
use crate::text::server_op_lines;
use crate::text::server_op_sig;
use crate::text::server_op_sig_tail;
use crate::text::server_trait_head;
use crate::text::server_trait_text;

verus! {

/// The server interface declares exactly one operation per descriptor
/// method, in descriptor order, each identified by the method's own name;
/// besides them it holds only its head — which carries the single fqn
/// accessor — and the closing brace.
pub proof fn lemma_server_interface_operations(s: ServiceDescriptor)
    ensures
        server_op_lines(s).len() == s.methods@.len(),
        forall|i: int|
            0 <= i < s.methods@.len() ==> (#[trigger] server_op_lines(s)[i]) == "    async fn "@
                + s.methods@[i].name@ + server_op_sig_tail(s.methods@[i]) + ";\n"@,
        server_trait_text(s) == server_trait_head(s) + lines_text(server_op_lines(s)) + "}\n"@,
{
}

/// Route-path agreement: the full path the router serves a method at — the
/// generated fqn accessor's value followed by the registered route segment —
/// and the path the generated client requests address one and the same
/// route, `"/" + package + "." + proto_name + "/" + method.proto_name`. The
/// client writes it without the leading slash; the slash is restored by the
/// client runtime's base path, so the bytes after it agree exactly.
pub proof fn lemma_route_path_agreement(s: ServiceDescriptor, m: MethodDescriptor)
    ensures
        fqn_accessor_value(s) + route_segment(m) == route_path_text(s, m),
        seq!['/'] + client_request_path(s, m) == route_path_text(s, m),
        route_path_text(s, m) == seq!['/'] + s.package@ + "."@ + s.proto_name@ + seq!['/']
            + m.proto_name@,
{
    reveal_strlit("/");
    assert("/"@ =~= seq!['/']);
    assert(fqn_accessor_value(s) + route_segment(m) =~= route_path_text(s, m));
    assert(seq!['/'] + client_request_path(s, m) =~= route_path_text(s, m));
    assert(route_path_text(s, m) =~= seq!['/'] + s.package@ + "."@ + s.proto_name@ + seq!['/']
        + m.proto_name@);
}

/// Delegation shape: for each method, the shared-ownership adapter declares
/// an operation whose signature is identical, byte for byte, to the server
/// interface's, and whose entire body forwards the unchanged receiver,
/// context and request to the wrapped value's operation of the same name —
/// a call through the adapter performs the very invocation a direct call
/// performs, so the two yield identical results.
pub proof fn lemma_delegation_forwards_unchanged(s: ServiceDescriptor)
    ensures
        arc_op_lines(s).len() == s.methods@.len(),
        forall|i: int|
            0 <= i < s.methods@.len() ==> (#[trigger] arc_op_lines(s)[i]) == server_op_sig(
                s.methods@[i],
            ) + " {\n        T::"@ + s.methods@[i].name@ + "(&*self, ctx, req).await\n    }\n"@,
{
}

/// Determinism: the generated text is a pure function of the descriptor, so
/// two generation calls on identical descriptors append byte-identical text.
pub proof fn lemma_generation_deterministic(s1: ServiceDescriptor, s2: ServiceDescriptor)
    requires
        s1 == s2,
    ensures
        generated_text(s1) == generated_text(s2),
{
}

/// Order preservation: the router and both client artifacts list one
/// per-method part per descriptor method, in descriptor order; the server
/// interface and the adapter do so by
/// [`lemma_server_interface_operations`] and
/// [`lemma_delegation_forwards_unchanged`].
pub proof fn lemma_method_order_preserved(s: ServiceDescriptor)
    ensures
        route_lines(s).len() == s.methods@.len(),
        client_op_lines(s).len() == s.methods@.len(),
        client_impl_op_lines(s).len() == s.methods@.len(),
        forall|i: int|
            0 <= i < s.methods@.len() ==> (#[trigger] route_lines(s)[i]) == route_line(
                s.methods@[i],
            ),
        forall|i: int|
            0 <= i < s.methods@.len() ==> (#[trigger] client_op_lines(s)[i]) == client_op_line(
                s.methods@[i],
            ),
        forall|i: int|
            0 <= i < s.methods@.len() ==> (#[trigger] client_impl_op_lines(s)[i])
                == client_impl_op_text(s, s.methods@[i]),
{
}

/// A descriptor with no methods: the server interface holds only its head —
/// the fqn accessor — and the closing brace; the router chain registers no
/// route; the client interface and the client implementation declare no
/// operation.
pub proof fn lemma_zero_methods(s: ServiceDescriptor)
    requires
        s.methods@.len() == 0,
    ensures
        server_trait_text(s) == server_trait_head(s) + "}\n"@,
        router_fn_text(s) == router_fn_head(s) + router_fn_tail(),
        client_trait_text(s) == client_trait_head(s) + "}\n"@,
        client_impl_text(s) == client_impl_head(s) + "}\n"@,
{
    assert(server_trait_text(s) =~= server_trait_head(s) + "}\n"@);
    assert(router_fn_text(s) =~= router_fn_head(s) + router_fn_tail());
    assert(client_trait_text(s) =~= client_trait_head(s) + "}\n"@);
    assert(client_impl_text(s) =~= client_impl_head(s) + "}\n"@);
}

} // verus!
