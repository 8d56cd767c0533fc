//! The model of the generated source: spec functions that give, character
//! for character, the text each emission pass appends. Every emitter in
//! [`crate::emit`] ensures that what it wrote equals one of these functions.

use vstd::prelude::*;
use crate::descriptor::MethodDescriptor;
use crate::descriptor::ServiceDescriptor;
use crate::descriptor::fqn_text;

verus! {

/// The concatenation of a sequence of text pieces, in order.
pub open spec fn lines_text(lines: Seq<Seq<char>>) -> Seq<char>
    decreases lines.len(),
{
    if lines.len() == 0 {
        Seq::empty()
    } else {
        lines_text(lines.drop_last()) + lines.last()
    }
}

/// Extending a piece sequence by one element appends that element's text.
pub proof fn lemma_lines_text_take_step(lines: Seq<Seq<char>>, i: int)
    requires
        0 <= i < lines.len(),
    ensures
        lines_text(lines.take(i + 1)) == lines_text(lines.take(i)) + lines[i],
{
    let t = lines.take(i + 1);
    assert(t.drop_last() =~= lines.take(i));
    assert(t.last() == lines[i]);
}

/// What the generated `service_fqn` accessor returns: `"/" + fqn`.
pub open spec fn fqn_accessor_value(s: ServiceDescriptor) -> Seq<char> {
    "/"@ + fqn_text(s)
}

/// The path segment the router registers for one method: `"/" + proto_name`.
/// The surrounding router supplies the `"/" + fqn` prefix.
pub open spec fn route_segment(m: MethodDescriptor) -> Seq<char> {
    "/"@ + m.proto_name@
}

/// The path the generated client hands to its request primitive:
/// `fqn + "/" + proto_name`, resolved by the client runtime against a base
/// path that ends in `"/"`.
pub open spec fn client_request_path(s: ServiceDescriptor, m: MethodDescriptor) -> Seq<char> {
    fqn_text(s) + "/"@ + m.proto_name@
}

/// Text emitted once, before the five artifacts.
pub open spec fn preamble_text() -> Seq<char> {
    "\npub use twirp;\n\n"@
}

/// The tail of a server operation's signature, after the identifier.
pub open spec fn server_op_sig_tail(m: MethodDescriptor) -> Seq<char> {
    "(&self, ctx: twirp::Context, req: "@ + m.input_type@ + ") -> Result<"@ + m.output_type@
        + ", Self::Error>"@
}

/// One server operation's signature: the identifier is the method's name.
pub open spec fn server_op_sig(m: MethodDescriptor) -> Seq<char> {
    "    async fn "@ + m.name@ + server_op_sig_tail(m)
}

/// One operation declaration in the server interface.
pub open spec fn server_op_line(m: MethodDescriptor) -> Seq<char> {
    server_op_sig(m) + ";\n"@
}

/// The server interface's operation declarations, in descriptor order.
pub open spec fn server_op_lines(s: ServiceDescriptor) -> Seq<Seq<char>> {
    s.methods@.map_values(|m: MethodDescriptor| server_op_line(m))
}

/// The server interface's head: attribute, trait header, associated error
/// type, and the fqn accessor.
pub open spec fn server_trait_head(s: ServiceDescriptor) -> Seq<char> {
    "#[twirp::async_trait::async_trait]\npub trait "@ + s.name@
        + " {\n    type Error;\nfn service_fqn(&self) -> &'static str { \""@
        + fqn_accessor_value(s) + "\" }\n"@
}

/// The full server interface.
pub open spec fn server_trait_text(s: ServiceDescriptor) -> Seq<char> {
    server_trait_head(s) + lines_text(server_op_lines(s)) + "}\n"@
}

/// One forwarding operation of the shared-ownership adapter: the server
/// signature, then a body that hands context and request, unchanged, to the
/// wrapped value's operation of the same name.
pub open spec fn arc_op_text(m: MethodDescriptor) -> Seq<char> {
    server_op_sig(m) + " {\n        T::"@ + m.name@ + "(&*self, ctx, req).await\n    }\n"@
}

/// The adapter's forwarding operations, in descriptor order.
pub open spec fn arc_op_lines(s: ServiceDescriptor) -> Seq<Seq<char>> {
    s.methods@.map_values(|m: MethodDescriptor| arc_op_text(m))
}

/// The head of the shared-ownership adapter: a blanket impl of the server
/// interface for a reference-counted wrapper, aliasing the error type.
pub open spec fn arc_impl_head(s: ServiceDescriptor) -> Seq<char> {
    "#[twirp::async_trait::async_trait]\nimpl<T> "@ + s.name@
        + " for std::sync::Arc<T>\nwhere\n    T: "@ + s.name@
        + " + Sync + Send\n{\n    type Error = T::Error;\n\n"@
}

/// The full shared-ownership adapter.
pub open spec fn arc_impl_text(s: ServiceDescriptor) -> Seq<char> {
    arc_impl_head(s) + lines_text(arc_op_lines(s)) + "}\n"@
}

/// One route registration: the router binds the method's segment to a
/// closure that invokes the matching server operation.
pub open spec fn route_line(m: MethodDescriptor) -> Seq<char> {
    "        .route(\""@ + route_segment(m) + "\", |api: T, ctx: twirp::Context, req: "@
        + m.input_type@ + "| async move {\n            api."@ + m.name@
        + "(ctx, req).await\n        })\n"@
}

/// The router's route registrations, in descriptor order.
pub open spec fn route_lines(s: ServiceDescriptor) -> Seq<Seq<char>> {
    s.methods@.map_values(|m: MethodDescriptor| route_line(m))
}

/// The head of the router function: its signature, including the demand
/// that the server's business error convert to a wire response, and the
/// start of the builder chain.
pub open spec fn router_fn_head(s: ServiceDescriptor) -> Seq<char> {
    "pub fn router<T>(api: T) -> twirp::Router\nwhere\n    T: "@ + s.name@
        + " + Clone + Send + Sync + 'static,\n    <T as "@ + s.name@
        + ">::Error: twirp::IntoTwirpResponse,\n{\n    twirp::details::TwirpRouterBuilder::new(api)\n"@
}

/// The end of the builder chain.
pub open spec fn router_fn_tail() -> Seq<char> {
    "\n        .build()\n}\n"@
}

/// The full router function.
pub open spec fn router_fn_text(s: ServiceDescriptor) -> Seq<char> {
    router_fn_head(s) + lines_text(route_lines(s)) + router_fn_tail()
}

/// One client operation's signature: same identifier and message types as
/// the server's, but the transport error domain in place of the business one.
pub open spec fn client_op_sig(m: MethodDescriptor) -> Seq<char> {
    "    async fn "@ + m.name@ + "(&self, req: "@ + m.input_type@ + ") -> Result<"@
        + m.output_type@ + ", twirp::ClientError>"@
}

/// One operation declaration in the client interface.
pub open spec fn client_op_line(m: MethodDescriptor) -> Seq<char> {
    client_op_sig(m) + ";\n"@
}

/// The client interface's operation declarations, in descriptor order.
pub open spec fn client_op_lines(s: ServiceDescriptor) -> Seq<Seq<char>> {
    s.methods@.map_values(|m: MethodDescriptor| client_op_line(m))
}

/// The head of the client interface.
pub open spec fn client_trait_head(s: ServiceDescriptor) -> Seq<char> {
    "\n#[twirp::async_trait::async_trait]\npub trait "@ + s.name@
        + "Client: Send + Sync + std::fmt::Debug {\n"@
}

/// The full client interface.
pub open spec fn client_trait_text(s: ServiceDescriptor) -> Seq<char> {
    client_trait_head(s) + lines_text(client_op_lines(s)) + "}\n"@
}

/// One client implementation operation: it hands the method's request path
/// and the request to the client's single generic request primitive.
pub open spec fn client_impl_op_text(s: ServiceDescriptor, m: MethodDescriptor) -> Seq<char> {
    client_op_sig(m) + " {\n    self.request(\""@ + client_request_path(s, m)
        + "\", req).await\n    }\n"@
}

/// The client implementation's operations, in descriptor order.
pub open spec fn client_impl_op_lines(s: ServiceDescriptor) -> Seq<Seq<char>> {
    s.methods@.map_values(|m: MethodDescriptor| client_impl_op_text(s, m))
}

/// The head of the client implementation.
pub open spec fn client_impl_head(s: ServiceDescriptor) -> Seq<char> {
    "#[twirp::async_trait::async_trait]\nimpl "@ + s.name@
        + "Client for twirp::client::Client {\n"@
}

/// The full client implementation.
pub open spec fn client_impl_text(s: ServiceDescriptor) -> Seq<char> {
    client_impl_head(s) + lines_text(client_impl_op_lines(s)) + "}\n"@
}

/// Everything one generation call appends: the preamble and the five
/// artifacts, in order. A pure function of the descriptor.
pub open spec fn generated_text(s: ServiceDescriptor) -> Seq<char> {
    preamble_text() + server_trait_text(s) + arc_impl_text(s) + router_fn_text(s)
        + client_trait_text(s) + client_impl_text(s)
}

} // verus!
