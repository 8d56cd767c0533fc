//! The executable emitters: each appends to the output buffer exactly the
//! text that the corresponding spec function in [`crate::text`] gives.

use vstd::prelude::*;
use crate::descriptor::MethodDescriptor;
use crate::descriptor::ServiceDescriptor;
use crate::descriptor::fqn_text;
use crate::text::arc_impl_text;
use crate::text::arc_op_lines;
use crate::text::arc_op_text;
use crate::text::client_impl_op_lines;
use crate::text::client_impl_op_text;
use crate::text::client_impl_text;
use crate::text::client_op_line;
use crate::text::client_op_lines;
use crate::text::client_op_sig;
use crate::text::client_trait_text;
use crate::text::generated_text;
use crate::text::lemma_lines_text_take_step;
use crate::text::lines_text;
use crate::text::route_line;
use crate::text::route_lines;
use crate::text::router_fn_text;
use crate::text::server_op_line;
use crate::text::server_op_lines;
use crate::text::server_op_sig;
use crate::text::server_trait_text;

verus! {

/// Appends one server operation signature.
fn emit_server_op_sig(m: &MethodDescriptor, buf: &mut String)
    ensures
        final(buf)@ == old(buf)@ + server_op_sig(*m),
{
    let ghost base = old(buf)@;
    buf.append("    async fn ");
    buf.append(m.name.as_str());
    buf.append("(&self, ctx: twirp::Context, req: ");
    buf.append(m.input_type.as_str());
    buf.append(") -> Result<");
    buf.append(m.output_type.as_str());
    buf.append(", Self::Error>");
    proof {
        assert(buf@ =~= base + server_op_sig(*m));
    }
}

/// Appends one operation declaration of the server interface.
fn emit_server_op(m: &MethodDescriptor, buf: &mut String)
    ensures
        final(buf)@ == old(buf)@ + server_op_line(*m),
{
    emit_server_op_sig(m, buf);
    buf.append(";\n");
}

/// Appends the server interface's operation declarations, one per method,
/// in descriptor order.
fn emit_server_ops(s: &ServiceDescriptor, buf: &mut String)
    ensures
        final(buf)@ == old(buf)@ + lines_text(server_op_lines(*s)),
{
    let ghost base = old(buf)@;
    let ghost lines = server_op_lines(*s);
    let n = s.methods.len();
    let mut i: usize = 0;
    while i < n
        invariant
            n == s.methods@.len(),
            lines == server_op_lines(*s),
            0 <= i <= n,
            buf@ == base + lines_text(lines.take(i as int)),
        decreases n - i,
    {
        emit_server_op(&s.methods[i], buf);
        proof {
            assert(lines[i as int] == server_op_line(s.methods@[i as int]));
            lemma_lines_text_take_step(lines, i as int);
        }
        i += 1;
    }
    proof {
        assert(lines.take(n as int) =~= lines);
    }
}

/// Appends the server interface: the trait with its associated error type,
/// the fqn accessor, and one operation per method.
fn emit_server_trait(s: &ServiceDescriptor, fqn: &str, buf: &mut String)
    requires
        fqn@ == fqn_text(*s),
    ensures
        final(buf)@ == old(buf)@ + server_trait_text(*s),
{
    let ghost base = old(buf)@;
    buf.append("#[twirp::async_trait::async_trait]\npub trait ");
    buf.append(s.name.as_str());
    buf.append(" {\n    type Error;\nfn service_fqn(&self) -> &'static str { \"");
    buf.append("/");
    buf.append(fqn);
    buf.append("\" }\n");
    emit_server_ops(s, buf);
    buf.append("}\n");
    proof {
        assert(buf@ =~= base + server_trait_text(*s));
    }
}

/// Appends one forwarding operation of the shared-ownership adapter.
fn emit_arc_op(m: &MethodDescriptor, buf: &mut String)
    ensures
        final(buf)@ == old(buf)@ + arc_op_text(*m),
{
    let ghost base = old(buf)@;
    emit_server_op_sig(m, buf);
    buf.append(" {\n        T::");
    buf.append(m.name.as_str());
    buf.append("(&*self, ctx, req).await\n    }\n");
    proof {
        assert(buf@ =~= base + arc_op_text(*m));
    }
}

/// Appends the adapter's forwarding operations, in descriptor order.
fn emit_arc_ops(s: &ServiceDescriptor, buf: &mut String)
    ensures
        final(buf)@ == old(buf)@ + lines_text(arc_op_lines(*s)),
{
    let ghost base = old(buf)@;
    let ghost lines = arc_op_lines(*s);
    let n = s.methods.len();
    let mut i: usize = 0;
    while i < n
        invariant
            n == s.methods@.len(),
            lines == arc_op_lines(*s),
            0 <= i <= n,
            buf@ == base + lines_text(lines.take(i as int)),
        decreases n - i,
    {
        emit_arc_op(&s.methods[i], buf);
        proof {
            assert(lines[i as int] == arc_op_text(s.methods@[i as int]));
            lemma_lines_text_take_step(lines, i as int);
        }
        i += 1;
    }
    proof {
        assert(lines.take(n as int) =~= lines);
    }
}

/// Appends the shared-ownership adapter: a blanket impl of the server
/// interface that forwards every operation to the wrapped value.
fn emit_arc_impl(s: &ServiceDescriptor, buf: &mut String)
    ensures
        final(buf)@ == old(buf)@ + arc_impl_text(*s),
{
    let ghost base = old(buf)@;
    buf.append("#[twirp::async_trait::async_trait]\nimpl<T> ");
    buf.append(s.name.as_str());
    buf.append(" for std::sync::Arc<T>\nwhere\n    T: ");
    buf.append(s.name.as_str());
    buf.append(" + Sync + Send\n{\n    type Error = T::Error;\n\n");
    emit_arc_ops(s, buf);
    buf.append("}\n");
    proof {
        assert(buf@ =~= base + arc_impl_text(*s));
    }
}

/// Appends one route registration.
fn emit_route(m: &MethodDescriptor, buf: &mut String)
    ensures
        final(buf)@ == old(buf)@ + route_line(*m),
{
    let ghost base = old(buf)@;
    buf.append("        .route(\"");
    buf.append("/");
    buf.append(m.proto_name.as_str());
    buf.append("\", |api: T, ctx: twirp::Context, req: ");
    buf.append(m.input_type.as_str());
    buf.append("| async move {\n            api.");
    buf.append(m.name.as_str());
    buf.append("(ctx, req).await\n        })\n");
    proof {
        assert(buf@ =~= base + route_line(*m));
    }
}

/// Appends the route registrations, in descriptor order.
fn emit_routes(s: &ServiceDescriptor, buf: &mut String)
    ensures
        final(buf)@ == old(buf)@ + lines_text(route_lines(*s)),
{
    let ghost base = old(buf)@;
    let ghost lines = route_lines(*s);
    let n = s.methods.len();
    let mut i: usize = 0;
    while i < n
        invariant
            n == s.methods@.len(),
            lines == route_lines(*s),
            0 <= i <= n,
            buf@ == base + lines_text(lines.take(i as int)),
        decreases n - i,
    {
        emit_route(&s.methods[i], buf);
        proof {
            assert(lines[i as int] == route_line(s.methods@[i as int]));
            lemma_lines_text_take_step(lines, i as int);
        }
        i += 1;
    }
    proof {
        assert(lines.take(n as int) =~= lines);
    }
}

/// Appends the router function: a builder chain that registers one route
/// per method and yields the runtime's router value.
fn emit_router_fn(s: &ServiceDescriptor, buf: &mut String)
    ensures
        final(buf)@ == old(buf)@ + router_fn_text(*s),
{
    let ghost base = old(buf)@;
    buf.append("pub fn router<T>(api: T) -> twirp::Router\nwhere\n    T: ");
    buf.append(s.name.as_str());
    buf.append(" + Clone + Send + Sync + 'static,\n    <T as ");
    buf.append(s.name.as_str());
    buf.append(">::Error: twirp::IntoTwirpResponse,\n{\n    twirp::details::TwirpRouterBuilder::new(api)\n");
    emit_routes(s, buf);
    buf.append("\n        .build()\n}\n");
    proof {
        assert(buf@ =~= base + router_fn_text(*s));
    }
}

/// Appends one client operation signature.
fn emit_client_op_sig(m: &MethodDescriptor, buf: &mut String)
    ensures
        final(buf)@ == old(buf)@ + client_op_sig(*m),
{
    let ghost base = old(buf)@;
    buf.append("    async fn ");
    buf.append(m.name.as_str());
    buf.append("(&self, req: ");
    buf.append(m.input_type.as_str());
    buf.append(") -> Result<");
    buf.append(m.output_type.as_str());
    buf.append(", twirp::ClientError>");
    proof {
        assert(buf@ =~= base + client_op_sig(*m));
    }
}

/// Appends one operation declaration of the client interface.
fn emit_client_op(m: &MethodDescriptor, buf: &mut String)
    ensures
        final(buf)@ == old(buf)@ + client_op_line(*m),
{
    emit_client_op_sig(m, buf);
    buf.append(";\n");
}

/// Appends the client interface's operation declarations, in descriptor
/// order.
fn emit_client_ops(s: &ServiceDescriptor, buf: &mut String)
    ensures
        final(buf)@ == old(buf)@ + lines_text(client_op_lines(*s)),
{
    let ghost base = old(buf)@;
    let ghost lines = client_op_lines(*s);
    let n = s.methods.len();
    let mut i: usize = 0;
    while i < n
        invariant
            n == s.methods@.len(),
            lines == client_op_lines(*s),
            0 <= i <= n,
            buf@ == base + lines_text(lines.take(i as int)),
        decreases n - i,
    {
        emit_client_op(&s.methods[i], buf);
        proof {
            assert(lines[i as int] == client_op_line(s.methods@[i as int]));
            lemma_lines_text_take_step(lines, i as int);
        }
        i += 1;
    }
    proof {
        assert(lines.take(n as int) =~= lines);
    }
}

/// Appends the client interface.
fn emit_client_trait(s: &ServiceDescriptor, buf: &mut String)
    ensures
        final(buf)@ == old(buf)@ + client_trait_text(*s),
{
    let ghost base = old(buf)@;
    buf.append("\n#[twirp::async_trait::async_trait]\npub trait ");
    buf.append(s.name.as_str());
    buf.append("Client: Send + Sync + std::fmt::Debug {\n");
    emit_client_ops(s, buf);
    buf.append("}\n");
    proof {
        assert(buf@ =~= base + client_trait_text(*s));
    }
}

/// Appends one operation of the client implementation: it computes the
/// request path and hands it, with the request, to the request primitive.
fn emit_client_impl_op(s: &ServiceDescriptor, fqn: &str, m: &MethodDescriptor, buf: &mut String)
    requires
        fqn@ == fqn_text(*s),
    ensures
        final(buf)@ == old(buf)@ + client_impl_op_text(*s, *m),
{
    let ghost base = old(buf)@;
    emit_client_op_sig(m, buf);
    buf.append(" {\n    self.request(\"");
    buf.append(fqn);
    buf.append("/");
    buf.append(m.proto_name.as_str());
    buf.append("\", req).await\n    }\n");
    proof {
        assert(buf@ =~= base + client_impl_op_text(*s, *m));
    }
}

/// Appends the client implementation's operations, in descriptor order.
fn emit_client_impl_ops(s: &ServiceDescriptor, fqn: &str, buf: &mut String)
    requires
        fqn@ == fqn_text(*s),
    ensures
        final(buf)@ == old(buf)@ + lines_text(client_impl_op_lines(*s)),
{
    let ghost base = old(buf)@;
    let ghost lines = client_impl_op_lines(*s);
    let n = s.methods.len();
    let mut i: usize = 0;
    while i < n
        invariant
            fqn@ == fqn_text(*s),
            n == s.methods@.len(),
            lines == client_impl_op_lines(*s),
            0 <= i <= n,
            buf@ == base + lines_text(lines.take(i as int)),
        decreases n - i,
    {
        emit_client_impl_op(s, fqn, &s.methods[i], buf);
        proof {
            assert(lines[i as int] == client_impl_op_text(*s, s.methods@[i as int]));
            lemma_lines_text_take_step(lines, i as int);
        }
        i += 1;
    }
    proof {
        assert(lines.take(n as int) =~= lines);
    }
}

/// Appends the client implementation for the runtime's generic client value.
fn emit_client_impl(s: &ServiceDescriptor, fqn: &str, buf: &mut String)
    requires
        fqn@ == fqn_text(*s),
    ensures
        final(buf)@ == old(buf)@ + client_impl_text(*s),
{
    let ghost base = old(buf)@;
    buf.append("#[twirp::async_trait::async_trait]\nimpl ");
    buf.append(s.name.as_str());
    buf.append("Client for twirp::client::Client {\n");
    emit_client_impl_ops(s, fqn, buf);
    buf.append("}\n");
    proof {
        assert(buf@ =~= base + client_impl_text(*s));
    }
}

/// The binding generator. It holds no state: generation is a pure function
/// of the descriptor.
pub struct ServiceGenerator {}

impl ServiceGenerator {
    /// Appends to `buf` the five artifacts generated for `service`: the
    /// server interface, the shared-ownership adapter, the router function,
    /// the client interface, and the client implementation — exactly the
    /// text [`generated_text`] gives, and nothing else.
    pub fn generate(&mut self, service: &ServiceDescriptor, buf: &mut String)
        ensures
            final(buf)@ == old(buf)@ + generated_text(*service),
    {
        let ghost base = old(buf)@;
        let fqn = service.fqn();
        buf.append("\npub use twirp;\n\n");
        emit_server_trait(service, fqn.as_str(), buf);
        emit_arc_impl(service, buf);
        emit_router_fn(service, buf);
        emit_client_trait(service, buf);
        emit_client_impl(service, fqn.as_str(), buf);
        proof {
            assert(buf@ =~= base + generated_text(*service));
        }
    }
}

/// Builds the service generator to wire into a protobuf build pipeline.
pub fn service_generator() -> (r: Box<ServiceGenerator>)
    ensures
        *r == (ServiceGenerator {}),
{
    Box::new(ServiceGenerator {})
}

} // verus!
