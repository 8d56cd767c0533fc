use twirp_build::MethodDescriptor;
use twirp_build::ServiceDescriptor;
use twirp_build::ServiceGenerator;
use twirp_build::service_generator;

fn method(name: &str, proto_name: &str, input_type: &str, output_type: &str) -> MethodDescriptor {
    MethodDescriptor {
        name: name.to_string(),
        proto_name: proto_name.to_string(),
        input_type: input_type.to_string(),
        output_type: output_type.to_string(),
    }
}

fn greeter() -> ServiceDescriptor {
    ServiceDescriptor {
        name: "Greeter".to_string(),
        package: "example".to_string(),
        proto_name: "Greeter".to_string(),
        methods: vec![method("SayHello", "SayHello", "HelloRequest", "HelloResponse")],
    }
}

fn haberdasher() -> ServiceDescriptor {
    ServiceDescriptor {
        name: "Haberdasher".to_string(),
        package: "twitch.twirp.example".to_string(),
        proto_name: "Haberdasher".to_string(),
        methods: vec![
            method("make_hat", "MakeHat", "Size", "Hat"),
            method("get_status", "GetStatus", "StatusRequest", "StatusResponse"),
            method("dye_hat", "DyeHat", "DyeRequest", "Hat"),
        ],
    }
}

fn generate(s: &ServiceDescriptor) -> String {
    let mut generator = service_generator();
    let mut buf = String::new();
    generator.generate(s, &mut buf);
    buf
}

fn count(haystack: &str, needle: &str) -> usize {
    haystack.matches(needle).count()
}

#[test]
fn concrete_scenario_greeter_snapshot() {
    let expected: String = [
        "\npub use twirp;\n\n",
        "#[twirp::async_trait::async_trait]\n",
        "pub trait Greeter {\n",
        "    type Error;\n",
        "fn service_fqn(&self) -> &'static str { \"/example.Greeter\" }\n",
        "    async fn SayHello(&self, ctx: twirp::Context, req: HelloRequest) -> Result<HelloResponse, Self::Error>;\n",
        "}\n",
        "#[twirp::async_trait::async_trait]\n",
        "impl<T> Greeter for std::sync::Arc<T>\n",
        "where\n",
        "    T: Greeter + Sync + Send\n",
        "{\n",
        "    type Error = T::Error;\n\n",
        "    async fn SayHello(&self, ctx: twirp::Context, req: HelloRequest) -> Result<HelloResponse, Self::Error> {\n",
        "        T::SayHello(&*self, ctx, req).await\n",
        "    }\n",
        "}\n",
        "pub fn router<T>(api: T) -> twirp::Router\n",
        "where\n",
        "    T: Greeter + Clone + Send + Sync + 'static,\n",
        "    <T as Greeter>::Error: twirp::IntoTwirpResponse,\n",
        "{\n",
        "    twirp::details::TwirpRouterBuilder::new(api)\n",
        "        .route(\"/SayHello\", |api: T, ctx: twirp::Context, req: HelloRequest| async move {\n",
        "            api.SayHello(ctx, req).await\n",
        "        })\n",
        "\n        .build()\n",
        "}\n",
        "\n#[twirp::async_trait::async_trait]\n",
        "pub trait GreeterClient: Send + Sync + std::fmt::Debug {\n",
        "    async fn SayHello(&self, req: HelloRequest) -> Result<HelloResponse, twirp::ClientError>;\n",
        "}\n",
        "#[twirp::async_trait::async_trait]\n",
        "impl GreeterClient for twirp::client::Client {\n",
        "    async fn SayHello(&self, req: HelloRequest) -> Result<HelloResponse, twirp::ClientError> {\n",
        "    self.request(\"example.Greeter/SayHello\", req).await\n",
        "    }\n",
        "}\n",
    ].concat();
    assert_eq!(generate(&greeter()), expected);
}

#[test]
fn concrete_scenario_greeter_bindings() {
    let s = greeter();
    assert_eq!(s.fqn(), "example.Greeter");
    let out = generate(&s);
    assert!(out.contains("fn service_fqn(&self) -> &'static str { \"/example.Greeter\" }"));
    assert_eq!(count(&out, ".route(\"/SayHello\""), 1);
    assert_eq!(count(&out, "self.request(\"example.Greeter/SayHello\", req).await"), 1);
    assert!(out.contains(
        "async fn SayHello(&self, ctx: twirp::Context, req: HelloRequest) -> Result<HelloResponse, Self::Error>;"
    ));
    assert!(out.contains(
        "async fn SayHello(&self, req: HelloRequest) -> Result<HelloResponse, twirp::ClientError>;"
    ));
}

#[test]
fn zero_method_descriptor_snapshot() {
    let s = ServiceDescriptor {
        name: "Empty".to_string(),
        package: "p".to_string(),
        proto_name: "Empty".to_string(),
        methods: vec![],
    };
    let expected: String = [
        "\npub use twirp;\n\n",
        "#[twirp::async_trait::async_trait]\n",
        "pub trait Empty {\n",
        "    type Error;\n",
        "fn service_fqn(&self) -> &'static str { \"/p.Empty\" }\n",
        "}\n",
        "#[twirp::async_trait::async_trait]\n",
        "impl<T> Empty for std::sync::Arc<T>\n",
        "where\n",
        "    T: Empty + Sync + Send\n",
        "{\n",
        "    type Error = T::Error;\n\n",
        "}\n",
        "pub fn router<T>(api: T) -> twirp::Router\n",
        "where\n",
        "    T: Empty + Clone + Send + Sync + 'static,\n",
        "    <T as Empty>::Error: twirp::IntoTwirpResponse,\n",
        "{\n",
        "    twirp::details::TwirpRouterBuilder::new(api)\n",
        "\n        .build()\n",
        "}\n",
        "\n#[twirp::async_trait::async_trait]\n",
        "pub trait EmptyClient: Send + Sync + std::fmt::Debug {\n",
        "}\n",
        "#[twirp::async_trait::async_trait]\n",
        "impl EmptyClient for twirp::client::Client {\n",
        "}\n",
    ].concat();
    let out = generate(&s);
    assert_eq!(out, expected);
    assert_eq!(count(&out, "async fn"), 0);
    assert_eq!(count(&out, ".route("), 0);
    assert_eq!(count(&out, "fn service_fqn"), 1);
}

#[test]
fn generation_is_deterministic() {
    let first = generate(&haberdasher());
    let second = generate(&haberdasher());
    assert_eq!(first, second);
}

#[test]
fn generation_appends_after_existing_content() {
    let mut buf = "// existing content\n".to_string();
    let mut generator = ServiceGenerator {};
    generator.generate(&greeter(), &mut buf);
    assert!(buf.starts_with("// existing content\n"));
    assert_eq!(&buf["// existing content\n".len()..], generate(&greeter()));
}

#[test]
fn server_interface_declares_one_operation_per_method() {
    let s = haberdasher();
    let out = generate(&s);
    // Per method: one declaration in the server interface (ending in `;`)
    // and one definition in the shared-ownership adapter (opening a body).
    for m in &s.methods {
        let sig = format!(
            "    async fn {}(&self, ctx: twirp::Context, req: {}) -> Result<{}, Self::Error>",
            m.name, m.input_type, m.output_type
        );
        assert_eq!(count(&out, &format!("{sig};\n")), 1);
        assert_eq!(count(&out, &format!("{sig} {{\n")), 1);
    }
    assert_eq!(count(&out, "    async fn "), 4 * s.methods.len());
    assert_eq!(count(&out, "fn service_fqn"), 1);
}

#[test]
fn route_paths_match_between_router_and_client() {
    let s = haberdasher();
    let fqn = s.fqn();
    assert_eq!(fqn, "twitch.twirp.example.Haberdasher");
    let out = generate(&s);
    for m in &s.methods {
        let canonical = format!("/{}/{}", fqn, m.proto_name);
        let registered = format!("/{}", m.proto_name);
        let requested = format!("{}/{}", fqn, m.proto_name);
        // The router's full path is the generated fqn accessor's value plus
        // the registered segment; the client's is requested, resolved
        // against a base path ending in "/".
        assert_eq!(format!("/{fqn}{registered}"), canonical);
        assert_eq!(format!("/{requested}"), canonical);
        assert_eq!(count(&out, &format!(".route(\"{registered}\"")), 1);
        assert_eq!(count(&out, &format!("self.request(\"{requested}\", req).await")), 1);
    }
}

#[test]
fn delegation_forwards_every_operation() {
    let s = haberdasher();
    let out = generate(&s);
    for m in &s.methods {
        assert_eq!(count(&out, &format!("        T::{}(&*self, ctx, req).await\n", m.name)), 1);
    }
}

#[test]
fn method_order_is_preserved_in_all_artifacts() {
    let s = haberdasher();
    let out = generate(&s);
    let mut server_decl: Vec<usize> = vec![];
    let mut adapter: Vec<usize> = vec![];
    let mut routes: Vec<usize> = vec![];
    let mut client_decl: Vec<usize> = vec![];
    let mut client_impl: Vec<usize> = vec![];
    for m in &s.methods {
        let sig = format!("    async fn {}(&self, ctx", m.name);
        server_decl.push(out.find(&sig).unwrap());
        adapter.push(out.find(&format!("T::{}(", m.name)).unwrap());
        routes.push(out.find(&format!(".route(\"/{}\"", m.proto_name)).unwrap());
        client_decl.push(out.find(&format!("    async fn {}(&self, req", m.name)).unwrap());
        client_impl.push(out.rfind(&format!("    async fn {}(&self, req", m.name)).unwrap());
    }
    for positions in [&server_decl, &adapter, &routes, &client_decl, &client_impl] {
        for window in positions.windows(2) {
            assert!(window[0] < window[1]);
        }
    }
}

#[test]
fn one_generator_serves_many_services() {
    let mut generator = service_generator();
    let mut buf = String::new();
    generator.generate(&greeter(), &mut buf);
    generator.generate(&haberdasher(), &mut buf);
    let expected = format!("{}{}", generate(&greeter()), generate(&haberdasher()));
    assert_eq!(buf, expected);
}
