//! The service generator's emitted text: routing URLs, the interface
//! triple, and the embedded-runtime module.

use prost_twirp::service_gen::{Comments, Method, Service, TwirpServiceGenerator};

fn make_hat_method() -> Method {
    Method {
        name: "make_hat".to_string(),
        proto_name: "MakeHat".to_string(),
        input_type: "Size".to_string(),
        output_type: "Hat".to_string(),
        comments: Comments { leading: vec![" Makes a hat.".to_string()] },
    }
}

fn haberdasher() -> Service {
    Service {
        name: "Haberdasher".to_string(),
        proto_name: "Haberdasher".to_string(),
        package: "twitch.twirp.example".to_string(),
        comments: Comments { leading: vec![" A hat service.".to_string()] },
        methods: vec![make_hat_method()],
    }
}

#[test]
fn method_url_is_exact() {
    let generator = TwirpServiceGenerator::new();
    let url = generator.method_url(&haberdasher(), &make_hat_method());
    assert_eq!(url, "/twirp/twitch.twirp.example.Haberdasher/MakeHat");
}

#[test]
fn generated_code_contains_the_interface_triple() {
    let mut generator = TwirpServiceGenerator::new();
    let mut buf = String::new();
    generator.generate(&haberdasher(), &mut buf);
    assert!(buf.contains("pub use ::prost_twirp::ServiceRequest;"));
    assert!(buf.contains("pub use prost_twirp_transport::PTRes;"));
    assert!(buf.contains("pub mod prost_twirp_transport {"));
    assert!(buf.contains("use ::prost_twirp::{HyperClient, ProstTwirpError, ServiceRequest, ServiceResponse};"));
    assert!(buf.contains("pub fn go<I, O>(client: &HyperClient, path: &str, req: ServiceRequest<I>) -> PTRes<O>"));
    assert!(buf.contains("pub struct ServeTwirp<H: HyperHandler>(pub ::std::sync::Arc<H>);"));
    assert!(buf.contains("/// A hat service.\npub trait Haberdasher: Send + Sync + 'static {"));
    assert!(buf.contains(
        "    fn make_hat(&self, request: ::prost_twirp::ServiceRequest<Size>) -> PTRes<Hat>;"
    ));
    assert!(buf.contains("impl dyn Haberdasher {"));
    assert!(buf.contains(
        "pub fn new_server<T: Haberdasher>(v: T) -> prost_twirp_transport::ServeTwirp<HaberdasherServer<T>> {"
    ));
    assert!(buf.contains("pub struct HaberdasherClient(pub ::prost_twirp::HyperClient);"));
    assert!(buf.contains(
        "prost_twirp_transport::go(&self.0, \"/twirp/twitch.twirp.example.Haberdasher/MakeHat\", request)"
    ));
    assert!(buf.contains("pub struct HaberdasherServer<T: Haberdasher>(pub ::std::sync::Arc<T>);"));
    assert!(buf.contains(
        "impl<T: Haberdasher> prost_twirp_transport::HyperHandler for HaberdasherServer<T> {"
    ));
    assert!(buf.contains("\"/twirp/twitch.twirp.example.Haberdasher/MakeHat\" => Box::pin(async move {"));
    assert!(buf.contains("ProstTwirpError::NotFound.into_hyper_response().unwrap()"));
}

#[test]
fn embed_mode_rewrites_the_runtime_path() {
    let mut generator = TwirpServiceGenerator::new();
    generator.embed_client = true;
    let mut buf = String::new();
    generator.generate(&haberdasher(), &mut buf);
    assert!(buf.contains("pub use prost_twirp::ServiceRequest;"));
    assert!(buf.contains("use super::prost_twirp::{HyperClient, ProstTwirpError, ServiceRequest, ServiceResponse};"));
    assert!(buf.contains("prost_twirp::HyperClient::new(client, root_url)"));
    assert!(!buf.contains("::prost_twirp::HyperClient::new"));
}

#[test]
fn finalize_embeds_nothing_by_default() {
    let generator = TwirpServiceGenerator::new();
    let mut buf = String::from("before");
    generator.finalize("mod x {}\n", &mut buf);
    assert_eq!(buf, "before");
}

#[test]
fn finalize_embeds_the_runtime_module_indented() {
    let mut generator = TwirpServiceGenerator::new();
    generator.embed_client = true;
    let mut buf = String::new();
    generator.finalize("use x;\n\nfn f() {}\n", &mut buf);
    assert_eq!(
        buf,
        "\n/// Embedded runtime module.\n#[allow(dead_code)]\nmod prost_twirp {\n    use x;\n    \n    fn f() {}\n\n}\n"
    );
}

#[test]
fn finalize_handles_a_source_without_final_newline() {
    let mut generator = TwirpServiceGenerator::new();
    generator.embed_client = true;
    let mut buf = String::new();
    generator.finalize("a\nb", &mut buf);
    assert_eq!(
        buf,
        "\n/// Embedded runtime module.\n#[allow(dead_code)]\nmod prost_twirp {\n    a\n    b\n\n}\n"
    );
}

#[test]
fn transport_support_is_emitted_once_per_run() {
    let mut generator = TwirpServiceGenerator::new();
    let mut buf = String::new();
    generator.generate(&haberdasher(), &mut buf);
    generator.generate(&haberdasher(), &mut buf);
    assert_eq!(buf.matches("pub use ::prost_twirp::ServiceRequest;").count(), 1);
    assert_eq!(buf.matches("pub mod prost_twirp_transport {").count(), 1);
    assert_eq!(buf.matches("impl dyn Haberdasher {").count(), 2);
}

#[test]
fn two_methods_emit_two_arms_in_order() {
    let other = Method {
        name: "trim_hat".to_string(),
        proto_name: "TrimHat".to_string(),
        input_type: "Hat".to_string(),
        output_type: "Hat".to_string(),
        comments: Comments { leading: vec![] },
    };
    let mut service = haberdasher();
    service.comments = Comments { leading: vec![] };
    service.methods.push(other);
    let mut generator = TwirpServiceGenerator::new();
    let mut buf = String::new();
    generator.generate(&service, &mut buf);
    let first = buf.find("/twirp/twitch.twirp.example.Haberdasher/MakeHat").unwrap();
    let second = buf.find("/twirp/twitch.twirp.example.Haberdasher/TrimHat").unwrap();
    assert!(first < second);
    assert!(buf.contains("fn trim_hat(&self, request: ::prost_twirp::ServiceRequest<Hat>) -> PTRes<Hat>;"));
}
