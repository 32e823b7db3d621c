//! A Twirp RPC runtime and service-stub generator.
//!
//! Twirp routes calls over HTTP POST with URL paths of the form
//! `/twirp/<package>.<Service>/<Method>`, carries protobuf-encoded bodies
//! with `Content-Type: application/protobuf`, and reports RPC-level failures
//! as JSON documents with a small fixed schema.
//!
//! The crate is split into the wire runtime (typed request/response
//! envelopes, the Twirp error model, the client and server dispatch steps)
//! and a service generator that turns a parsed protobuf service description
//! into source text for client and server stubs.

pub mod errors;

pub mod json;

pub mod pb;

pub mod service_gen;

pub mod service_run;

pub mod transport;

pub mod wire;

pub use errors::ProstTwirpError;
pub use errors::TwirpError;
pub use service_gen::TwirpServiceGenerator;
pub use service_run::HyperClient;
pub use service_run::HyperServer;
pub use service_run::HyperService;
pub use service_run::ServiceRequest;
pub use service_run::ServiceResponse;
