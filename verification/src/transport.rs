//! Declarations of the HTTP transport's types.
//!
//! The transport performs the actual network I/O, which stays outside the
//! library; these declarations only let its values — a pooled client, a
//! transport error — be carried through the library's own types opaquely.

use vstd::prelude::*;

verus! {

#[verifier::external_type_specification]
#[verifier::external_body]
#[verifier::reject_recursive_types(C)]
#[verifier::reject_recursive_types(B)]
pub struct ExHyperClient<C, B>(hyper::Client<C, B>);

#[verifier::external_type_specification]
#[verifier::external_body]
#[verifier::reject_recursive_types(R)]
pub struct ExHttpConnector<R>(hyper::client::connect::HttpConnector<R>);

#[verifier::external_type_specification]
#[verifier::external_body]
pub struct ExGaiResolver(hyper::client::connect::dns::GaiResolver);

#[verifier::external_type_specification]
#[verifier::external_body]
pub struct ExBody(hyper::Body);

#[verifier::external_type_specification]
#[verifier::external_body]
pub struct ExHyperError(hyper::Error);

#[verifier::external_type_specification]
#[verifier::external_body]
pub struct ExHttpError(hyper::http::Error);

#[verifier::external_type_specification]
#[verifier::external_body]
pub struct ExInvalidUri(hyper::http::uri::InvalidUri);

} // verus!
