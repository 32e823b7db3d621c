//! Client URL normalization and construction.

use prost_twirp::service_run::HyperClient;

#[test]
fn trailing_slash_makes_no_difference() {
    let a = HyperClient::new(hyper::Client::new(), "http://x");
    let b = HyperClient::new(hyper::Client::new(), "http://x/");
    assert_eq!(a.root_url, b.root_url);
    assert_eq!(a.request_url("foo"), b.request_url("foo"));
}

#[test]
fn many_trailing_slashes_are_stripped() {
    let c = HyperClient::new(hyper::Client::new(), "http://x///");
    assert_eq!(c.root_url, "http://x");
}

#[test]
fn leading_slashes_of_the_path_are_stripped() {
    let c = HyperClient::new(hyper::Client::new(), "http://localhost:8080");
    assert_eq!(
        c.request_url("/twirp/a.B/C"),
        "http://localhost:8080/twirp/a.B/C"
    );
    assert_eq!(c.request_url("twirp/a.B/C"), c.request_url("//twirp/a.B/C"));
}
