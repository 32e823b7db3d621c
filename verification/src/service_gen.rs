//! The service generator: turns a parsed protobuf service description into
//! source text for a service trait, a client stub, and a server adapter on
//! top of the wire runtime, together with a transport-support module that
//! carries the generated code's asynchronous boundary (the response-future
//! alias, the hyper conversions, the dispatcher, and the service wrapper).
//!
//! The generator works by string concatenation; every emitted piece of
//! text is pinned down by a spec function, and the routing URL in
//! particular is exact: `/twirp/<package>.<Service>/<Method>`.

use vstd::prelude::*;

verus! {

/// The comment lines of a service or method, as the description's source
/// gives them; each becomes one `///` line in the generated text.
#[derive(Debug)]
pub struct Comments {
    pub leading: Vec<String>,
}

/// One rpc of a service, as parsed from a protobuf service definition.
#[derive(Debug)]
pub struct Method {
    /// The method name in Rust style.
    pub name: String,
    /// The method name as it appears in the proto source.
    pub proto_name: String,
    /// The Rust type of the request message.
    pub input_type: String,
    /// The Rust type of the response message.
    pub output_type: String,
    /// The method's doc comments.
    pub comments: Comments,
}

/// A parsed protobuf service definition.
#[derive(Debug)]
pub struct Service {
    /// The service name in Rust style.
    pub name: String,
    /// The service name as it appears in the proto source.
    pub proto_name: String,
    /// The proto package the service belongs to.
    pub package: String,
    /// The service's doc comments.
    pub comments: Comments,
    /// The service's methods, in order.
    pub methods: Vec<Method>,
}

/// A service generator that emits a Twirp client and server on top of this
/// crate's runtime.
#[derive(Debug)]
pub struct TwirpServiceGenerator {
    /// When set, generated cross-references to the runtime point at a
    /// local module `prost_twirp` (to be embedded by `finalize`) instead
    /// of the external crate.
    pub embed_client: bool,
    /// Whether the transport-support block has been emitted; it is
    /// emitted at most once per generator run.
    pub support_emitted: bool,
}

/// The view of a comment block: one character sequence per line.
pub open spec fn lines_of(c: Comments) -> Seq<Seq<char>> {
    c.leading@.map_values(|s: String| s@)
}

/// The path under which generated code reaches the runtime: the local
/// module when the runtime is embedded, the external crate otherwise.
pub open spec fn mod_path_text(embed: bool) -> Seq<char> {
    if embed {
        "prost_twirp"@
    } else {
        "::prost_twirp"@
    }
}

/// Four spaces per indent level.
pub open spec fn indent_text(level: nat) -> Seq<char>
    decreases level,
{
    if level == 0 {
        Seq::empty()
    } else {
        "    "@ + indent_text((level - 1) as nat)
    }
}

/// A block of doc-comment lines, each indented and introduced by `///`.
pub open spec fn comment_lines_text(lines: Seq<Seq<char>>, level: nat) -> Seq<char>
    decreases lines.len(),
{
    if lines.len() == 0 {
        Seq::empty()
    } else {
        indent_text(level) + "///"@ + lines[0] + "\n"@ + comment_lines_text(
            lines.subrange(1, lines.len() as int),
            level,
        )
    }
}

/// The signature of one generated trait method.
pub open spec fn method_sig_text(mp: Seq<char>, m: Method) -> Seq<char> {
    "fn "@ + m.name@ + "(&self, request: "@ + mp + "::ServiceRequest<"@ + m.input_type@
        + ">) -> PTRes<"@ + m.output_type@ + ">"@
}

/// The routing URL of one method: `/twirp/<package>.<Service>/<Method>`,
/// built from the proto names, with no trailing slash.
pub open spec fn method_url_text(package: Seq<char>, service_proto: Seq<char>, method_proto: Seq<
    char,
>) -> Seq<char> {
    "/twirp/"@ + package + "."@ + service_proto + "/"@ + method_proto
}

/// The runtime path as the transport-support module names it: relative to
/// the generated module in embedded mode, the external crate otherwise.
pub open spec fn support_path_text(embed: bool) -> Seq<char> {
    if embed {
        "super::prost_twirp"@
    } else {
        "::prost_twirp"@
    }
}

/// The body of the emitted transport-support module: the response-future
/// alias `PTRes`, the conversions between hyper values and the runtime's
/// wire values, the client dispatcher `go`, the `HyperHandler` seam that
/// generated server adapters implement, and the `ServeTwirp` wrapper that
/// serves a handler as a hyper `Service`, translating errors by the
/// runtime's table.
pub const TRANSPORT_SUPPORT_BODY: &'static str = "    /// The type of every service response future.
    pub type PTRes<O> = ::std::pin::Pin<Box<dyn ::std::future::Future<Output = Result<ServiceResponse<O>, ProstTwirpError>> + Send + 'static>>;

    fn version_from_hyper(v: ::hyper::Version) -> HttpVersion {
        match v {
            ::hyper::Version::HTTP_09 => HttpVersion::Http09,
            ::hyper::Version::HTTP_10 => HttpVersion::Http10,
            ::hyper::Version::HTTP_2 => HttpVersion::H2,
            ::hyper::Version::HTTP_3 => HttpVersion::H3,
            _ => HttpVersion::Http11,
        }
    }

    fn version_to_hyper(v: HttpVersion) -> ::hyper::Version {
        match v {
            HttpVersion::Http09 => ::hyper::Version::HTTP_09,
            HttpVersion::Http10 => ::hyper::Version::HTTP_10,
            HttpVersion::Http11 => ::hyper::Version::HTTP_11,
            HttpVersion::H2 => ::hyper::Version::HTTP_2,
            HttpVersion::H3 => ::hyper::Version::HTTP_3,
        }
    }

    fn headers_from_hyper(map: &::hyper::HeaderMap) -> Headers {
        let mut entries = Vec::new();
        for (name, value) in map.iter() {
            entries.push((name.as_str().to_string(), String::from_utf8_lossy(value.as_bytes()).into_owned()));
        }
        Headers { entries }
    }

    fn headers_to_hyper(headers: &Headers) -> ::hyper::HeaderMap {
        let mut map = ::hyper::HeaderMap::new();
        for (name, value) in &headers.entries {
            if let (Ok(n), Ok(v)) = (::hyper::header::HeaderName::from_bytes(name.as_bytes()), ::hyper::header::HeaderValue::from_str(value)) {
                map.append(n, v);
            }
        }
        map
    }

    /// Reads a whole hyper request, body included, into the runtime's wire form.
    pub async fn read_hyper_request(req: ::hyper::Request<::hyper::Body>) -> Result<HttpRequest, ProstTwirpError> {
        let (parts, body) = req.into_parts();
        let bytes = ::hyper::body::to_bytes(body).await.map_err(ProstTwirpError::HyperError)?;
        Ok(HttpRequest {
            method: parts.method.as_str().to_string(),
            uri: parts.uri.path().to_string(),
            version: version_from_hyper(parts.version),
            headers: headers_from_hyper(&parts.headers),
            body: bytes.to_vec(),
        })
    }

    /// Reads a whole hyper response, body included, into the runtime's wire form.
    pub async fn read_hyper_response(resp: ::hyper::Response<::hyper::Body>) -> Result<HttpResponse, ProstTwirpError> {
        let (parts, body) = resp.into_parts();
        let bytes = ::hyper::body::to_bytes(body).await.map_err(ProstTwirpError::HyperError)?;
        Ok(HttpResponse {
            status: parts.status.as_u16(),
            version: version_from_hyper(parts.version),
            headers: headers_from_hyper(&parts.headers),
            body: bytes.to_vec(),
        })
    }

    /// Builds a hyper request from the runtime's wire form.
    pub fn write_hyper_request(req: HttpRequest) -> Result<::hyper::Request<::hyper::Body>, ProstTwirpError> {
        let uri: ::hyper::Uri = req.uri.parse().map_err(ProstTwirpError::InvalidUri)?;
        let mut builder = ::hyper::Request::builder().method(req.method.as_str()).uri(uri).version(version_to_hyper(req.version));
        if let Some(headers) = builder.headers_mut() {
            *headers = headers_to_hyper(&req.headers);
        }
        builder.body(::hyper::Body::from(req.body)).map_err(ProstTwirpError::HttpError)
    }

    /// Builds a hyper response from the runtime's wire form.
    pub fn write_hyper_response(resp: HttpResponse) -> Result<::hyper::Response<::hyper::Body>, ProstTwirpError> {
        let mut builder = ::hyper::Response::builder().status(resp.status).version(version_to_hyper(resp.version));
        if let Some(headers) = builder.headers_mut() {
            *headers = headers_to_hyper(&resp.headers);
        }
        builder.body(::hyper::Body::from(resp.body)).map_err(ProstTwirpError::HttpError)
    }

    /// Invokes the given request under the client's root URL and the given
    /// rpc path: serializes, sends, and decodes the response or error.
    pub fn go<I, O>(client: &HyperClient, path: &str, req: ServiceRequest<I>) -> PTRes<O>
    where
        I: ::prost::Message + Default + 'static,
        O: ::prost::Message + Default + 'static,
    {
        let url = client.request_url(path);
        let mut wire = match req.to_hyper_request() {
            Ok(w) => w,
            Err(e) => return Box::pin(::std::future::ready(Err(e))),
        };
        wire.uri = url;
        let hyper_req = match write_hyper_request(wire) {
            Ok(r) => r,
            Err(e) => return Box::pin(::std::future::ready(Err(e))),
        };
        let sending = client.client.request(hyper_req);
        Box::pin(async move {
            let resp = sending.await.map_err(ProstTwirpError::HyperError)?;
            let wire_resp = read_hyper_response(resp).await?;
            ServiceResponse::from_hyper_response(wire_resp)
        })
    }

    /// The transport-level seam of a generated server adapter: a raw
    /// request in, a future of a raw response or the error to report.
    pub trait HyperHandler: Send + Sync + 'static {
        fn handle(&self, req: ::hyper::Request<::hyper::Body>) -> ::std::pin::Pin<Box<dyn ::std::future::Future<Output = Result<::hyper::Response<::hyper::Body>, ProstTwirpError>> + Send + 'static>>;
    }

    /// Serves a handler as a hyper `Service`, translating every reported
    /// error into the Twirp JSON format.
    pub struct ServeTwirp<H: HyperHandler>(pub ::std::sync::Arc<H>);

    impl<H: HyperHandler> ::hyper::service::Service<::hyper::Request<::hyper::Body>> for ServeTwirp<H> {
        type Response = ::hyper::Response<::hyper::Body>;
        type Error = ::hyper::Error;
        type Future = ::std::pin::Pin<Box<dyn ::std::future::Future<Output = Result<Self::Response, Self::Error>> + Send>>;

        fn poll_ready(&mut self, _context: &mut ::std::task::Context<'_>) -> ::std::task::Poll<Result<(), Self::Error>> {
            ::std::task::Poll::Ready(Ok(()))
        }

        fn call(&mut self, req: ::hyper::Request<::hyper::Body>) -> Self::Future {
            let handler = ::std::sync::Arc::clone(&self.0);
            Box::pin(async move {
                match handler.handle(req).await {
                    Ok(resp) => Ok(resp),
                    Err(e) => match e.into_hyper_response() {
                        Ok(wire) => Ok(write_hyper_response(wire).expect(\"failed to serialize twirp error\")),
                        Err(transport) => Err(transport),
                    },
                }
            })
        }
    }
";

/// The transport-support block emitted once per run: the runtime
/// re-exports and the support module beside the stubs.
pub open spec fn support_text(mp: Seq<char>, mpi: Seq<char>) -> Seq<char> {
    "pub use "@ + mp
        + "::ServiceRequest;\npub use prost_twirp_transport::PTRes;\n\n/// Transport plumbing for the generated stubs.\n#[allow(dead_code)]\npub mod prost_twirp_transport {\n    use "@
        + mpi + "::{HyperClient, ProstTwirpError, ServiceRequest, ServiceResponse};\n    use "@
        + mpi + "::wire::{Headers, HttpRequest, HttpResponse, HttpVersion};\n\n"@
        + TRANSPORT_SUPPORT_BODY@ + "}\n"@
}

/// One method's entry in the generated service trait.
pub open spec fn trait_method_text(mp: Seq<char>, m: Method) -> Seq<char> {
    "\n"@ + comment_lines_text(lines_of(m.comments), 1) + "    "@ + method_sig_text(mp, m) + ";\n"@
}

/// The method entries of the generated service trait, in order.
pub open spec fn trait_methods_text(mp: Seq<char>, ms: Seq<Method>) -> Seq<char>
    decreases ms.len(),
{
    if ms.len() == 0 {
        Seq::empty()
    } else {
        trait_method_text(mp, ms[0]) + trait_methods_text(mp, ms.subrange(1, ms.len() as int))
    }
}

/// The generated service trait.
pub open spec fn main_trait_text(mp: Seq<char>, s: Service) -> Seq<char> {
    "\n"@ + comment_lines_text(lines_of(s.comments), 0) + "pub trait "@ + s.name@
        + ": Send + Sync + 'static {"@ + trait_methods_text(mp, s.methods@) + "}\n"@
}

/// The generated constructor namespace: `new_client` wrapping the runtime
/// client and `new_server` wrapping a service impl.
pub open spec fn main_impl_text(mp: Seq<char>, s: Service) -> Seq<char> {
    "\nimpl dyn "@ + s.name@ + " {\n    /// Construct a new client stub for the service.\n    #[allow(dead_code)]\n    pub fn new_client(client: ::hyper::Client<::hyper::client::HttpConnector, ::hyper::Body>, root_url: &str) -> Box<dyn "@
        + s.name@ + "> {\n        Box::new("@ + s.name@ + "Client("@ + mp
        + "::HyperClient::new(client, root_url)))\n    }\n\n    /// Make a new server for the service: a hyper `Service` that\n    /// routes to the implementation in `v`.\n    #[allow(dead_code)]\n    pub fn new_server<T: "@
        + s.name@ + ">(v: T) -> prost_twirp_transport::ServeTwirp<"@ + s.name@
        + "Server<T>> {\n        prost_twirp_transport::ServeTwirp(::std::sync::Arc::new("@
        + s.name@ + "Server(::std::sync::Arc::new(v))))\n    }\n}\n"@
}

/// One method of the generated client stub: the trait method forwarded to
/// the runtime dispatcher under the method's routing URL.
pub open spec fn client_method_text(mp: Seq<char>, s: Service, m: Method) -> Seq<char> {
    "    "@ + method_sig_text(mp, m) + " {\n        prost_twirp_transport::go(&self.0, \""@
        + method_url_text(s.package@, s.proto_name@, m.proto_name@) + "\", request)\n    }\n"@
}

/// The methods of the generated client stub, in order.
pub open spec fn client_methods_text(mp: Seq<char>, s: Service, ms: Seq<Method>) -> Seq<char>
    decreases ms.len(),
{
    if ms.len() == 0 {
        Seq::empty()
    } else {
        client_method_text(mp, s, ms[0]) + client_methods_text(
            mp,
            s,
            ms.subrange(1, ms.len() as int),
        )
    }
}

/// The generated client stub: a struct holding the runtime client, with
/// the service trait implemented by dispatching each method.
pub open spec fn client_text(mp: Seq<char>, s: Service) -> Seq<char> {
    "\npub struct "@ + s.name@ + "Client(pub "@ + mp + "::HyperClient);\n\nimpl "@ + s.name@
        + " for "@ + s.name@ + "Client {\n"@ + client_methods_text(mp, s, s.methods@) + "}\n"@
}

/// One match arm of the generated server adapter: the method's routing URL
/// dispatched to decode, invoke and encode.
pub open spec fn server_arm_text(mp: Seq<char>, s: Service, m: Method) -> Seq<char> {
    "            \""@ + method_url_text(s.package@, s.proto_name@, m.proto_name@)
        + "\" => Box::pin(async move {\n                let wire = prost_twirp_transport::read_hyper_request(req).await?;\n                let request = "@
        + mp
        + "::ServiceRequest::from_hyper_request(wire)?;\n                let response = static_service."@
        + m.name@
        + "(request).await?;\n                prost_twirp_transport::write_hyper_response(response.to_hyper_response()?)\n            }),\n"@
}

/// The match arms of the generated server adapter, in order.
pub open spec fn server_arms_text(mp: Seq<char>, s: Service, ms: Seq<Method>) -> Seq<char>
    decreases ms.len(),
{
    if ms.len() == 0 {
        Seq::empty()
    } else {
        server_arm_text(mp, s, ms[0]) + server_arms_text(mp, s, ms.subrange(1, ms.len() as int))
    }
}

/// The generated server adapter: a struct sharing the user impl, with the
/// runtime's service seam implemented by routing on the request path.
pub open spec fn server_text(mp: Seq<char>, s: Service) -> Seq<char> {
    "\npub struct "@ + s.name@ + "Server<T: "@ + s.name@
        + ">(pub ::std::sync::Arc<T>);\n\nimpl<T: "@ + s.name@
        + "> prost_twirp_transport::HyperHandler for "@ + s.name@
        + "Server<T> {\n    fn handle(&self, req: ::hyper::Request<::hyper::Body>) -> ::std::pin::Pin<Box<dyn ::std::future::Future<Output = Result<::hyper::Response<::hyper::Body>, "@
        + mp
        + "::ProstTwirpError>> + Send + 'static>> {\n        let static_service = ::std::sync::Arc::clone(&self.0);\n        match req.uri().path() {\n"@
        + server_arms_text(mp, s, s.methods@)
        + "            _ => Box::pin(::std::future::ready(\n                prost_twirp_transport::write_hyper_response("@
        + mp
        + "::ProstTwirpError::NotFound.into_hyper_response().unwrap())\n            )),\n        }\n    }\n}\n"@
}

/// Everything emitted for one service, in order: the runtime re-exports
/// (on the run's first service only), the service trait, the constructor
/// namespace, the client stub, and the server adapter.
pub open spec fn generate_text(embed: bool, first: bool, s: Service) -> Seq<char> {
    (if first {
        support_text(mod_path_text(embed), support_path_text(embed))
    } else {
        Seq::<char>::empty()
    }) + main_trait_text(mod_path_text(embed), s) + main_impl_text(mod_path_text(embed), s)
        + client_text(mod_path_text(embed), s) + server_text(mod_path_text(embed), s)
}

/// The embedded runtime source with every line break followed by one
/// indent, so the whole source sits one level deep inside the emitted
/// module.
pub open spec fn indent_breaks(s: Seq<char>) -> Seq<char>
    decreases s.len(),
{
    if s.len() == 0 {
        Seq::empty()
    } else if s[0] == '\n' {
        "\n    "@ + indent_breaks(s.subrange(1, s.len() as int))
    } else {
        seq![s[0]] + indent_breaks(s.subrange(1, s.len() as int))
    }
}

/// The body of the embedded module: the source, without one final line
/// break, indented one level, and closed with a line break. An empty
/// source embeds as nothing.
pub open spec fn embedded_body_text(src: Seq<char>) -> Seq<char> {
    if src.len() == 0 {
        Seq::empty()
    } else {
        let core = if src[src.len() - 1] == '\n' {
            src.drop_last()
        } else {
            src
        };
        "    "@ + indent_breaks(core) + "\n"@
    }
}

/// Everything `finalize` emits in embedded-runtime mode: the runtime
/// source as a local module named `prost_twirp`.
pub open spec fn embedded_module_text(src: Seq<char>) -> Seq<char> {
    "\n/// Embedded runtime module.\n#[allow(dead_code)]\nmod prost_twirp {\n"@
        + embedded_body_text(src) + "\n}\n"@
}

/// Splitting the input at any point splits the transformation: indenting
/// line breaks is per-character.
proof fn lemma_indent_breaks_concat(s: Seq<char>, t: Seq<char>)
    ensures
        indent_breaks(s + t) == indent_breaks(s) + indent_breaks(t),
    decreases s.len(),
{
    if s.len() == 0 {
        assert(s + t =~= t);
        assert(indent_breaks(s) + indent_breaks(t) =~= indent_breaks(t));
    } else {
        lemma_indent_breaks_concat(s.subrange(1, s.len() as int), t);
        let whole = s + t;
        assert(whole[0] == s[0]);
        assert(whole.subrange(1, whole.len() as int) =~= s.subrange(1, s.len() as int) + t);
        if s[0] == '\n' {
            assert("\n    "@ + (indent_breaks(s.subrange(1, s.len() as int)) + indent_breaks(t))
                =~= ("\n    "@ + indent_breaks(s.subrange(1, s.len() as int))) + indent_breaks(t));
        } else {
            assert(seq![s[0]] + (indent_breaks(s.subrange(1, s.len() as int)) + indent_breaks(t))
                =~= (seq![s[0]] + indent_breaks(s.subrange(1, s.len() as int))) + indent_breaks(t));
        }
    }
}

/// A stretch with no line break passes through the transformation
/// unchanged.
proof fn lemma_indent_breaks_plain(s: Seq<char>)
    requires
        forall|j: int| 0 <= j < s.len() ==> s[j] != '\n',
    ensures
        indent_breaks(s) == s,
    decreases s.len(),
{
    if s.len() > 0 {
        lemma_indent_breaks_plain(s.subrange(1, s.len() as int));
        assert(seq![s[0]] + s.subrange(1, s.len() as int) =~= s);
    }
}

/// Appends `level` four-space indents.
fn append_indent(buf: &mut String, level: usize)
    ensures
        final(buf)@ == old(buf)@ + indent_text(level as nat),
{
    let ghost buf0 = buf@;
    let mut j: usize = 0;
    while j < level
        invariant
            j <= level,
            buf0 + indent_text(level as nat) == buf@ + indent_text((level - j) as nat),
        decreases level - j,
    {
        buf.append("    ");
        proof {
            assert((buf@ + "    "@) + indent_text((level - j - 1) as nat) =~= buf@ + ("    "@
                + indent_text((level - j - 1) as nat)));
        }
        j += 1;
    }
    proof {
        assert(buf@ + indent_text(0) =~= buf@);
    }
}

/// Appends a block of doc-comment lines at the given indent level.
fn append_comments(buf: &mut String, comments: &Comments, level: usize)
    ensures
        final(buf)@ == old(buf)@ + comment_lines_text(lines_of(*comments), level as nat),
{
    let ghost buf0 = buf@;
    let ghost all = lines_of(*comments);
    let n = comments.leading.len();
    let mut i: usize = 0;
    proof {
        assert(all.subrange(0, all.len() as int) =~= all);
    }
    while i < n
        invariant
            i <= n,
            n == comments.leading.len(),
            all == lines_of(*comments),
            buf0 + comment_lines_text(all, level as nat) == buf@ + comment_lines_text(
                all.subrange(i as int, all.len() as int),
                level as nat,
            ),
        decreases n - i,
    {
        let ghost buf_pre = buf@;
        let ghost rest = all.subrange(i as int, all.len() as int);
        append_indent(buf, level);
        buf.append("///");
        buf.append(comments.leading[i].as_str());
        buf.append("\n");
        proof {
            assert(all[i as int] == comments.leading@[i as int]@);
            assert(rest[0] == all[i as int]);
            assert(rest.subrange(1, rest.len() as int) =~= all.subrange(
                i as int + 1,
                all.len() as int,
            ));
            assert(buf_pre + comment_lines_text(rest, level as nat) =~= buf@ + comment_lines_text(
                rest.subrange(1, rest.len() as int),
                level as nat,
            ));
        }
        i += 1;
    }
    proof {
        assert(buf@ + comment_lines_text(
            all.subrange(n as int, all.len() as int),
            level as nat,
        ) =~= buf@);
    }
}

impl Default for TwirpServiceGenerator {
    /// A generator with the embedded-runtime mode off.
    fn default() -> (r: TwirpServiceGenerator)
        ensures
            r.embed_client == false,
            r.support_emitted == false,
    {
        TwirpServiceGenerator { embed_client: false, support_emitted: false }
    }
}

impl TwirpServiceGenerator {
    /// A generator with the embedded-runtime mode off.
    pub fn new() -> (r: TwirpServiceGenerator)
        ensures
            r.embed_client == false,
            r.support_emitted == false,
    {
        Default::default()
    }

    /// The path under which generated code reaches the runtime.
    fn prost_twirp_path(&self) -> (r: &'static str)
        ensures
            r@ == mod_path_text(self.embed_client),
    {
        if self.embed_client {
            "prost_twirp"
        } else {
            "::prost_twirp"
        }
    }

    /// The runtime path as the transport-support module names it.
    fn support_path(&self) -> (r: &'static str)
        ensures
            r@ == support_path_text(self.embed_client),
    {
        if self.embed_client {
            "super::prost_twirp"
        } else {
            "::prost_twirp"
        }
    }

    /// Appends the runtime re-exports and the transport-support module.
    fn generate_support(&self, buf: &mut String)
        ensures
            final(buf)@ == old(buf)@ + support_text(
                mod_path_text(self.embed_client),
                support_path_text(self.embed_client),
            ),
    {
        let mp = self.prost_twirp_path();
        let mpi = self.support_path();
        buf.append("pub use ");
        buf.append(mp);
        buf.append(
            "::ServiceRequest;\npub use prost_twirp_transport::PTRes;\n\n/// Transport plumbing for the generated stubs.\n#[allow(dead_code)]\npub mod prost_twirp_transport {\n    use ",
        );
        buf.append(mpi);
        buf.append("::{HyperClient, ProstTwirpError, ServiceRequest, ServiceResponse};\n    use ");
        buf.append(mpi);
        buf.append("::wire::{Headers, HttpRequest, HttpResponse, HttpVersion};\n\n");
        buf.append(TRANSPORT_SUPPORT_BODY);
        buf.append("}\n");
        proof {
            assert(buf@ =~= old(buf)@ + support_text(
                mod_path_text(self.embed_client),
                support_path_text(self.embed_client),
            ));
        }
    }

    /// Appends one trait method signature (without the trailing
    /// semicolon).
    fn append_method_sig(&self, method: &Method, buf: &mut String)
        ensures
            final(buf)@ == old(buf)@ + method_sig_text(mod_path_text(self.embed_client), *method),
    {
        let mp = self.prost_twirp_path();
        buf.append("fn ");
        buf.append(method.name.as_str());
        buf.append("(&self, request: ");
        buf.append(mp);
        buf.append("::ServiceRequest<");
        buf.append(method.input_type.as_str());
        buf.append(">) -> PTRes<");
        buf.append(method.output_type.as_str());
        buf.append(">");
        proof {
            assert(buf@ =~= old(buf)@ + method_sig_text(
                mod_path_text(self.embed_client),
                *method,
            ));
        }
    }

    /// Appends the generated service trait.
    fn generate_main_trait(&self, service: &Service, buf: &mut String)
        ensures
            final(buf)@ == old(buf)@ + main_trait_text(mod_path_text(self.embed_client), *service),
    {
        let ghost mp = mod_path_text(self.embed_client);
        let ghost buf0 = buf@;
        buf.append("\n");
        append_comments(buf, &service.comments, 0);
        buf.append("pub trait ");
        buf.append(service.name.as_str());
        buf.append(": Send + Sync + 'static {");
        let ghost head = buf@;
        let ghost all = service.methods@;
        let n = service.methods.len();
        let mut i: usize = 0;
        proof {
            assert(all.subrange(0, all.len() as int) =~= all);
        }
        while i < n
            invariant
                i <= n,
                n == service.methods.len(),
                all == service.methods@,
                mp == mod_path_text(self.embed_client),
                head + trait_methods_text(mp, all) == buf@ + trait_methods_text(
                    mp,
                    all.subrange(i as int, all.len() as int),
                ),
            decreases n - i,
        {
            let ghost buf_pre = buf@;
            let ghost rest = all.subrange(i as int, all.len() as int);
            let method = &service.methods[i];
            buf.append("\n");
            append_comments(buf, &method.comments, 1);
            buf.append("    ");
            self.append_method_sig(method, buf);
            buf.append(";\n");
            proof {
                assert(rest[0] == all[i as int]);
                assert(rest.subrange(1, rest.len() as int) =~= all.subrange(
                    i as int + 1,
                    all.len() as int,
                ));
                assert(buf_pre + trait_methods_text(mp, rest) =~= buf@ + trait_methods_text(
                    mp,
                    rest.subrange(1, rest.len() as int),
                ));
            }
            i += 1;
        }
        buf.append("}\n");
        proof {
            assert(trait_methods_text(mp, all.subrange(n as int, all.len() as int))
                == Seq::<char>::empty());
            assert(buf@ =~= buf0 + main_trait_text(mp, *service));
        }
    }

    /// Appends the generated constructor namespace.
    fn generate_main_impl(&self, service: &Service, buf: &mut String)
        ensures
            final(buf)@ == old(buf)@ + main_impl_text(mod_path_text(self.embed_client), *service),
    {
        let mp = self.prost_twirp_path();
        let name = service.name.as_str();
        buf.append("\nimpl dyn ");
        buf.append(name);
        buf.append(" {\n    /// Construct a new client stub for the service.\n    #[allow(dead_code)]\n    pub fn new_client(client: ::hyper::Client<::hyper::client::HttpConnector, ::hyper::Body>, root_url: &str) -> Box<dyn ");
        buf.append(name);
        buf.append("> {\n        Box::new(");
        buf.append(name);
        buf.append("Client(");
        buf.append(mp);
        buf.append("::HyperClient::new(client, root_url)))\n    }\n\n    /// Make a new server for the service: a hyper `Service` that\n    /// routes to the implementation in `v`.\n    #[allow(dead_code)]\n    pub fn new_server<T: ");
        buf.append(name);
        buf.append(">(v: T) -> prost_twirp_transport::ServeTwirp<");
        buf.append(name);
        buf.append("Server<T>> {\n        prost_twirp_transport::ServeTwirp(::std::sync::Arc::new(");
        buf.append(name);
        buf.append("Server(::std::sync::Arc::new(v))))\n    }\n}\n");
        proof {
            assert(buf@ =~= old(buf)@ + main_impl_text(mod_path_text(self.embed_client), *service));
        }
    }

    /// The routing URL of one method of a service:
    /// `/twirp/<package>.<Service>/<Method>`, from the proto names.
    pub fn method_url(&self, service: &Service, method: &Method) -> (r: String)
        ensures
            r@ == method_url_text(service.package@, service.proto_name@, method.proto_name@),
    {
        let mut url = String::from_str("/twirp/");
        url.append(service.package.as_str());
        url.append(".");
        url.append(service.proto_name.as_str());
        url.append("/");
        url.append(method.proto_name.as_str());
        proof {
            assert(url@ =~= method_url_text(
                service.package@,
                service.proto_name@,
                method.proto_name@,
            ));
        }
        url
    }

    /// Appends the generated client stub.
    fn generate_client(&self, service: &Service, buf: &mut String)
        ensures
            final(buf)@ == old(buf)@ + client_text(mod_path_text(self.embed_client), *service),
    {
        let ghost mp = mod_path_text(self.embed_client);
        let ghost buf0 = buf@;
        let mod_path = self.prost_twirp_path();
        let name = service.name.as_str();
        buf.append("\npub struct ");
        buf.append(name);
        buf.append("Client(pub ");
        buf.append(mod_path);
        buf.append("::HyperClient);\n\nimpl ");
        buf.append(name);
        buf.append(" for ");
        buf.append(name);
        buf.append("Client {\n");
        let ghost head = buf@;
        let ghost all = service.methods@;
        let n = service.methods.len();
        let mut i: usize = 0;
        proof {
            assert(all.subrange(0, all.len() as int) =~= all);
        }
        while i < n
            invariant
                i <= n,
                n == service.methods.len(),
                all == service.methods@,
                mp == mod_path_text(self.embed_client),
                head + client_methods_text(mp, *service, all) == buf@ + client_methods_text(
                    mp,
                    *service,
                    all.subrange(i as int, all.len() as int),
                ),
            decreases n - i,
        {
            let ghost buf_pre = buf@;
            let ghost rest = all.subrange(i as int, all.len() as int);
            let method = &service.methods[i];
            buf.append("    ");
            self.append_method_sig(method, buf);
            buf.append(" {\n        prost_twirp_transport::go(&self.0, \"");
            let url = self.method_url(service, method);
            buf.append(url.as_str());
            buf.append("\", request)\n    }\n");
            proof {
                assert(rest[0] == all[i as int]);
                assert(rest.subrange(1, rest.len() as int) =~= all.subrange(
                    i as int + 1,
                    all.len() as int,
                ));
                assert(buf_pre + client_methods_text(mp, *service, rest) =~= buf@
                    + client_methods_text(mp, *service, rest.subrange(1, rest.len() as int)));
            }
            i += 1;
        }
        buf.append("}\n");
        proof {
            assert(client_methods_text(mp, *service, all.subrange(n as int, all.len() as int))
                == Seq::<char>::empty());
            assert(buf@ =~= buf0 + client_text(mp, *service));
        }
    }

    /// Appends the generated server adapter.
    #[verifier::rlimit(50)]
    fn generate_server(&self, service: &Service, buf: &mut String)
        ensures
            final(buf)@ == old(buf)@ + server_text(mod_path_text(self.embed_client), *service),
    {
        let ghost mp = mod_path_text(self.embed_client);
        let ghost buf0 = buf@;
        let mod_path = self.prost_twirp_path();
        let name = service.name.as_str();
        buf.append("\npub struct ");
        buf.append(name);
        buf.append("Server<T: ");
        buf.append(name);
        buf.append(">(pub ::std::sync::Arc<T>);\n\nimpl<T: ");
        buf.append(name);
        buf.append("> prost_twirp_transport::HyperHandler for ");
        buf.append(name);
        buf.append("Server<T> {\n    fn handle(&self, req: ::hyper::Request<::hyper::Body>) -> ::std::pin::Pin<Box<dyn ::std::future::Future<Output = Result<::hyper::Response<::hyper::Body>, ");
        buf.append(mod_path);
        buf.append("::ProstTwirpError>> + Send + 'static>> {\n        let static_service = ::std::sync::Arc::clone(&self.0);\n        match req.uri().path() {\n");
        let ghost head = buf@;
        let ghost all = service.methods@;
        let n = service.methods.len();
        let mut i: usize = 0;
        proof {
            assert(all.subrange(0, all.len() as int) =~= all);
        }
        while i < n
            invariant
                i <= n,
                n == service.methods.len(),
                all == service.methods@,
                mp == mod_path_text(self.embed_client),
                mod_path@ == mp,
                head + server_arms_text(mp, *service, all) == buf@ + server_arms_text(
                    mp,
                    *service,
                    all.subrange(i as int, all.len() as int),
                ),
            decreases n - i,
        {
            let ghost buf_pre = buf@;
            let ghost rest = all.subrange(i as int, all.len() as int);
            let ghost m_i = all[i as int];
            let method = &service.methods[i];
            let url = self.method_url(service, method);
            buf.append("            \"");
            buf.append(url.as_str());
            buf.append(
                "\" => Box::pin(async move {\n                let wire = prost_twirp_transport::read_hyper_request(req).await?;\n                let request = ",
            );
            proof {
                assert(buf@ =~= buf_pre + ("            \""@ + method_url_text(
                    service.package@,
                    service.proto_name@,
                    m_i.proto_name@,
                )
                    + "\" => Box::pin(async move {\n                let wire = prost_twirp_transport::read_hyper_request(req).await?;\n                let request = "@));
            }
            let ghost b1 = buf@;
            buf.append(mod_path);
            buf.append(
                "::ServiceRequest::from_hyper_request(wire)?;\n                let response = static_service.",
            );
            buf.append(method.name.as_str());
            proof {
                assert(buf@ =~= b1 + (mp
                    + "::ServiceRequest::from_hyper_request(wire)?;\n                let response = static_service."@
                    + m_i.name@));
            }
            let ghost b2 = buf@;
            buf.append(
                "(request).await?;\n                prost_twirp_transport::write_hyper_response(response.to_hyper_response()?)\n            }),\n",
            );
            proof {
                assert(rest[0] == m_i);
                assert(rest.subrange(1, rest.len() as int) =~= all.subrange(
                    i as int + 1,
                    all.len() as int,
                ));
                assert(server_arms_text(mp, *service, rest) == server_arm_text(mp, *service, m_i)
                    + server_arms_text(mp, *service, rest.subrange(1, rest.len() as int)));
                assert(buf@ =~= buf_pre + server_arm_text(mp, *service, m_i));
            }
            i += 1;
        }
        buf.append(
            "            _ => Box::pin(::std::future::ready(\n                prost_twirp_transport::write_hyper_response(",
        );
        buf.append(mod_path);
        buf.append(
            "::ProstTwirpError::NotFound.into_hyper_response().unwrap())\n            )),\n        }\n    }\n}\n",
        );
        proof {
            assert(server_arms_text(mp, *service, all.subrange(n as int, all.len() as int))
                == Seq::<char>::empty());
            assert(buf@ =~= buf0 + server_text(mp, *service));
        }
    }

    /// Appends everything generated for one service: the runtime
    /// re-exports (once per run), the service trait, the constructor
    /// namespace, the client stub, and the server adapter.
    pub fn generate(&mut self, service: &Service, buf: &mut String)
        ensures
            final(self).embed_client == old(self).embed_client,
            final(self).support_emitted == true,
            final(buf)@ == old(buf)@ + generate_text(
                old(self).embed_client,
                !old(self).support_emitted,
                *service,
            ),
    {
        if !self.support_emitted {
            self.generate_support(buf);
            self.support_emitted = true;
        }
        self.generate_main_trait(service, buf);
        self.generate_main_impl(service, buf);
        self.generate_client(service, buf);
        self.generate_server(service, buf);
        proof {
            assert(buf@ =~= old(buf)@ + generate_text(
                self.embed_client,
                !old(self).support_emitted,
                *service,
            ));
        }
    }

    /// In embedded-runtime mode, appends the given runtime source as a
    /// local module `prost_twirp`, each line indented one level; otherwise
    /// appends nothing.
    pub fn finalize(&self, runtime_source: &str, buf: &mut String)
        ensures
            self.embed_client ==> final(buf)@ == old(buf)@ + embedded_module_text(runtime_source@),
            !self.embed_client ==> final(buf)@ == old(buf)@,
    {
        if self.embed_client {
            buf.append("\n/// Embedded runtime module.\n#[allow(dead_code)]\nmod prost_twirp {\n");
            append_embedded_body(runtime_source, buf);
            buf.append("\n}\n");
            proof {
                assert(buf@ =~= old(buf)@ + embedded_module_text(runtime_source@));
            }
        }
    }
}

/// Appends the embedded module's body: the source, without one final line
/// break, with every line indented one level.
fn append_embedded_body(src: &str, buf: &mut String)
    ensures
        final(buf)@ == old(buf)@ + embedded_body_text(src@),
{
    let ghost buf0 = buf@;
    let n = src.unicode_len();
    if n == 0 {
        proof {
            assert(buf@ + embedded_body_text(src@) =~= buf@);
        }
        return ;
    }
    let core_len = if src.get_char(n - 1) == '\n' {
        n - 1
    } else {
        n
    };
    let ghost core = src@.subrange(0, core_len as int);
    proof {
        if src@[n - 1] == '\n' {
            assert(core =~= src@.drop_last());
        } else {
            assert(core =~= src@);
        }
    }
    buf.append("    ");
    let ghost buf1 = buf@;
    let mut i: usize = 0;
    let mut seg_start: usize = 0;
    proof {
        assert(indent_breaks(core.subrange(0, 0)) == Seq::<char>::empty());
        assert(buf1 + indent_breaks(core.subrange(0, 0)) =~= buf@);
    }
    while i < core_len
        invariant
            seg_start <= i <= core_len <= n,
            n == src@.len(),
            core == src@.subrange(0, core_len as int),
            buf@ == buf1 + indent_breaks(core.subrange(0, seg_start as int)),
            forall|j: int| seg_start <= j < i ==> core[j] != '\n',
        decreases core_len - i,
    {
        if src.get_char(i) == '\n' {
            let ghost buf_pre = buf@;
            let seg = src.substring_char(seg_start, i);
            buf.append(seg);
            buf.append("\n    ");
            proof {
                assert(seg@ =~= core.subrange(seg_start as int, i as int));
                assert(forall|j: int| 0 <= j < seg@.len() ==> seg@[j] != '\n');
                lemma_indent_breaks_plain(seg@);
                assert(core[i as int] == '\n');
                assert(core.subrange(i as int, i as int + 1) =~= seq!['\n']);
                assert(seq!['\n'].subrange(1, 1) =~= Seq::<char>::empty());
                assert(indent_breaks(Seq::<char>::empty()) == Seq::<char>::empty());
                assert(indent_breaks(seq!['\n']) =~= "\n    "@);
                lemma_indent_breaks_concat(seg@, seq!['\n']);
                lemma_indent_breaks_concat(
                    core.subrange(0, seg_start as int),
                    seg@ + seq!['\n'],
                );
                assert(core.subrange(0, seg_start as int) + (seg@ + seq!['\n']) =~= core.subrange(
                    0,
                    i as int + 1,
                ));
                assert(buf@ =~= buf1 + indent_breaks(core.subrange(0, i as int + 1)));
            }
            seg_start = i + 1;
        }
        i += 1;
    }
    let tail = src.substring_char(seg_start, core_len);
    buf.append(tail);
    buf.append("\n");
    proof {
        assert(tail@ =~= core.subrange(seg_start as int, core_len as int));
        assert(forall|j: int| 0 <= j < tail@.len() ==> tail@[j] != '\n');
        lemma_indent_breaks_plain(tail@);
        lemma_indent_breaks_concat(core.subrange(0, seg_start as int), tail@);
        assert(core.subrange(0, seg_start as int) + tail@ =~= core);
        assert(buf@ =~= buf0 + embedded_body_text(src@));
    }
}

} // verus!
