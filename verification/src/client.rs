//! A client for a CUPS daemon or an IPP printer: who it acts for, what it is
//! pointed at and how it gets there.

use vstd::prelude::*;
use std::time::Duration;
use ipp::client::non_blocking::AsyncIppClient;
use ipp::prelude::Uri;
use crate::clock::{in_nanos, length};
use crate::error::{outcome, transport_failure, Error, ErrorView};
use crate::handle::{IppPrinter, IppPrinterView};
use crate::job::{a_queue_is_read_back_from_its_uri, queue_of};
use crate::lists::viewed;
use crate::text::{characters, same_text};
use crate::transport::{
    build_transport, plain_settings, transport_builder, transport_settings, uri_host, uri_scheme,
    with_certificate, with_credentials, with_invalid_accepted, with_timeout, Settings,
};
use crate::wire::{parse_uri, uri_parsed, uri_refusal};

verus! {

/// The daemon on this machine.
pub const LOCAL_CUPS: &'static str = "http://localhost:631";

/// A client for an IPP endpoint. `DETAILED` says whether the jobs it reads carry
/// the pages they printed and the time they ended.
pub struct Client<const DETAILED: bool> {
    inner: AsyncIppClient,
    base: String,
    user: String,
}

/// A client for CUPS and for any IPP printer, whose jobs carry everything.
pub type IppClient = Client<true>;

/// A client for a CUPS daemon, whose jobs carry neither the pages they printed
/// nor the time they ended. A job in which nothing else changed is to it a job
/// that did not change.
pub type CupsClient = Client<false>;

/// The builder of an [`IppClient`].
pub type IppClientBuilder = ClientBuilder<true>;

/// The builder of a [`CupsClient`].
pub type CupsClientBuilder = ClientBuilder<false>;

/// A [`Client`]: the URI it is pointed at, without slashes at the end, the
/// user it acts for, and how its requests are sent.
pub struct IppClientView {
    pub base: Seq<char>,
    pub user: Seq<char>,
    pub settings: Settings,
}

impl<const DETAILED: bool> View for Client<DETAILED> {
    type V = IppClientView;

    closed spec fn view(&self) -> IppClientView {
        IppClientView {
            base: self.base@,
            user: self.user@,
            settings: transport_settings(self.inner),
        }
    }
}

/// `s` without the slashes at its end.
pub open spec fn without_slashes(s: Seq<char>) -> Seq<char>
    decreases s.len(),
{
    if s.len() > 0 && s.last() == '/' {
        without_slashes(s.drop_last())
    } else {
        s
    }
}

/// `s` without the slashes at its end.
fn trim_slashes(s: &str) -> (r: String)
    ensures
        r@ == without_slashes(s@),
{
    let text = characters(s);
    let mut end: usize = text.len();
    assert(s@.take(end as int) =~= s@);
    while end > 0 && text[end - 1] == '/'
        invariant
            text@ == s@,
            end <= text.len(),
            without_slashes(s@) == without_slashes(s@.take(end as int)),
        decreases end,
    {
        proof {
            assert(s@.take(end as int).last() == s@[end - 1]);
            assert(s@.take(end as int).drop_last() =~= s@.take(end - 1));
        }
        end -= 1;
    }
    proof {
        if end > 0 {
            assert(s@.take(end as int).last() == s@[end - 1]);
        }
    }
    s.substring_char(0, end).to_string()
}

/// The client that talks to `uri` for `user`, or why there is none.
pub open spec fn client_of(uri: Seq<char>, user: Seq<char>) -> Result<IppClientView, ErrorView> {
    match uri_parsed(uri) {
        None => Err(transport_failure("bad CUPS uri "@ + uri + ": "@ + uri_refusal(uri))),
        Some(parsed) => Ok(
            IppClientView {
                base: without_slashes(uri),
                user,
                settings: plain_settings(parsed),
            },
        ),
    }
}

/// What the queue `name` is addressed by, as text: its path on the daemon.
pub open spec fn queue_path(base: Seq<char>, name: Seq<char>) -> Seq<char> {
    base + "/printers/"@ + name
}

/// What the queue `name` is addressed by, or why it cannot be.
pub open spec fn queue_uri(base: Seq<char>, name: Seq<char>) -> Result<Uri, ErrorView> {
    match uri_parsed(queue_path(base, name)) {
        Some(uri) => Ok(uri),
        None => Err(
            transport_failure(
                "bad printer uri for "@ + name + ": "@ + uri_refusal(queue_path(base, name)),
            ),
        ),
    }
}

/// What a printer URI stands for, or why it stands for nothing.
pub open spec fn printer_address(uri: Seq<char>) -> Result<Uri, ErrorView> {
    match uri_parsed(uri) {
        Some(parsed) => Ok(parsed),
        None => Err(transport_failure("bad printer uri "@ + uri + ": "@ + uri_refusal(uri))),
    }
}

/// Four texts, one after the other.
pub(crate) fn joined(a: &str, b: &str, c: &str, d: &str) -> (r: String)
    ensures
        r@ == a@ + b@ + c@ + d@,
{
    let mut out = a.to_string();
    out.append(b);
    out.append(c);
    out.append(d);
    out
}

impl<const DETAILED: bool> Client<DETAILED> {
    /// A client for the daemon on this machine.
    pub fn local(user: &str) -> (r: Result<Client<DETAILED>, Error>)
        ensures
            outcome(r) == client_of(LOCAL_CUPS@, user@),
    {
        Self::with_uri(LOCAL_CUPS, user)
    }

    /// A client for an IPP endpoint, attributing jobs to `user`.
    ///
    /// For TLS trust, credentials or timeouts, use [`Client::builder`].
    pub fn with_uri(uri: &str, user: &str) -> (r: Result<Client<DETAILED>, Error>)
        ensures
            outcome(r) == client_of(uri@, user@),
    {
        match parse_uri(uri) {
            Ok(parsed) => Ok(
                Client {
                    inner: build_transport(transport_builder(parsed)),
                    base: trim_slashes(uri),
                    user: user.to_string(),
                },
            ),
            Err(reason) => Err(
                Error::transport_msg(joined("bad CUPS uri ", uri, ": ", reason.as_str())),
            ),
        }
    }

    /// Starts building a client with options the plain constructors do not take.
    pub fn builder(uri: &str) -> (r: ClientBuilder<DETAILED>)
        ensures
            r@ == plain_builder(uri@),
    {
        ClientBuilder::new(uri)
    }

    /// What sends this client's requests.
    pub fn transport(&self) -> (r: &AsyncIppClient)
        ensures
            transport_settings(*r) == self@.settings,
    {
        &self.inner
    }

    /// The user jobs are attributed to.
    pub fn user(&self) -> (r: &str)
        ensures
            r@ == self@.user,
    {
        self.user.as_str()
    }

    /// The URI the client is pointed at, without slashes at the end.
    pub fn base(&self) -> (r: &str)
        ensures
            r@ == self@.base,
    {
        self.base.as_str()
    }

    /// The IPP URI for one queue, e.g. `http://localhost:631/printers/HP-8210`.
    pub fn printer_uri(&self, name: &str) -> (r: Result<Uri, Error>)
        ensures
            match r {
                Ok(uri) => queue_uri(self@.base, name@) == Ok::<Uri, ErrorView>(uri),
                Err(e) => queue_uri(self@.base, name@) == Err::<Uri, ErrorView>(e@),
            },
    {
        let path = joined(self.base.as_str(), "/printers/", name, "");
        proof {
            reveal_strlit("");
            assert(path@ =~= queue_path(self@.base, name@));
        }
        match parse_uri(path.as_str()) {
            Ok(uri) => Ok(uri),
            Err(reason) => Err(
                Error::transport_msg(
                    joined("bad printer uri for ", name, ": ", reason.as_str()),
                ),
            ),
        }
    }
}

impl IppClient {
    /// A handle to any IPP printer, by URI.
    ///
    /// The printer needs no relationship to the daemon this client points at:
    /// this is how to reach a driverless network printer directly, with no
    /// CUPS in the path.
    pub fn at(&self, uri: &str) -> (r: Result<IppPrinter<'_>, Error>)
        ensures
            outcome(r) == (match printer_address(uri@) {
                Ok(parsed) => Ok(IppPrinterView { client: self@, uri: parsed }),
                Err(e) => Err(e),
            }),
    {
        match parse_uri(uri) {
            Ok(parsed) => Ok(IppPrinter::new(self, parsed)),
            Err(reason) => Err(
                Error::transport_msg(joined("bad printer uri ", uri, ": ", reason.as_str())),
            ),
        }
    }

    /// A handle to a queue on the CUPS daemon this client is connected to.
    ///
    /// A convenience over [`IppClient::at`] that knows CUPS' URI convention,
    /// so a queue can be named rather than spelled out.
    pub fn queue(&self, name: &str) -> (r: Result<IppPrinter<'_>, Error>)
        ensures
            outcome(r) == (match queue_uri(self@.base, name@) {
                Ok(uri) => Ok(IppPrinterView { client: self@, uri }),
                Err(e) => Err(e),
            }),
    {
        match self.printer_uri(name) {
            Ok(uri) => Ok(IppPrinter::new(self, uri)),
            Err(e) => Err(e),
        }
    }
}

/// Builds a [`Client`] with transport options set.
///
/// The plain constructors cover the common case of an unencrypted local
/// daemon. This is for everything else: TLS trust, timeouts, and talking to a
/// printer directly.
pub struct ClientBuilder<const DETAILED: bool> {
    uri: String,
    user: Option<String>,
    basic_auth: Option<(String, String)>,
    request_timeout: Option<Duration>,
    ca_certs: Vec<Vec<u8>>,
    accept_invalid_certs: bool,
}

/// A [`ClientBuilder`], as what it has been set to.
pub struct IppClientBuilderView {
    pub uri: Seq<char>,
    pub user: Option<Seq<char>>,
    pub basic_auth: Option<(Seq<char>, Seq<char>)>,
    pub request_timeout: Option<nat>,
    pub ca_certs: Seq<Seq<u8>>,
    pub accept_invalid_certs: bool,
}

impl<const DETAILED: bool> View for ClientBuilder<DETAILED> {
    type V = IppClientBuilderView;

    closed spec fn view(&self) -> IppClientBuilderView {
        IppClientBuilderView {
            uri: self.uri@,
            user: match self.user {
                Some(user) => Some(user@),
                None => None,
            },
            basic_auth: match self.basic_auth {
                Some((user, password)) => Some((user@, password@)),
                None => None,
            },
            request_timeout: length(self.request_timeout),
            ca_certs: viewed(self.ca_certs@),
            accept_invalid_certs: self.accept_invalid_certs,
        }
    }
}

/// A builder of which nothing but the URI has been set.
pub open spec fn plain_builder(uri: Seq<char>) -> IppClientBuilderView {
    IppClientBuilderView {
        uri,
        user: None,
        basic_auth: None,
        request_timeout: None,
        ca_certs: Seq::empty(),
        accept_invalid_certs: false,
    }
}

/// How the requests of a client that is built go out, its URI being `parsed`.
pub open spec fn built_settings(builder: IppClientBuilderView, parsed: Uri) -> Settings {
    Settings {
        uri: parsed,
        timeout: builder.request_timeout,
        credentials: match builder.basic_auth {
            Some((user, password)) => Some(user + seq![':'] + password),
            None => None,
        },
        certificates: builder.ca_certs,
        accept_invalid: builder.accept_invalid_certs,
    }
}

/// The client that is built, or why there is none.
pub open spec fn built(builder: IppClientBuilderView, fallback: Seq<char>) -> Result<
    IppClientView,
    ErrorView,
> {
    match uri_parsed(builder.uri) {
        None => Err(
            transport_failure("bad uri "@ + builder.uri + ": "@ + uri_refusal(builder.uri)),
        ),
        Some(parsed) => Ok(
            IppClientView {
                base: without_slashes(builder.uri),
                user: match builder.user {
                    Some(user) => user,
                    None => fallback,
                },
                settings: built_settings(builder, parsed),
            },
        ),
    }
}

/// Whether a scheme encrypts.
pub open spec fn is_encrypted(scheme: Option<Seq<char>>) -> bool {
    scheme == Some("https"@) || scheme == Some("ipps"@)
}

/// Whether a host is this machine.
pub open spec fn is_loopback(host: Option<Seq<char>>) -> bool {
    ||| host == Some("localhost"@)
    ||| host == Some("127.0.0.1"@)
    ||| host == Some("::1"@)
    ||| host == Some("[::1]"@)
}

/// Whether what is sent to a URI is protected from onlookers.
pub open spec fn confidential(uri: Uri) -> bool {
    is_encrypted(uri_scheme(uri)) || is_loopback(uri_host(uri))
}

/// Whether building sends credentials where onlookers can read them.
pub open spec fn exposed(builder: IppClientBuilderView) -> bool {
    builder.basic_auth is Some && (uri_parsed(builder.uri) matches Some(uri) && !confidential(uri))
}

/// The user jobs are attributed to when none is given: the one the environment
/// names, or `anonymous`.
pub fn default_user(environment: Option<String>) -> (r: String)
    ensures
        r@ == (match environment {
            Some(user) => user@,
            None => "anonymous"@,
        }),
{
    match environment {
        Some(user) => user,
        None => "anonymous".to_string(),
    }
}

/// Whether a connection by this scheme to this host is protected from
/// onlookers, either by TLS or by never leaving the machine.
pub fn is_protected(scheme: Option<&str>, host: Option<&str>) -> (r: bool)
    ensures
        r == (is_encrypted(
            match scheme {
                Some(s) => Some(s@),
                None => None,
            },
        ) || is_loopback(
            match host {
                Some(h) => Some(h@),
                None => None,
            },
        )),
{
    if let Some(s) = scheme {
        if same_text(s, "https") || same_text(s, "ipps") {
            return true;
        }
    }
    match host {
        Some(h) => same_text(h, "localhost") || same_text(h, "127.0.0.1") || same_text(h, "::1")
            || same_text(h, "[::1]"),
        None => false,
    }
}

/// Whether credentials sent to this URI are protected from onlookers, either
/// by TLS or by never leaving the machine.
pub fn is_confidential(uri: &Uri) -> (r: bool)
    ensures
        r == confidential(*uri),
{
    is_protected(uri.scheme_str(), uri.host())
}

impl<const DETAILED: bool> ClientBuilder<DETAILED> {
    /// A builder of a client for `uri`.
    pub fn new(uri: &str) -> (r: ClientBuilder<DETAILED>)
        ensures
            r@ == plain_builder(uri@),
    {
        let r = ClientBuilder {
            uri: uri.to_string(),
            user: None,
            basic_auth: None,
            request_timeout: None,
            ca_certs: Vec::new(),
            accept_invalid_certs: false,
        };
        assert(r@.ca_certs =~= Seq::empty());
        r
    }

    /// The name sent as `requesting-user-name`.
    ///
    /// CUPS uses it to decide which jobs are yours.
    pub fn user(self, user: &str) -> (r: ClientBuilder<DETAILED>)
        ensures
            r@ == (IppClientBuilderView { user: Some(user@), ..self@ }),
    {
        ClientBuilder { user: Some(user.to_string()), ..self }
    }

    /// How long a single request may take, including the upload of a document.
    ///
    /// There is no timeout by default, because a large print job legitimately
    /// takes a long time and a deadline that cuts one off is worse than none.
    /// Set one for interactive requests, where an unreachable printer would
    /// otherwise hang the caller indefinitely.
    pub fn request_timeout(self, timeout: Duration) -> (r: ClientBuilder<DETAILED>)
        ensures
            r@ == (IppClientBuilderView { request_timeout: Some(in_nanos(timeout)), ..self@ }),
    {
        ClientBuilder { request_timeout: Some(timeout), ..self }
    }

    /// Sends HTTP Basic credentials with every request.
    ///
    /// This is what CUPS asks for by default: an administrative operation on
    /// an unauthenticated connection is refused with `401`, and the daemon
    /// replies `WWW-Authenticate: Basic realm="CUPS"`.
    ///
    /// Basic authentication transmits the password in a trivially reversible
    /// encoding, so anything that can read the connection can read the
    /// password. Over `ipps://` that is fine, because TLS covers it. Over
    /// plain `ipp://` to anything but a loopback address it is not, and
    /// [`ClientBuilder::exposes_credentials`] says so.
    ///
    /// Only Basic is available: the underlying IPP transport does not
    /// implement Digest or Negotiate, so a daemon configured to require either
    /// cannot be satisfied from here.
    pub fn basic_auth(self, user: &str, password: &str) -> (r: ClientBuilder<DETAILED>)
        ensures
            r@ == (IppClientBuilderView { basic_auth: Some((user@, password@)), ..self@ }),
    {
        ClientBuilder { basic_auth: Some((user.to_string(), password.to_string())), ..self }
    }

    /// Trusts an additional root certificate, in PEM or DER form.
    ///
    /// This is the right way to reach a printer over `ipps://`. Printers, and
    /// CUPS itself, ship self-signed certificates that no public root will
    /// vouch for, so verification fails against them by default with
    /// `UnknownIssuer`. Pinning the certificate keeps verification on.
    pub fn ca_cert(self, certificate: Vec<u8>) -> (r: ClientBuilder<DETAILED>)
        ensures
            r@ == (IppClientBuilderView {
                ca_certs: self@.ca_certs.push(certificate@),
                ..self@
            }),
    {
        let ghost before = self@.ca_certs;
        let ghost added = certificate@;
        let mut r = self;
        r.ca_certs.push(certificate);
        assert(r@.ca_certs =~= before.push(added));
        r
    }

    /// Accepts any certificate, valid or not.
    ///
    /// This disables the check that the peer is who it claims to be, so an
    /// `ipps://` connection becomes encrypted but unauthenticated and offers
    /// no protection against interception. Prefer [`ClientBuilder::ca_cert`].
    ///
    /// It exists because discovering a printer's certificate is sometimes
    /// impractical, and because a caller who has decided to accept that risk
    /// on a trusted network should not have to abandon this library to do it.
    pub fn danger_accept_invalid_certs(self, accept: bool) -> (r: ClientBuilder<DETAILED>)
        ensures
            r@ == (IppClientBuilderView { accept_invalid_certs: accept, ..self@ }),
    {
        ClientBuilder { accept_invalid_certs: accept, ..self }
    }

    /// Whether the client that is built sends its password over an unencrypted
    /// connection to another machine, where anything on the path can read it.
    pub fn exposes_credentials(&self) -> (r: bool)
        ensures
            r == exposed(self@),
    {
        if self.basic_auth.is_none() {
            return false;
        }
        match parse_uri(self.uri.as_str()) {
            Ok(uri) => !is_confidential(&uri),
            Err(_) => false,
        }
    }

    /// Builds the client. Jobs are attributed to `fallback` where no user has
    /// been given.
    pub fn build(self, fallback: &str) -> (r: Result<Client<DETAILED>, Error>)
        ensures
            outcome(r) == built(self@, fallback@),
    {
        let parsed = match parse_uri(self.uri.as_str()) {
            Ok(parsed) => parsed,
            Err(reason) => {
                return Err(
                    Error::transport_msg(
                        joined("bad uri ", self.uri.as_str(), ": ", reason.as_str()),
                    ),
                );
            },
        };
        let mut builder = transport_builder(parsed);
        if let Some(timeout) = self.request_timeout {
            builder = with_timeout(builder, timeout);
        }
        if let Some((user, password)) = &self.basic_auth {
            builder = with_credentials(builder, user.as_str(), password.as_str());
        }
        let ghost started = crate::transport::builder_settings(builder);
        let ghost certificates = self@.ca_certs;
        let mut i: usize = 0;
        assert(certificates.take(0) =~= Seq::empty());
        while i < self.ca_certs.len()
            invariant
                i <= self.ca_certs.len(),
                certificates == viewed(self.ca_certs@),
                crate::transport::builder_settings(builder) == (Settings {
                    certificates: certificates.take(i as int),
                    ..started
                }),
            decreases self.ca_certs.len() - i,
        {
            let certificate = self.ca_certs[i].clone();
            proof {
                assert(certificate@ =~= self.ca_certs@[i as int]@);
                assert(certificates.take(i + 1) =~= certificates.take(i as int).push(
                    certificate@,
                ));
            }
            builder = with_certificate(builder, certificate);
            i += 1;
        }
        assert(certificates.take(i as int) =~= certificates);
        if self.accept_invalid_certs {
            builder = with_invalid_accepted(builder, true);
        }
        let user = match self.user {
            Some(user) => user,
            None => fallback.to_string(),
        };
        Ok(
            Client {
                inner: build_transport(builder),
                base: trim_slashes(self.uri.as_str()),
                user,
            },
        )
    }
}

/// A client is never pointed at a URI with a slash at its end, so that a
/// queue's path has one where it should and no more.
pub proof fn no_slash_is_left_at_the_end(uri: Seq<char>)
    ensures
        without_slashes(uri).len() > 0 ==> without_slashes(uri).last() != '/',
    decreases uri.len(),
{
    if uri.len() > 0 && uri.last() == '/' {
        no_slash_is_left_at_the_end(uri.drop_last());
    }
}

/// A queue's name is read back from the path it is addressed by, so long as it
/// is not empty and holds no slash.
pub proof fn a_queue_is_read_back_from_its_path(base: Seq<char>, name: Seq<char>)
    requires
        name.len() > 0,
        !name.contains('/'),
    ensures
        queue_of(queue_path(base, name)) == Some(name),
{
    reveal_strlit("/printers/");
    let head = base + "/printers/"@;
    let stem = head.drop_last();
    assert(head.last() == '/');
    assert(queue_path(base, name) =~= stem + seq!['/'] + name);
    a_queue_is_read_back_from_its_uri(stem, name);
}

} // verus!
