//! The HTTP side of a client, as the `ipp` crate builds it.

use vstd::prelude::*;
use std::time::Duration;
use ipp::client::non_blocking::AsyncIppClient;
use ipp::client::IppClientBuilder as TransportBuilder;
use ipp::prelude::Uri;
use crate::clock::in_nanos;

verus! {

/// How requests are sent.
pub struct Settings {
    /// Where to.
    pub uri: Uri,
    /// How long one may take, in nanoseconds, where there is a bound.
    pub timeout: Option<nat>,
    /// The user and password, with a colon between, that go with each.
    pub credentials: Option<Seq<char>>,
    /// The root certificates trusted besides the usual ones.
    pub certificates: Seq<Seq<u8>>,
    /// Whether any certificate is accepted.
    pub accept_invalid: bool,
}

/// `ipp::client::non_blocking::AsyncIppClient`, opaque here.
#[verifier::external_type_specification]
#[verifier::external_body]
pub struct ExAsyncIppClient(AsyncIppClient);

/// `ipp::client::IppClientBuilder`, opaque here.
#[verifier::external_type_specification]
#[verifier::external_body]
#[verifier::reject_recursive_types(T)]
pub struct ExTransportBuilder<T>(TransportBuilder<T>);

/// What an `IppClientBuilder` has been set to. Its credentials are what the
/// `authorization` header it keeps encodes.
pub uninterp spec fn builder_settings(builder: TransportBuilder<AsyncIppClient>) -> Settings;

/// What an `AsyncIppClient` was built with.
pub uninterp spec fn transport_settings(transport: AsyncIppClient) -> Settings;

/// What `Uri::scheme_str` gives.
pub uninterp spec fn uri_scheme(uri: Uri) -> Option<Seq<char>>;

/// What `Uri::host` gives.
pub uninterp spec fn uri_host(uri: Uri) -> Option<Seq<char>>;

/// The settings before any are made: no timeout, no credentials, and the usual
/// trust.
pub open spec fn plain_settings(uri: Uri) -> Settings {
    Settings {
        uri,
        timeout: None,
        credentials: None,
        certificates: Seq::empty(),
        accept_invalid: false,
    }
}

/// `Uri::scheme_str`: the scheme of a URI, where it has one.
pub assume_specification[ ipp::prelude::Uri::scheme_str ](uri: &ipp::prelude::Uri) -> (r: Option<
    &str,
>)
    ensures
        match r {
            Some(scheme) => uri_scheme(*uri) == Some(scheme@),
            None => uri_scheme(*uri) is None,
        },
;

/// `Uri::host`: the host of a URI, where it has one.
pub assume_specification[ ipp::prelude::Uri::host ](uri: &ipp::prelude::Uri) -> (r: Option<&str>)
    ensures
        match r {
            Some(host) => uri_host(*uri) == Some(host@),
            None => uri_host(*uri) is None,
        },
;

/// `AsyncIppClient::builder`, which starts with the URI and nothing set.
#[verifier::external_body]
pub(crate) fn transport_builder(uri: Uri) -> (r: TransportBuilder<AsyncIppClient>)
    ensures
        builder_settings(r) == plain_settings(uri),
{
    AsyncIppClient::builder(uri)
}

/// `IppClientBuilder::request_timeout`, which sets the bound on a request and
/// nothing else.
#[verifier::external_body]
pub(crate) fn with_timeout(
    builder: TransportBuilder<AsyncIppClient>,
    timeout: Duration,
) -> (r: TransportBuilder<AsyncIppClient>)
    ensures
        builder_settings(r) == (Settings {
            timeout: Some(in_nanos(timeout)),
            ..builder_settings(builder)
        }),
{
    builder.request_timeout(timeout)
}

/// `IppClientBuilder::basic_auth`, which replaces any credentials set before and
/// nothing else.
#[verifier::external_body]
pub(crate) fn with_credentials(
    builder: TransportBuilder<AsyncIppClient>,
    user: &str,
    password: &str,
) -> (r: TransportBuilder<AsyncIppClient>)
    ensures
        builder_settings(r) == (Settings {
            credentials: Some(user@ + seq![':'] + password@),
            ..builder_settings(builder)
        }),
{
    builder.basic_auth(user, password)
}

/// `IppClientBuilder::ca_cert`, which adds a certificate behind those set before.
#[verifier::external_body]
pub(crate) fn with_certificate(
    builder: TransportBuilder<AsyncIppClient>,
    certificate: Vec<u8>,
) -> (r: TransportBuilder<AsyncIppClient>)
    ensures
        builder_settings(r) == (Settings {
            certificates: builder_settings(builder).certificates.push(certificate@),
            ..builder_settings(builder)
        }),
{
    builder.ca_cert(certificate)
}

/// `IppClientBuilder::ignore_tls_errors`, which sets whether any certificate is
/// accepted and nothing else.
#[verifier::external_body]
pub(crate) fn with_invalid_accepted(
    builder: TransportBuilder<AsyncIppClient>,
    accept: bool,
) -> (r: TransportBuilder<AsyncIppClient>)
    ensures
        builder_settings(r) == (Settings {
            accept_invalid: accept,
            ..builder_settings(builder)
        }),
{
    builder.ignore_tls_errors(accept)
}

/// `IppClientBuilder::build`, which takes the settings over as they are.
#[verifier::external_body]
pub(crate) fn build_transport(builder: TransportBuilder<AsyncIppClient>) -> (r: AsyncIppClient)
    ensures
        transport_settings(r) == builder_settings(builder),
{
    builder.build()
}

} // verus!
