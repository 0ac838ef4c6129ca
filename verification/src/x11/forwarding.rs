//! Preparing a forwarding over the managed server.

use vstd::prelude::*;
use vstd::utf8::*;

use crate::text;
use crate::text::text_from_utf8;
use crate::x11::error::{X11ErrorView, X11ForwardingError, X11Result};

verus! {

/// How far the clients of a forwarding are trusted.
#[derive(Clone, Copy, Debug, PartialEq, Eq, Structural)]
pub enum X11ForwardTrust {
    Trusted,
    Untrusted,
}

/// What a forwarding is asked to be.
#[derive(Clone, Copy, Debug, PartialEq, Eq, Structural)]
pub struct X11ForwardPolicy {
    pub trust: X11ForwardTrust,
    pub timeout_millis: Option<u64>,
}

/// Where a display can be reached on this machine.
#[derive(Clone, Debug, PartialEq, Eq)]
pub enum X11LocalEndpoint {
    Tcp { host: String, port: u16 },
    UnixSocket { path: String },
}

/// An endpoint as a mathematical value.
pub enum X11EndpointView {
    Tcp { host: Seq<char>, port: u16 },
    UnixSocket { path: Seq<char> },
}

impl View for X11LocalEndpoint {
    type V = X11EndpointView;

    open spec fn view(&self) -> X11EndpointView {
        match self {
            X11LocalEndpoint::Tcp { host, port } => X11EndpointView::Tcp {
                host: host@,
                port: *port,
            },
            X11LocalEndpoint::UnixSocket { path } => X11EndpointView::UnixSocket { path: path@ },
        }
    }
}

/// How long a connection to a server that should answer may take.
pub const REACHABILITY_TIMEOUT_MILLIS: u64 = 500;

impl X11LocalEndpoint {
    /// The same endpoint again.
    pub fn duplicate(&self) -> (endpoint: Self)
        ensures
            endpoint@ == self@,
            match self {
                X11LocalEndpoint::Tcp { host, port } => {
                    endpoint matches X11LocalEndpoint::Tcp { host: same_host, port: same_port }
                        && same_host@ == host@ && same_port == port
                },
                X11LocalEndpoint::UnixSocket { path } => {
                    endpoint matches X11LocalEndpoint::UnixSocket { path: same_path } && same_path@
                        == path@
                },
            },
    {
        match self {
            X11LocalEndpoint::Tcp { host, port } => X11LocalEndpoint::Tcp {
                host: host.clone(),
                port: *port,
            },
            X11LocalEndpoint::UnixSocket { path } => X11LocalEndpoint::UnixSocket {
                path: path.clone(),
            },
        }
    }

    /// The host and the port that a reachability check connects to. An endpoint
    /// that is not on TCP has none, and counts as not reachable.
    pub fn reachability_target(&self) -> (target: Option<(&str, u16)>)
        ensures
            match self@ {
                X11EndpointView::Tcp { host, port } => (target matches Some(target) && target.0@
                    == host && target.1 == port),
                _ => target is None,
            },
            target is Some <==> self is Tcp,
            self matches X11LocalEndpoint::Tcp { host, port } ==> (target matches Some(target)
                && target.0@ == host@ && target.1 == port),
    {
        match self {
            X11LocalEndpoint::Tcp { host, port } => Some((host.as_str(), *port)),
            _ => None,
        }
    }
}

/// Where the cookie of a forwarding comes from.
#[derive(Clone, Copy, Debug, PartialEq, Eq, Structural)]
pub enum CookieSource {
    /// The server's own cookie.
    Server,
    /// A cookie that `xauth` generates for this forwarding.
    Generated,
}

/// Only trusted clients are given the server's own cookie.
pub fn cookie_source(policy: X11ForwardPolicy) -> (source: CookieSource)
    ensures
        source == CookieSource::Server <==> policy.trust == X11ForwardTrust::Trusted,
        source == CookieSource::Generated <==> policy.trust == X11ForwardTrust::Untrusted,
{
    match policy.trust {
        X11ForwardTrust::Trusted => CookieSource::Server,
        X11ForwardTrust::Untrusted => CookieSource::Generated,
    }
}

/// A forwarding that is ready: where its clients end up, what is asked of the
/// remote side, and how they are let in.
pub struct X11PreparedForwarding<R, A> {
    pub endpoint: X11LocalEndpoint,
    pub request: R,
    pub auth: A,
    pub acceptance_timeout_millis: Option<u64>,
}

/// Puts a forwarding together.
pub fn prepared_forwarding<R, A>(
    endpoint: &X11LocalEndpoint,
    policy: X11ForwardPolicy,
    request: R,
    auth: A,
) -> (prepared: X11PreparedForwarding<R, A>)
    ensures
        prepared.endpoint@ == endpoint@,
        match endpoint {
            X11LocalEndpoint::Tcp { host, port } => {
                prepared.endpoint matches X11LocalEndpoint::Tcp { host: same_host, port: same_port }
                    && same_host@ == host@ && same_port == port
            },
            X11LocalEndpoint::UnixSocket { path } => {
                prepared.endpoint matches X11LocalEndpoint::UnixSocket { path: same_path }
                    && same_path@ == path@
            },
        },
        prepared.request == request,
        prepared.auth == auth,
        prepared.acceptance_timeout_millis == policy.timeout_millis,
{
    X11PreparedForwarding {
        endpoint: endpoint.duplicate(),
        request,
        auth,
        acceptance_timeout_millis: policy.timeout_millis,
    }
}

/// A cookie that waits to be generated into an authority file.
#[derive(Debug, PartialEq, Eq)]
pub struct CookieGeneration<P> {
    pub authority_path: P,
}

/// A generated cookie that waits to be listed from its authority file.
#[derive(Debug, PartialEq, Eq)]
pub struct CookieListing<P> {
    pub authority_path: P,
}

/// What the making of a cookie for untrusted clients does next.
#[derive(Debug, PartialEq, Eq)]
pub enum UntrustedStep<P> {
    /// Make a private directory for the generated cookie.
    CreateDirectory,
    /// Have `xauth` generate the cookie into this file.
    GenerateCookie(CookieGeneration<P>),
    /// Have `xauth` list what was generated into this file.
    ListCookies(CookieListing<P>),
    /// Read this listing.
    ReadListing(String),
    /// There is no cookie.
    Failed(X11ForwardingError),
}

/// What the making of a cookie does next, as a mathematical value.
pub enum UntrustedStepView<P> {
    CreateDirectory,
    GenerateCookie { authority_path: P },
    ListCookies { authority_path: P },
    ReadListing(Seq<char>),
    Failed(X11ErrorView),
}

impl<P> View for UntrustedStep<P> {
    type V = UntrustedStepView<P>;

    open spec fn view(&self) -> UntrustedStepView<P> {
        match self {
            UntrustedStep::CreateDirectory => UntrustedStepView::CreateDirectory,
            UntrustedStep::GenerateCookie(generation) => UntrustedStepView::GenerateCookie {
                authority_path: generation.authority_path,
            },
            UntrustedStep::ListCookies(listing) => UntrustedStepView::ListCookies {
                authority_path: listing.authority_path,
            },
            UntrustedStep::ReadListing(listing) => UntrustedStepView::ReadListing(listing@),
            UntrustedStep::Failed(error) => UntrustedStepView::Failed(error@),
        }
    }
}

/// The step behind the attempt to make the directory, which gives the path of the
/// authority file in it or the words of the system.
pub open spec fn after_directory<P>(directory: Result<P, Seq<char>>) -> UntrustedStepView<P> {
    match directory {
        Ok(authority_path) => UntrustedStepView::GenerateCookie { authority_path },
        Err(detail) => UntrustedStepView::Failed(X11ErrorView::AuthorityFileUnavailable(detail)),
    }
}

/// The step behind the generation of a cookie, given the error if it failed. The
/// file that is listed is the one that the cookie was generated into.
pub open spec fn after_generation<P>(
    authority_path: P,
    failure: Option<X11ErrorView>,
) -> UntrustedStepView<P> {
    match failure {
        None => UntrustedStepView::ListCookies { authority_path },
        Some(error) => UntrustedStepView::Failed(error),
    }
}

/// The step behind the listing, which has to be UTF-8.
pub open spec fn after_listing<P>(
    listing: Result<Seq<u8>, X11ErrorView>,
) -> UntrustedStepView<P> {
    match listing {
        Err(error) => UntrustedStepView::Failed(error),
        Ok(bytes) => if valid_utf8(bytes) {
            UntrustedStepView::ReadListing(decode_utf8(bytes))
        } else {
            UntrustedStepView::Failed(X11ErrorView::XauthFailed(text::utf8_error_text(bytes)))
        },
    }
}

impl<P> UntrustedStep<P> {
    /// Starts making a cookie.
    pub fn begin() -> (step: Self)
        ensures
            step@ == UntrustedStepView::<P>::CreateDirectory,
            step is CreateDirectory,
    {
        UntrustedStep::CreateDirectory
    }

    /// Continues after the attempt to make the directory, which gives the path of
    /// the authority file in it.
    pub fn directory_created(outcome: Result<P, String>) -> (step: Self)
        ensures
            step@ == after_directory(
                match outcome {
                    Ok(authority_path) => Ok(authority_path),
                    Err(detail) => Err(detail@),
                },
            ),
            match outcome {
                Ok(authority_path) => {
                    step matches UntrustedStep::GenerateCookie(generation)
                        && generation.authority_path == authority_path
                },
                Err(detail) => {
                    &&& step matches UntrustedStep::Failed(error)
                    &&& error matches X11ForwardingError::AuthorityFileUnavailable(text)
                    &&& text@ == detail@
                },
            },
    {
        match outcome {
            Ok(authority_path) => UntrustedStep::GenerateCookie(
                CookieGeneration { authority_path },
            ),
            Err(detail) => UntrustedStep::Failed(
                X11ForwardingError::AuthorityFileUnavailable(detail),
            ),
        }
    }

    /// Continues after the listing was decoded, or was found not to be UTF-8.
    pub fn listing_decoded(outcome: Result<String, String>) -> (step: Self)
        ensures
            step@ == (match outcome {
                Ok(listing) => UntrustedStepView::<P>::ReadListing(listing@),
                Err(detail) => UntrustedStepView::<P>::Failed(X11ErrorView::XauthFailed(detail@)),
            }),
            match outcome {
                Ok(listing) => (step matches UntrustedStep::ReadListing(read) && read@ == listing@),
                Err(detail) => {
                    &&& step matches UntrustedStep::Failed(error)
                    &&& error matches X11ForwardingError::XauthFailed(text)
                    &&& text@ == detail@
                },
            },
    {
        match outcome {
            Ok(listing) => UntrustedStep::ReadListing(listing),
            Err(detail) => UntrustedStep::Failed(X11ForwardingError::XauthFailed(detail)),
        }
    }
}

impl<P> CookieGeneration<P> {
    /// Continues after `xauth` was asked to generate a cookie into the file.
    pub fn generated(self, outcome: X11Result<()>) -> (step: UntrustedStep<P>)
        ensures
            step@ == after_generation(
                self.authority_path,
                match outcome {
                    Ok(_) => None,
                    Err(error) => Some(error@),
                },
            ),
            match outcome {
                Ok(_) => {
                    step matches UntrustedStep::ListCookies(listing) && listing.authority_path
                        == self.authority_path
                },
                Err(failure) => (step matches UntrustedStep::Failed(error) && error == failure),
            },
    {
        match outcome {
            Ok(_) => UntrustedStep::ListCookies(
                CookieListing { authority_path: self.authority_path },
            ),
            Err(error) => UntrustedStep::Failed(error),
        }
    }
}

impl<P> CookieListing<P> {
    /// Continues after `xauth` was asked for a listing of the file.
    pub fn listed(self, outcome: X11Result<&[u8]>) -> (step: UntrustedStep<P>)
        ensures
            step@ == after_listing::<P>(
                match outcome {
                    Ok(listing) => Ok(listing@),
                    Err(error) => Err(error@),
                },
            ),
            match outcome {
                Ok(listing) => if valid_utf8(listing@) {
                    step matches UntrustedStep::ReadListing(read) && read@ == decode_utf8(listing@)
                } else {
                    &&& step matches UntrustedStep::Failed(error)
                    &&& error matches X11ForwardingError::XauthFailed(text)
                    &&& text@ == text::utf8_error_text(listing@)
                },
                Err(failure) => (step matches UntrustedStep::Failed(error) && error == failure),
            },
    {
        match outcome {
            Ok(listing) => UntrustedStep::listing_decoded(text_from_utf8(listing)),
            Err(error) => UntrustedStep::Failed(error),
        }
    }
}

/// The steps of the making of a cookie, if they go as said.
pub open spec fn untrusted_steps<P>(
    directory: Result<P, Seq<char>>,
    generation: Option<X11ErrorView>,
    listing: Result<Seq<u8>, X11ErrorView>,
) -> Seq<UntrustedStepView<P>> {
    let first = UntrustedStepView::CreateDirectory;
    match after_directory(directory) {
        UntrustedStepView::GenerateCookie { authority_path: generated } => {
            let second = UntrustedStepView::GenerateCookie { authority_path: generated };
            match after_generation(generated, generation) {
                UntrustedStepView::ListCookies { authority_path: listed } => seq![
                    first,
                    second,
                    UntrustedStepView::ListCookies { authority_path: listed },
                    after_listing(listing),
                ],
                end => seq![first, second, end],
            }
        },
        end => seq![first, end],
    }
}

/// A listing is read if and only if every step worked and the listing is text,
/// and it is read unchanged. Otherwise the first failure is reported.
pub proof fn lemma_untrusted_cookie_needs_every_step<P>(
    directory: Result<P, Seq<char>>,
    generation: Option<X11ErrorView>,
    listing: Result<Seq<u8>, X11ErrorView>,
)
    ensures
        ({
            let end = untrusted_steps(directory, generation, listing).last();
            &&& end is ReadListing || end is Failed
            &&& end is ReadListing <==> directory is Ok && generation is None && (
            listing matches Ok(bytes) && valid_utf8(bytes))
            &&& end is ReadListing ==> encode_utf8(end->ReadListing_0) == listing->Ok_0
            &&& directory matches Err(detail) ==> end == UntrustedStepView::<P>::Failed(
                X11ErrorView::AuthorityFileUnavailable(detail),
            )
            &&& directory is Ok ==> (generation matches Some(error) ==> end
                == UntrustedStepView::<P>::Failed(error))
            &&& directory is Ok && generation is None ==> (listing matches Err(error) ==> end
                == UntrustedStepView::<P>::Failed(error))
            &&& directory is Ok && generation is None ==> (listing matches Ok(bytes)
                ==> !valid_utf8(bytes) ==> end == UntrustedStepView::<P>::Failed(
                X11ErrorView::XauthFailed(text::utf8_error_text(bytes)),
            ))
        }),
{
    broadcast use decode_utf8_encode_utf8;

}

/// The file that a cookie is generated into, and the file that is listed, are the
/// one in the directory that was made.
pub proof fn lemma_generated_file_is_listed<P>(
    authority_path: P,
    generation: Option<X11ErrorView>,
    listing: Result<Seq<u8>, X11ErrorView>,
)
    ensures
        ({
            let steps = untrusted_steps(Ok::<P, Seq<char>>(authority_path), generation, listing);
            &&& steps[1] == (UntrustedStepView::GenerateCookie { authority_path })
            &&& generation is None ==> steps[2] == (UntrustedStepView::ListCookies {
                authority_path,
            })
        }),
{
}

} // verus!
