//! Where a connection leads to.

use gix_url::parse::Error as UrlParseError;
use gix_url::Url;
use vstd::prelude::*;

verus! {

/// A location of a repository, as `gix_url` has it.
#[verifier::external_type_specification]
#[verifier::external_body]
pub struct ExUrl(gix_url::Url);

/// Why bytes are no location of a repository, as `gix_url` has it.
#[verifier::external_type_specification]
#[verifier::external_body]
pub struct ExUrlParseError(UrlParseError);

/// What `gix_url::parse()` returns for `input`, on Windows or elsewhere.
pub uninterp spec fn parse_result(input: Seq<u8>, on_windows: bool) -> Result<
    gix_url::Url,
    UrlParseError,
>;

/// Call `gix_url::parse()`.
///
/// Its result is a function of `input` and of the platform that the program was built for, as
/// drive letters and backslashes are special on Windows only. Which of the two it is stays open.
#[verifier::external_body]
pub(crate) fn parse_url(input: &Vec<u8>) -> (parsed: Result<gix_url::Url, UrlParseError>)
    ensures
        parsed == parse_result(input@, false) || parsed == parse_result(input@, true),
{
    gix_url::parse(input.as_slice().into())
}

/// The location that credentials are looked up for.
pub enum CredentialsUrl<'a> {
    /// The one that the remote is configured with.
    OfRemote(&'a Url),
    /// The one that the transport reports, used if the remote is configured without.
    OfTransport(Url),
}

impl<'a> CredentialsUrl<'a> {
    /// The location itself.
    pub open spec fn location(self) -> Url {
        match self {
            CredentialsUrl::OfRemote(url) => *url,
            CredentialsUrl::OfTransport(url) => url,
        }
    }

    /// Return the location itself.
    pub fn url(&self) -> (url: &Url)
        ensures
            *url == self.location(),
            self matches CredentialsUrl::OfRemote(of_remote) ==> *url == **of_remote,
            self matches CredentialsUrl::OfTransport(of_transport) ==> *url == *of_transport,
    {
        match self {
            CredentialsUrl::OfRemote(url) => url,
            CredentialsUrl::OfTransport(url) => url,
        }
    }
}

} // verus!
