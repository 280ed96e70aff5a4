//! The closed set of ways in which a run can fail.

use vstd::prelude::*;

verus! {

/// Why a request was not signed.
#[derive(Clone, Copy, Debug, PartialEq, Eq, Structural)]
pub enum SigningFailure {
    /// The URL is longer than the signer is handed.
    UrlTooLong,
    /// The URL does not begin with `http://` or `https://`.
    UrlWithoutScheme,
    /// The signing time lies after the year 9999.
    TimeOutOfRange,
    /// The signer refused the request: the URL does not parse, or the session
    /// token cannot be sent as a header.
    Rejected,
    /// A computed header name holds a character that no header name may hold.
    InvalidHeaderName,
    /// A computed header value holds a character that no header value may hold.
    InvalidHeaderValue,
}

/// Why a run was abandoned. The text carried by a service failure is the
/// service client's own account of it.
#[derive(Debug)]
pub enum Sigv4Error {
    /// The sign-in call did not complete.
    InitiateAuth(String),
    /// The sign-in call completed without an identity token.
    EmptyIdToken,
    /// The identity lookup did not complete.
    GetId(String),
    /// The identity lookup completed without an identity.
    EmptyIdentity,
    /// The credential exchange did not complete.
    GetCredentialsForIdentity(String),
    /// The credential exchange completed without usable credentials.
    EmptyCredentials,
    /// The request could not be signed.
    Signing(SigningFailure),
}

/// What a [`Sigv4Error`] holds.
pub enum Sigv4ErrorView {
    InitiateAuth(Seq<char>),
    EmptyIdToken,
    GetId(Seq<char>),
    EmptyIdentity,
    GetCredentialsForIdentity(Seq<char>),
    EmptyCredentials,
    Signing(SigningFailure),
}

impl View for Sigv4Error {
    type V = Sigv4ErrorView;

    open spec fn view(&self) -> Sigv4ErrorView {
        match self {
            Sigv4Error::InitiateAuth(text) => Sigv4ErrorView::InitiateAuth(text@),
            Sigv4Error::EmptyIdToken => Sigv4ErrorView::EmptyIdToken,
            Sigv4Error::GetId(text) => Sigv4ErrorView::GetId(text@),
            Sigv4Error::EmptyIdentity => Sigv4ErrorView::EmptyIdentity,
            Sigv4Error::GetCredentialsForIdentity(text) => Sigv4ErrorView::GetCredentialsForIdentity(
                text@,
            ),
            Sigv4Error::EmptyCredentials => Sigv4ErrorView::EmptyCredentials,
            Sigv4Error::Signing(failure) => Sigv4ErrorView::Signing(*failure),
        }
    }
}

impl From<SigningFailure> for Sigv4Error {
    fn from(failure: SigningFailure) -> (error: Sigv4Error) {
        Sigv4Error::Signing(failure)
    }
}

impl vstd::std_specs::convert::FromSpecImpl<SigningFailure> for Sigv4Error {
    open spec fn obeys_from_spec() -> bool {
        true
    }

    open spec fn from_spec(failure: SigningFailure) -> Sigv4Error {
        Sigv4Error::Signing(failure)
    }
}

} // verus!
