//! The two calls to the identity pool that turn an identity token into
//! temporary credentials.

use crate::error::{Sigv4Error, Sigv4ErrorView};
use crate::signer::{Credentials, CredentialsView};
use crate::token::text_or_error;
use vstd::prelude::*;

verus! {

/// The reply to an identity lookup that the identity pool answered.
#[derive(Debug)]
pub struct GetIdReply {
    pub identity_id: Option<String>,
}

/// Credentials as the identity pool sends them: any part may be missing.
#[derive(Debug)]
pub struct IssuedCredentials {
    pub access_key_id: Option<String>,
    pub secret_key: Option<String>,
    pub session_token: Option<String>,
}

/// The reply to a credential exchange that the identity pool answered.
#[derive(Debug)]
pub struct GetCredentialsReply {
    pub credentials: Option<IssuedCredentials>,
}

/// The name under which the identity pool knows the user pool `user_pool` of
/// `region`.
pub open spec fn login_key_spec(region: Seq<char>, user_pool: Seq<char>) -> Seq<char> {
    "cognito-idp."@ + region + ".amazonaws.com/"@ + user_pool
}

/// The name under which an identity token of the user pool `user_pool` of
/// `region` is handed to the identity pool.
pub fn login_key(region: &str, user_pool: &str) -> (key: String)
    ensures
        key@ == login_key_spec(region@, user_pool@),
{
    let mut key = "cognito-idp.".to_owned();
    key.append(region);
    key.append(".amazonaws.com/");
    key.append(user_pool);
    key
}

/// An identity lookup: the identity pool is asked whose the identity token
/// is, the token standing under the login key of the user pool that issued it.
#[derive(Debug)]
pub struct GetIdRequest {
    pub identity_pool_id: String,
    pub login_key: String,
    pub id_token: String,
}

/// A credential exchange: the identity pool is asked for credentials of an
/// identity, against the same token under the same login key.
#[derive(Debug)]
pub struct GetCredentialsRequest {
    pub identity_id: String,
    pub login_key: String,
    pub id_token: String,
}

/// What a request to the identity pool holds: the pool or the identity that
/// it names, the login key, and the identity token.
pub struct BrokerRequestView {
    pub subject: Seq<char>,
    pub login_key: Seq<char>,
    pub id_token: Seq<char>,
}

impl View for GetIdRequest {
    type V = BrokerRequestView;

    open spec fn view(&self) -> BrokerRequestView {
        BrokerRequestView {
            subject: self.identity_pool_id@,
            login_key: self.login_key@,
            id_token: self.id_token@,
        }
    }
}

impl View for GetCredentialsRequest {
    type V = BrokerRequestView;

    open spec fn view(&self) -> BrokerRequestView {
        BrokerRequestView {
            subject: self.identity_id@,
            login_key: self.login_key@,
            id_token: self.id_token@,
        }
    }
}

/// The request about `subject` for a token of the user pool `user_pool` of
/// `region`.
pub open spec fn broker_request_spec(
    subject: Seq<char>,
    region: Seq<char>,
    user_pool: Seq<char>,
    id_token: Seq<char>,
) -> BrokerRequestView {
    BrokerRequestView { subject, login_key: login_key_spec(region, user_pool), id_token }
}

/// Builds the identity lookup in the pool `identity_pool_id` for a token of
/// the user pool `user_pool` of `region`.
pub fn get_id_request(identity_pool_id: &str, region: &str, user_pool: &str, id_token: &str) -> (request:
    GetIdRequest)
    ensures
        request@ == broker_request_spec(identity_pool_id@, region@, user_pool@, id_token@),
{
    GetIdRequest {
        identity_pool_id: identity_pool_id.to_owned(),
        login_key: login_key(region, user_pool),
        id_token: id_token.to_owned(),
    }
}

/// Builds the credential exchange for the identity `identity_id` against a
/// token of the user pool `user_pool` of `region`.
pub fn get_credentials_request(
    identity_id: String,
    region: &str,
    user_pool: &str,
    id_token: String,
) -> (request: GetCredentialsRequest)
    ensures
        request@ == broker_request_spec(identity_id@, region@, user_pool@, id_token@),
{
    GetCredentialsRequest { identity_id, login_key: login_key(region, user_pool), id_token }
}

/// What [`get_identity`] makes of the outcome of an identity lookup.
pub open spec fn identity_spec(outcome: Result<GetIdReply, String>) -> Result<
    Seq<char>,
    Sigv4ErrorView,
> {
    match outcome {
        Err(text) => Err(Sigv4ErrorView::GetId(text@)),
        Ok(GetIdReply { identity_id: Some(identity) }) => Ok(identity@),
        Ok(GetIdReply { identity_id: None }) => Err(Sigv4ErrorView::EmptyIdentity),
    }
}

/// The identity out of the outcome of an identity lookup.
///
/// A call that did not complete is passed on with its account of the
/// failure; a reply without an identity is an empty one.
pub fn get_identity(outcome: Result<GetIdReply, String>) -> (r: Result<String, Sigv4Error>)
    ensures
        text_or_error(r) == identity_spec(outcome),
{
    match outcome {
        Err(text) => Err(Sigv4Error::GetId(text)),
        Ok(reply) => match reply.identity_id {
            None => Err(Sigv4Error::EmptyIdentity),
            Some(identity) => Ok(identity),
        },
    }
}

/// The credentials that a reply holds, if it holds an access key and its
/// secret.
pub open spec fn credentials_of(reply: GetCredentialsReply) -> Option<CredentialsView> {
    match reply.credentials {
        Some(
            IssuedCredentials {
                access_key_id: Some(access_key_id),
                secret_key: Some(secret_key),
                session_token,
            },
        ) => Some(
            CredentialsView {
                access_key_id: access_key_id@,
                secret_key: secret_key@,
                session_token: match session_token {
                    Some(token) => Some(token@),
                    None => None,
                },
            },
        ),
        _ => None,
    }
}

/// What [`get_credentials`] makes of the outcome of a credential exchange.
pub open spec fn credentials_spec(outcome: Result<GetCredentialsReply, String>) -> Result<
    CredentialsView,
    Sigv4ErrorView,
> {
    match outcome {
        Err(text) => Err(Sigv4ErrorView::GetCredentialsForIdentity(text@)),
        Ok(reply) => match credentials_of(reply) {
            Some(credentials) => Ok(credentials),
            None => Err(Sigv4ErrorView::EmptyCredentials),
        },
    }
}

/// What a result of [`get_credentials`] holds.
pub open spec fn credentials_or_error(r: Result<Credentials, Sigv4Error>) -> Result<
    CredentialsView,
    Sigv4ErrorView,
> {
    match r {
        Ok(credentials) => Ok(credentials@),
        Err(error) => Err(error@),
    }
}

/// The temporary credentials out of the outcome of a credential exchange.
///
/// A call that did not complete is passed on with its account of the
/// failure; a reply without credentials, or with credentials that lack the
/// access key or its secret, is an empty one. The session token is kept as it
/// came.
pub fn get_credentials(outcome: Result<GetCredentialsReply, String>) -> (r: Result<
    Credentials,
    Sigv4Error,
>)
    ensures
        credentials_or_error(r) == credentials_spec(outcome),
{
    match outcome {
        Err(text) => Err(Sigv4Error::GetCredentialsForIdentity(text)),
        Ok(reply) => match reply.credentials {
            None => Err(Sigv4Error::EmptyCredentials),
            Some(issued) => match (issued.access_key_id, issued.secret_key) {
                (Some(access_key_id), Some(secret_key)) => Ok(
                    Credentials { access_key_id, secret_key, session_token: issued.session_token },
                ),
                _ => Err(Sigv4Error::EmptyCredentials),
            },
        },
    }
}

} // verus!
