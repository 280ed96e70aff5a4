//! The sign-in call: what is asked of the user pool, and what its reply holds.

use crate::error::{Sigv4Error, Sigv4ErrorView};
use vstd::prelude::*;

verus! {

/// The way of signing in that the user pool is asked for.
#[derive(Clone, Copy, Debug, PartialEq, Eq, Structural)]
pub enum AuthFlow {
    /// The user name and the password are sent as they are.
    UserPasswordAuth,
}

/// One named parameter of a sign-in request.
#[derive(Debug)]
pub struct AuthParameter {
    pub name: String,
    pub value: String,
}

impl View for AuthParameter {
    type V = (Seq<char>, Seq<char>);

    open spec fn view(&self) -> (Seq<char>, Seq<char>) {
        (self.name@, self.value@)
    }
}

/// A sign-in request to the user pool.
#[derive(Debug)]
pub struct InitiateAuthRequest {
    pub auth_flow: AuthFlow,
    pub client_id: String,
    pub auth_parameters: Vec<AuthParameter>,
}

/// What an [`InitiateAuthRequest`] holds.
pub struct InitiateAuthRequestView {
    pub auth_flow: AuthFlow,
    pub client_id: Seq<char>,
    pub auth_parameters: Seq<(Seq<char>, Seq<char>)>,
}

impl View for InitiateAuthRequest {
    type V = InitiateAuthRequestView;

    open spec fn view(&self) -> InitiateAuthRequestView {
        InitiateAuthRequestView {
            auth_flow: self.auth_flow,
            client_id: self.client_id@,
            auth_parameters: self.auth_parameters@.map_values(|p: AuthParameter| p@),
        }
    }
}

/// The request that signs `login` in to the application `client_id` with
/// `password`: the user name under `USERNAME`, then the password under
/// `PASSWORD`.
pub open spec fn initiate_auth_spec(
    client_id: Seq<char>,
    login: Seq<char>,
    password: Seq<char>,
) -> InitiateAuthRequestView {
    InitiateAuthRequestView {
        auth_flow: AuthFlow::UserPasswordAuth,
        client_id,
        auth_parameters: seq![("USERNAME"@, login), ("PASSWORD"@, password)],
    }
}

/// The tokens in a reply to a sign-in request.
#[derive(Debug)]
pub struct AuthenticationResult {
    pub id_token: Option<String>,
}

/// The reply to a sign-in request that the user pool answered.
#[derive(Debug)]
pub struct InitiateAuthReply {
    pub authentication_result: Option<AuthenticationResult>,
}

/// Builds the request that signs `login` in to the application `client_id`
/// with `password`.
pub fn initiate_auth_request(client_id: &str, login: &str, password: &str) -> (request:
    InitiateAuthRequest)
    ensures
        request@ == initiate_auth_spec(client_id@, login@, password@),
{
    let mut auth_parameters: Vec<AuthParameter> = Vec::new();
    auth_parameters.push(AuthParameter { name: "USERNAME".to_owned(), value: login.to_owned() });
    auth_parameters.push(AuthParameter { name: "PASSWORD".to_owned(), value: password.to_owned() });
    let request = InitiateAuthRequest {
        auth_flow: AuthFlow::UserPasswordAuth,
        client_id: client_id.to_owned(),
        auth_parameters,
    };
    assert(request@.auth_parameters == initiate_auth_spec(
        client_id@,
        login@,
        password@,
    ).auth_parameters);
    request
}

/// The identity token that a reply holds, if it holds one.
pub open spec fn id_token_of(reply: InitiateAuthReply) -> Option<Seq<char>> {
    match reply.authentication_result {
        Some(AuthenticationResult { id_token: Some(token) }) => Some(token@),
        _ => None,
    }
}

/// What [`get_id_token`] makes of the outcome of a sign-in call.
pub open spec fn id_token_spec(outcome: Result<InitiateAuthReply, String>) -> Result<
    Seq<char>,
    Sigv4ErrorView,
> {
    match outcome {
        Err(text) => Err(Sigv4ErrorView::InitiateAuth(text@)),
        Ok(reply) => match id_token_of(reply) {
            Some(token) => Ok(token),
            None => Err(Sigv4ErrorView::EmptyIdToken),
        },
    }
}

/// What a result of [`get_id_token`] holds.
pub open spec fn text_or_error(r: Result<String, Sigv4Error>) -> Result<Seq<char>, Sigv4ErrorView> {
    match r {
        Ok(text) => Ok(text@),
        Err(error) => Err(error@),
    }
}

/// The identity token out of the outcome of a sign-in call.
///
/// A call that did not complete is passed on with its account of the
/// failure; a reply without tokens, or without an identity token among them,
/// is an empty one.
pub fn get_id_token(outcome: Result<InitiateAuthReply, String>) -> (r: Result<String, Sigv4Error>)
    ensures
        text_or_error(r) == id_token_spec(outcome),
{
    match outcome {
        Err(text) => Err(Sigv4Error::InitiateAuth(text)),
        Ok(reply) => match reply.authentication_result {
            None => Err(Sigv4Error::EmptyIdToken),
            Some(result) => match result.id_token {
                None => Err(Sigv4Error::EmptyIdToken),
                Some(token) => Ok(token),
            },
        },
    }
}

} // verus!
