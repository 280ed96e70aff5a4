//! One run, from the settings to the signed request, as a machine that is
//! told what happened and says what to do next.

use crate::broker::{
    broker_request_spec, credentials_spec, get_credentials, get_credentials_request,
    get_id_request, get_identity, identity_spec, BrokerRequestView, GetCredentialsReply,
    GetCredentialsRequest, GetIdReply, GetIdRequest,
};
use crate::error::{Sigv4Error, Sigv4ErrorView};
use crate::headers::header_map_entries;
use crate::settings::DemoSettings;
use crate::signer::{
    get_signing_headers, signing_headers_spec, Credentials, CredentialsView, Timestamp,
};
use crate::token::{
    get_id_token, id_token_of, id_token_spec, initiate_auth_request, initiate_auth_spec,
    InitiateAuthReply, InitiateAuthRequest, InitiateAuthRequestView,
};
use reqwest::header::{HeaderMap, HeaderValue};
use vstd::prelude::*;

verus! {

/// How far a run has come.
#[derive(Debug)]
pub enum Stage {
    /// Nothing has been asked for yet.
    Start,
    /// The sign-in call is under way.
    AwaitingToken,
    /// The identity lookup is under way, for this identity token.
    AwaitingIdentity { id_token: String },
    /// The credential exchange is under way.
    AwaitingCredentials,
    /// The credentials are here; the time of signing is awaited.
    AwaitingTime { credentials: Credentials },
    /// The signed request has been handed out.
    Dispatched,
    /// The run was abandoned.
    Failed(Sigv4Error),
}

/// What a [`Stage`] holds.
pub enum StageView {
    Start,
    AwaitingToken,
    AwaitingIdentity { id_token: Seq<char> },
    AwaitingCredentials,
    AwaitingTime { credentials: CredentialsView },
    Dispatched,
    Failed(Sigv4ErrorView),
}

impl View for Stage {
    type V = StageView;

    open spec fn view(&self) -> StageView {
        match self {
            Stage::Start => StageView::Start,
            Stage::AwaitingToken => StageView::AwaitingToken,
            Stage::AwaitingIdentity { id_token } => StageView::AwaitingIdentity {
                id_token: id_token@,
            },
            Stage::AwaitingCredentials => StageView::AwaitingCredentials,
            Stage::AwaitingTime { credentials } => StageView::AwaitingTime {
                credentials: credentials@,
            },
            Stage::Dispatched => StageView::Dispatched,
            Stage::Failed(error) => StageView::Failed(error@),
        }
    }
}

/// What a run is told.
#[derive(Debug)]
pub enum Event {
    /// The run is to begin.
    Begin,
    /// The sign-in call ended: with a reply, or with an account of why not.
    Token(Result<InitiateAuthReply, String>),
    /// The identity lookup ended.
    Identity(Result<GetIdReply, String>),
    /// The credential exchange ended.
    Credentials(Result<GetCredentialsReply, String>),
    /// The clock was read.
    Time(Timestamp),
}

/// A request with the headers that sign it.
#[derive(Debug)]
pub struct SignedRequest {
    pub method: String,
    pub url: String,
    pub headers: HeaderMap<HeaderValue>,
}

/// What a [`SignedRequest`] holds.
pub struct SignedRequestView {
    pub method: Seq<char>,
    pub url: Seq<char>,
    pub headers: Map<Seq<char>, Seq<char>>,
}

impl View for SignedRequest {
    type V = SignedRequestView;

    open spec fn view(&self) -> SignedRequestView {
        SignedRequestView {
            method: self.method@,
            url: self.url@,
            headers: header_map_entries(self.headers),
        }
    }
}

/// What a run asks to be done next.
#[derive(Debug)]
pub enum Action {
    /// Sign in at the user pool.
    InitiateAuth(InitiateAuthRequest),
    /// Look the identity up at the identity pool.
    GetId(GetIdRequest),
    /// Exchange the identity for credentials at the identity pool.
    GetCredentialsForIdentity(GetCredentialsRequest),
    /// Read the clock.
    ReadClock,
    /// Send the signed request.
    Send(SignedRequest),
    /// Give the run up: the stage says why.
    Abort,
    /// Nothing: the event was not awaited.
    Idle,
}

/// What an [`Action`] holds.
pub enum ActionView {
    InitiateAuth(InitiateAuthRequestView),
    GetId(BrokerRequestView),
    GetCredentialsForIdentity(BrokerRequestView),
    ReadClock,
    Send(SignedRequestView),
    Abort,
    Idle,
}

impl View for Action {
    type V = ActionView;

    open spec fn view(&self) -> ActionView {
        match self {
            Action::InitiateAuth(request) => ActionView::InitiateAuth(request@),
            Action::GetId(request) => ActionView::GetId(request@),
            Action::GetCredentialsForIdentity(request) => ActionView::GetCredentialsForIdentity(
                request@,
            ),
            Action::ReadClock => ActionView::ReadClock,
            Action::Send(request) => ActionView::Send(request@),
            Action::Abort => ActionView::Abort,
            Action::Idle => ActionView::Idle,
        }
    }
}

/// Whether `action` asks for a call to a service.
pub open spec fn is_call(action: ActionView) -> bool {
    action is InitiateAuth || action is GetId || action is GetCredentialsForIdentity
        || action is Send
}

/// The stage after `event` and the action that it brings.
///
/// Each stage awaits one kind of event. The awaited event moves the run on,
/// or fails it with the error of the step; any other event changes nothing
/// and asks for nothing. A request is signed as a `GET` of the settings' URL
/// for the service `execute-api` in the settings' region.
pub open spec fn advance_spec(stage: StageView, event: Event, settings: DemoSettings) -> (
    StageView,
    ActionView,
) {
    match (stage, event) {
        (StageView::Start, Event::Begin) => (
            StageView::AwaitingToken,
            ActionView::InitiateAuth(
                initiate_auth_spec(settings.client_id@, settings.login@, settings.password@),
            ),
        ),
        (StageView::AwaitingToken, Event::Token(outcome)) => match id_token_spec(outcome) {
            Ok(id_token) => (
                StageView::AwaitingIdentity { id_token },
                ActionView::GetId(
                    broker_request_spec(
                        settings.ident_pool@,
                        settings.region@,
                        settings.user_pool@,
                        id_token,
                    ),
                ),
            ),
            Err(error) => (StageView::Failed(error), ActionView::Abort),
        },
        (StageView::AwaitingIdentity { id_token }, Event::Identity(outcome)) => match identity_spec(
            outcome,
        ) {
            Ok(identity) => (
                StageView::AwaitingCredentials,
                ActionView::GetCredentialsForIdentity(
                    broker_request_spec(
                        identity,
                        settings.region@,
                        settings.user_pool@,
                        id_token,
                    ),
                ),
            ),
            Err(error) => (StageView::Failed(error), ActionView::Abort),
        },
        (StageView::AwaitingCredentials, Event::Credentials(outcome)) => match credentials_spec(
            outcome,
        ) {
            Ok(credentials) => (StageView::AwaitingTime { credentials }, ActionView::ReadClock),
            Err(error) => (StageView::Failed(error), ActionView::Abort),
        },
        (StageView::AwaitingTime { credentials }, Event::Time(now)) => match signing_headers_spec(
            credentials,
            "GET"@,
            settings.url@,
            settings.region@,
            "execute-api"@,
            now,
        ) {
            Ok(headers) => (
                StageView::Dispatched,
                ActionView::Send(
                    SignedRequestView { method: "GET"@, url: settings.url@, headers },
                ),
            ),
            Err(error) => (StageView::Failed(error), ActionView::Abort),
        },
        (stage, _) => (stage, ActionView::Idle),
    }
}

/// Moves a run on by one event, and says what to do next.
pub fn advance(stage: Stage, event: Event, settings: &DemoSettings) -> (next: (Stage, Action))
    ensures
        (next.0@, next.1@) == advance_spec(stage@, event, *settings),
{
    match (stage, event) {
        (Stage::Start, Event::Begin) => {
            let request = initiate_auth_request(
                settings.client_id.as_str(),
                settings.login.as_str(),
                settings.password.as_str(),
            );
            (Stage::AwaitingToken, Action::InitiateAuth(request))
        },
        (Stage::AwaitingToken, Event::Token(outcome)) => match get_id_token(outcome) {
            Ok(id_token) => {
                let request = get_id_request(
                    settings.ident_pool.as_str(),
                    settings.region.as_str(),
                    settings.user_pool.as_str(),
                    id_token.as_str(),
                );
                (Stage::AwaitingIdentity { id_token }, Action::GetId(request))
            },
            Err(error) => (Stage::Failed(error), Action::Abort),
        },
        (Stage::AwaitingIdentity { id_token }, Event::Identity(outcome)) => match get_identity(
            outcome,
        ) {
            Ok(identity) => {
                let request = get_credentials_request(
                    identity,
                    settings.region.as_str(),
                    settings.user_pool.as_str(),
                    id_token,
                );
                (Stage::AwaitingCredentials, Action::GetCredentialsForIdentity(request))
            },
            Err(error) => (Stage::Failed(error), Action::Abort),
        },
        (Stage::AwaitingCredentials, Event::Credentials(outcome)) => match get_credentials(
            outcome,
        ) {
            Ok(credentials) => (Stage::AwaitingTime { credentials }, Action::ReadClock),
            Err(error) => (Stage::Failed(error), Action::Abort),
        },
        (Stage::AwaitingTime { credentials }, Event::Time(now)) => match get_signing_headers(
            &credentials,
            "GET",
            settings.url.as_str(),
            settings.region.as_str(),
            "execute-api",
            now,
        ) {
            Ok(headers) => {
                let request = SignedRequest {
                    method: "GET".to_owned(),
                    url: settings.url.clone(),
                    headers,
                };
                (Stage::Dispatched, Action::Send(request))
            },
            Err(error) => (Stage::Failed(error), Action::Abort),
        },
        (stage, _) => (stage, Action::Idle),
    }
}

/// The stage that `events`, taken in their order, lead to from `stage`.
pub open spec fn stage_after(stage: StageView, events: Seq<Event>, settings: DemoSettings) -> StageView
    decreases events.len(),
{
    if events.len() == 0 {
        stage
    } else {
        advance_spec(stage_after(stage, events.drop_last(), settings), events.last(), settings).0
    }
}

/// A sign-in reply without an identity token fails the run for want of the
/// token, and no call is asked for.
pub proof fn lemma_empty_token_aborts(reply: InitiateAuthReply, settings: DemoSettings)
    requires
        id_token_of(reply) is None,
    ensures
        advance_spec(StageView::AwaitingToken, Event::Token(Ok(reply)), settings) == (
            StageView::Failed(Sigv4ErrorView::EmptyIdToken),
            ActionView::Abort,
        ),
{
}

/// A step that fails the run asks for no call to a service.
pub proof fn lemma_failing_step_calls_nothing(
    stage: StageView,
    event: Event,
    settings: DemoSettings,
)
    requires
        advance_spec(stage, event, settings).0 is Failed,
    ensures
        !is_call(advance_spec(stage, event, settings).1),
{
}

/// A run that failed stays failed with the same error, whatever it is told,
/// and never asks for anything again.
pub proof fn lemma_failure_is_final(
    error: Sigv4ErrorView,
    events: Seq<Event>,
    event: Event,
    settings: DemoSettings,
)
    ensures
        stage_after(StageView::Failed(error), events, settings) == StageView::Failed(error),
        advance_spec(stage_after(StageView::Failed(error), events, settings), event, settings).1
            == ActionView::Idle,
    decreases events.len(),
{
    if events.len() > 0 {
        lemma_failure_is_final(error, events.drop_last(), events.last(), settings);
    }
}

} // verus!
