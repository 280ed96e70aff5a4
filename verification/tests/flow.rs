use cognito_sigv4::broker::{
    get_credentials, get_credentials_request, get_id_request, get_identity, login_key,
    GetCredentialsReply, GetIdReply, IssuedCredentials,
};
use cognito_sigv4::error::{SigningFailure, Sigv4Error};
use cognito_sigv4::flow::{advance, Action, Event, Stage};
use cognito_sigv4::settings::DemoSettings;
use cognito_sigv4::signer::Timestamp;
use cognito_sigv4::token::{
    get_id_token, initiate_auth_request, AuthFlow, AuthenticationResult, InitiateAuthReply,
};

fn settings() -> DemoSettings {
    DemoSettings {
        region: "eu-west-1".to_string(),
        client_id: "client-1".to_string(),
        user_pool: "eu-west-1_Pool".to_string(),
        ident_pool: "eu-west-1:ident".to_string(),
        login: "alice".to_string(),
        password: "hunter2".to_string(),
        url: "https://example.com/resource".to_string(),
    }
}

fn token_reply(token: Option<&str>) -> Result<InitiateAuthReply, String> {
    Ok(InitiateAuthReply {
        authentication_result: Some(AuthenticationResult {
            id_token: token.map(|t| t.to_string()),
        }),
    })
}

fn issued(
    access_key_id: Option<&str>,
    secret_key: Option<&str>,
    session_token: Option<&str>,
) -> Result<GetCredentialsReply, String> {
    Ok(GetCredentialsReply {
        credentials: Some(IssuedCredentials {
            access_key_id: access_key_id.map(|s| s.to_string()),
            secret_key: secret_key.map(|s| s.to_string()),
            session_token: session_token.map(|s| s.to_string()),
        }),
    })
}

#[test]
fn login_key_names_the_user_pool() {
    assert_eq!(
        login_key("eu-west-1", "eu-west-1_Pool"),
        "cognito-idp.eu-west-1.amazonaws.com/eu-west-1_Pool"
    );
    assert_eq!(login_key("", ""), "cognito-idp..amazonaws.com/");
}

#[test]
fn sign_in_sends_user_name_then_password() {
    let request = initiate_auth_request("client-1", "alice", "hunter2");
    assert_eq!(request.auth_flow, AuthFlow::UserPasswordAuth);
    assert_eq!(request.client_id, "client-1");
    let parameters: Vec<(&str, &str)> =
        request.auth_parameters.iter().map(|p| (p.name.as_str(), p.value.as_str())).collect();
    assert_eq!(parameters, vec![("USERNAME", "alice"), ("PASSWORD", "hunter2")]);
}

#[test]
fn id_token_comes_out_of_the_reply() {
    assert_eq!(get_id_token(token_reply(Some("tok-1"))).unwrap(), "tok-1");
    assert!(matches!(get_id_token(token_reply(None)), Err(Sigv4Error::EmptyIdToken)));
    let nothing = Ok(InitiateAuthReply { authentication_result: None });
    assert!(matches!(get_id_token(nothing), Err(Sigv4Error::EmptyIdToken)));
    match get_id_token(Err("timed out".to_string())) {
        Err(Sigv4Error::InitiateAuth(text)) => assert_eq!(text, "timed out"),
        other => panic!("{:?}", other),
    }
}

#[test]
fn identity_comes_out_of_the_reply() {
    let reply = Ok(GetIdReply { identity_id: Some("eu-west-1:id".to_string()) });
    assert_eq!(get_identity(reply).unwrap(), "eu-west-1:id");
    let empty = Ok(GetIdReply { identity_id: None });
    assert!(matches!(get_identity(empty), Err(Sigv4Error::EmptyIdentity)));
    match get_identity(Err("refused".to_string())) {
        Err(Sigv4Error::GetId(text)) => assert_eq!(text, "refused"),
        other => panic!("{:?}", other),
    }
}

#[test]
fn credentials_come_out_of_the_reply() {
    let credentials = get_credentials(issued(Some("AKID"), Some("secret"), Some("tok"))).unwrap();
    assert_eq!(credentials.access_key_id, "AKID");
    assert_eq!(credentials.secret_key, "secret");
    assert_eq!(credentials.session_token.as_deref(), Some("tok"));
    let credentials = get_credentials(issued(Some("AKID"), Some("secret"), None)).unwrap();
    assert_eq!(credentials.session_token, None);
    let none = Ok(GetCredentialsReply { credentials: None });
    assert!(matches!(get_credentials(none), Err(Sigv4Error::EmptyCredentials)));
    let no_key = issued(None, Some("secret"), Some("tok"));
    assert!(matches!(get_credentials(no_key), Err(Sigv4Error::EmptyCredentials)));
    let no_secret = issued(Some("AKID"), None, None);
    assert!(matches!(get_credentials(no_secret), Err(Sigv4Error::EmptyCredentials)));
    match get_credentials(Err("throttled".to_string())) {
        Err(Sigv4Error::GetCredentialsForIdentity(text)) => assert_eq!(text, "throttled"),
        other => panic!("{:?}", other),
    }
}

#[test]
fn broker_requests_carry_the_token_under_the_login_key() {
    let request = get_id_request("eu-west-1:ident", "eu-west-1", "eu-west-1_Pool", "tok-1");
    assert_eq!(request.identity_pool_id, "eu-west-1:ident");
    assert_eq!(request.login_key, "cognito-idp.eu-west-1.amazonaws.com/eu-west-1_Pool");
    assert_eq!(request.id_token, "tok-1");
    let request = get_credentials_request(
        "eu-west-1:id".to_string(),
        "eu-west-1",
        "eu-west-1_Pool",
        "tok-1".to_string(),
    );
    assert_eq!(request.identity_id, "eu-west-1:id");
    assert_eq!(request.login_key, "cognito-idp.eu-west-1.amazonaws.com/eu-west-1_Pool");
    assert_eq!(request.id_token, "tok-1");
}

#[test]
fn a_run_with_stub_services_ends_in_a_signed_request() {
    let settings = settings();
    let (stage, action) = advance(Stage::Start, Event::Begin, &settings);
    assert!(matches!(stage, Stage::AwaitingToken));
    match action {
        Action::InitiateAuth(request) => {
            assert_eq!(request.client_id, "client-1");
            assert_eq!(request.auth_parameters[0].value, "alice");
            assert_eq!(request.auth_parameters[1].value, "hunter2");
        }
        other => panic!("{:?}", other),
    }
    let (stage, action) = advance(stage, Event::Token(token_reply(Some("tok-1"))), &settings);
    assert!(matches!(&stage, Stage::AwaitingIdentity { id_token } if id_token == "tok-1"));
    match action {
        Action::GetId(request) => {
            assert_eq!(request.identity_pool_id, "eu-west-1:ident");
            assert_eq!(request.login_key, "cognito-idp.eu-west-1.amazonaws.com/eu-west-1_Pool");
            assert_eq!(request.id_token, "tok-1");
        }
        other => panic!("{:?}", other),
    }
    let reply = Ok(GetIdReply { identity_id: Some("eu-west-1:id".to_string()) });
    let (stage, action) = advance(stage, Event::Identity(reply), &settings);
    assert!(matches!(stage, Stage::AwaitingCredentials));
    match action {
        Action::GetCredentialsForIdentity(request) => {
            assert_eq!(request.identity_id, "eu-west-1:id");
            assert_eq!(request.login_key, "cognito-idp.eu-west-1.amazonaws.com/eu-west-1_Pool");
            assert_eq!(request.id_token, "tok-1");
        }
        other => panic!("{:?}", other),
    }
    let reply = issued(Some("AKIDEXAMPLE"), Some("secret"), None);
    let (stage, action) = advance(stage, Event::Credentials(reply), &settings);
    assert!(matches!(&stage, Stage::AwaitingTime { credentials }
        if credentials.access_key_id == "AKIDEXAMPLE" && credentials.secret_key == "secret"
            && credentials.session_token.is_none()));
    assert!(matches!(action, Action::ReadClock));
    let now = Timestamp { secs: 1_704_067_200, nanos: 123_456_789 };
    let (stage, action) = advance(stage, Event::Time(now), &settings);
    assert!(matches!(stage, Stage::Dispatched));
    match action {
        Action::Send(request) => {
            assert_eq!(request.method, "GET");
            assert_eq!(request.url, "https://example.com/resource");
            assert_eq!(request.headers.len(), 2);
            assert_eq!(request.headers.get("x-amz-date").unwrap(), "20240101T000000Z");
            let authorization = request.headers.get("authorization").unwrap().to_str().unwrap();
            assert!(authorization.contains("20240101/eu-west-1/execute-api/aws4_request"));
            assert_eq!(
                authorization,
                "AWS4-HMAC-SHA256 \
                 Credential=AKIDEXAMPLE/20240101/eu-west-1/execute-api/aws4_request, \
                 SignedHeaders=host;x-amz-date, \
                 Signature=fd47f94a354ea4d7c00d850205a6d4027de1686525954039a0bcb7ff42ccfc40"
            );
        }
        other => panic!("{:?}", other),
    }
    let (stage, action) = advance(stage, Event::Begin, &settings);
    assert!(matches!(stage, Stage::Dispatched));
    assert!(matches!(action, Action::Idle));
}

#[test]
fn a_reply_without_token_ends_the_run_before_the_broker() {
    let settings = settings();
    let (stage, _) = advance(Stage::Start, Event::Begin, &settings);
    let (stage, action) = advance(stage, Event::Token(token_reply(None)), &settings);
    assert!(matches!(stage, Stage::Failed(Sigv4Error::EmptyIdToken)));
    assert!(matches!(action, Action::Abort));
    let later: Vec<Event> = vec![
        Event::Begin,
        Event::Token(token_reply(Some("tok-1"))),
        Event::Identity(Ok(GetIdReply { identity_id: Some("id".to_string()) })),
        Event::Credentials(issued(Some("AKID"), Some("secret"), None)),
        Event::Time(Timestamp { secs: 0, nanos: 0 }),
    ];
    let mut stage = stage;
    for event in later {
        let (next, action) = advance(stage, event, &settings);
        assert!(matches!(next, Stage::Failed(Sigv4Error::EmptyIdToken)));
        assert!(matches!(action, Action::Idle));
        stage = next;
    }
}

#[test]
fn each_step_fails_the_run_with_its_own_error() {
    let settings = settings();
    let (stage, action) =
        advance(Stage::AwaitingToken, Event::Token(Err("down".to_string())), &settings);
    assert!(matches!(&stage, Stage::Failed(Sigv4Error::InitiateAuth(text)) if text == "down"));
    assert!(matches!(action, Action::Abort));
    let waiting = Stage::AwaitingIdentity { id_token: "tok-1".to_string() };
    let (stage, _) = advance(waiting, Event::Identity(Err("down".to_string())), &settings);
    assert!(matches!(&stage, Stage::Failed(Sigv4Error::GetId(text)) if text == "down"));
    let waiting = Stage::AwaitingIdentity { id_token: "tok-1".to_string() };
    let empty = Ok(GetIdReply { identity_id: None });
    let (stage, _) = advance(waiting, Event::Identity(empty), &settings);
    assert!(matches!(stage, Stage::Failed(Sigv4Error::EmptyIdentity)));
    let (stage, _) =
        advance(Stage::AwaitingCredentials, Event::Credentials(Err("down".to_string())), &settings);
    assert!(matches!(&stage,
        Stage::Failed(Sigv4Error::GetCredentialsForIdentity(text)) if text == "down"));
    let none = Ok(GetCredentialsReply { credentials: None });
    let (stage, action) = advance(Stage::AwaitingCredentials, Event::Credentials(none), &settings);
    assert!(matches!(stage, Stage::Failed(Sigv4Error::EmptyCredentials)));
    assert!(matches!(action, Action::Abort));
}

#[test]
fn a_request_that_cannot_be_signed_fails_the_run() {
    let mut settings = settings();
    settings.url = "example.com/resource".to_string();
    let (stage, _) = advance(
        Stage::AwaitingCredentials,
        Event::Credentials(issued(Some("AKID"), Some("secret"), Some("tok"))),
        &settings,
    );
    let (stage, action) = advance(stage, Event::Time(Timestamp { secs: 0, nanos: 0 }), &settings);
    assert!(matches!(stage, Stage::Failed(Sigv4Error::Signing(SigningFailure::UrlWithoutScheme))));
    assert!(matches!(action, Action::Abort));
}

#[test]
fn an_event_that_is_not_awaited_changes_nothing() {
    let settings = settings();
    let (stage, action) = advance(Stage::Start, Event::Token(token_reply(Some("t"))), &settings);
    assert!(matches!(stage, Stage::Start));
    assert!(matches!(action, Action::Idle));
    let (stage, action) = advance(Stage::AwaitingToken, Event::Begin, &settings);
    assert!(matches!(stage, Stage::AwaitingToken));
    assert!(matches!(action, Action::Idle));
    let waiting = Stage::AwaitingIdentity { id_token: "tok-1".to_string() };
    let (stage, action) = advance(waiting, Event::Time(Timestamp { secs: 0, nanos: 0 }), &settings);
    assert!(matches!(&stage, Stage::AwaitingIdentity { id_token } if id_token == "tok-1"));
    assert!(matches!(action, Action::Idle));
}
