use loopback_vault::flow::{
    build_auth_url, flow_outcome, redirect_uri, select_config, start_auth_gate, AuthError,
    AuthFlow, AuthGuard, FlowAction, FlowEvent, FlowPhase, OAuthProviderConfig,
};
use loopback_vault::query::{classify_request, pct_decode, query_code, CallbackKind};

fn test_config() -> OAuthProviderConfig {
    OAuthProviderConfig {
        client_id: "abc".to_string(),
        client_secret: "shh".to_string(),
        auth_uri: "https://accounts.example/auth".to_string(),
        token_uri: "https://accounts.example/token".to_string(),
    }
}

fn started_flow() -> AuthFlow {
    let mut flow = AuthFlow::new(test_config(), redirect_uri());
    assert!(matches!(flow.step(FlowEvent::Start), FlowAction::Bind));
    assert!(matches!(
        flow.step(FlowEvent::Bound),
        FlowAction::OpenBrowser { .. }
    ));
    assert!(matches!(
        flow.step(FlowEvent::BrowserOpened),
        FlowAction::WaitRequest
    ));
    assert_eq!(flow.phase, FlowPhase::AwaitingRequest);
    flow
}

#[test]
fn auth_url_has_exact_parts() {
    let url = build_auth_url("https://accounts.example/auth", "abc", "http://localhost:3000");
    assert_eq!(
        url,
        "https://accounts.example/auth?client_id=abc&redirect_uri=http://localhost:3000\
         &response_type=code&scope=profile email&access_type=offline&prompt=consent"
    );
    assert!(url.contains("https://accounts.example/auth"));
    assert!(url.contains("abc"));
    assert!(url.contains("http://localhost:3000"));
    assert!(url.contains("response_type=code"));
    assert!(url.contains("access_type=offline"));
    assert!(url.contains("prompt=consent"));
}

#[test]
fn mutual_exclusion_of_auth_attempts() {
    let mut guard = AuthGuard::new();
    assert!(start_auth_gate(&mut guard).is_ok());
    let second = start_auth_gate(&mut guard);
    match second {
        Err(e) => {
            assert!(matches!(e, AuthError::AlreadyRunning));
            assert_eq!(e.message(), "Authentication already in progress");
        }
        Ok(()) => panic!("second attempt must be refused"),
    }
    guard.finish();
    assert!(start_auth_gate(&mut guard).is_ok());
}

#[test]
fn favicon_never_advances_the_flow() {
    let mut flow = started_flow();
    let a = flow.step(FlowEvent::Callback {
        url: "/favicon.ico".to_string(),
    });
    assert!(matches!(a, FlowAction::RespondNotFound));
    assert_eq!(flow.phase, FlowPhase::AwaitingRequest);
    // a later code-bearing request still succeeds
    let a2 = flow.step(FlowEvent::Callback {
        url: "/?code=4%2Fxyz".to_string(),
    });
    match a2 {
        FlowAction::Exchange { code } => assert_eq!(code, b"4/xyz".to_vec()),
        _ => panic!("code-bearing callback must reach the exchange"),
    }
    assert_eq!(flow.phase, FlowPhase::Exchanging);
}

#[test]
fn denial_ends_without_error() {
    let mut flow = started_flow();
    let a = flow.step(FlowEvent::Callback {
        url: "/?error=access_denied".to_string(),
    });
    assert!(matches!(a, FlowAction::RespondDenied));
    assert_eq!(flow.phase, FlowPhase::Denied);
    assert!(flow.is_terminal());
    assert!(flow_outcome(&flow.phase).is_ok());
}

#[test]
fn full_flow_reaches_done() {
    let mut flow = started_flow();
    flow.step(FlowEvent::Callback {
        url: "/?code=abc".to_string(),
    });
    let a = flow.step(FlowEvent::ExchangeAccepted {
        access_token: "tok".to_string(),
    });
    match a {
        FlowAction::FetchProfile { token } => assert_eq!(token, "tok"),
        _ => panic!("accepted exchange must fetch the profile"),
    }
    let a = flow.step(FlowEvent::ProfileFetched {
        names: vec![Some("Ada".to_string())],
        emails: vec![Some("ada@example.com".to_string())],
        photos: vec![Some("http://img.example/a.png".to_string())],
    });
    match a {
        FlowAction::Persist { profile } => {
            assert_eq!(profile.name, "Ada");
            assert_eq!(profile.email, "ada@example.com");
            assert_eq!(profile.avatar, "https://img.example/a.png");
        }
        _ => panic!("fetched profile must be persisted"),
    }
    let a = flow.step(FlowEvent::Persisted);
    assert!(matches!(a, FlowAction::RespondSuccess));
    assert_eq!(flow.phase, FlowPhase::Done);
    assert!(flow_outcome(&flow.phase).is_ok());
}

#[test]
fn protocol_failures_are_absorbed() {
    let mut flow = started_flow();
    flow.step(FlowEvent::Callback {
        url: "/?code=abc".to_string(),
    });
    let a = flow.step(FlowEvent::ExchangeRejected);
    assert!(matches!(a, FlowAction::RespondFailure));
    assert_eq!(flow.phase, FlowPhase::Failed);
    assert!(flow_outcome(&flow.phase).is_ok());
}

#[test]
fn bind_failure_is_reported() {
    let mut flow = AuthFlow::new(test_config(), redirect_uri());
    flow.step(FlowEvent::Start);
    let a = flow.step(FlowEvent::BindFailed);
    match a {
        FlowAction::Fail { error } => {
            assert_eq!(error.message(), "Failed to start auth server on port 3000")
        }
        _ => panic!("bind failure must be reported"),
    }
    assert_eq!(flow.phase, FlowPhase::SetupFailed);
    assert!(flow_outcome(&flow.phase).is_err());
}

#[test]
fn browser_failure_is_reported() {
    let mut flow = AuthFlow::new(test_config(), redirect_uri());
    flow.step(FlowEvent::Start);
    flow.step(FlowEvent::Bound);
    let a = flow.step(FlowEvent::BrowserFailed);
    match a {
        FlowAction::Fail { error } => {
            assert_eq!(error.message(), "Failed to open the browser")
        }
        _ => panic!("browser failure must be reported"),
    }
    assert!(flow_outcome(&flow.phase).is_err());
}

#[test]
fn config_selection_prefers_installed() {
    let installed = test_config();
    let web = OAuthProviderConfig {
        client_id: "web-id".to_string(),
        ..test_config()
    };
    let picked = select_config(Some(installed), Some(web)).unwrap();
    assert_eq!(picked.client_id, "abc");
    let picked = select_config(
        None,
        Some(OAuthProviderConfig {
            client_id: "web-id".to_string(),
            ..test_config()
        }),
    )
    .unwrap();
    assert_eq!(picked.client_id, "web-id");
    let err = select_config(None, None).unwrap_err();
    assert_eq!(
        err.message(),
        "Invalid credentials: missing 'installed' or 'web' object"
    );
}

#[test]
fn percent_decoding() {
    assert_eq!(pct_decode(&b"a%20b+c".to_vec()), b"a b c".to_vec());
    assert_eq!(pct_decode(&b"4%2Fabc%3D".to_vec()), b"4/abc=".to_vec());
    // malformed escapes pass through unchanged
    assert_eq!(pct_decode(&b"%zz%4".to_vec()), b"%zz%4".to_vec());
    assert_eq!(pct_decode(&b"".to_vec()), b"".to_vec());
}

#[test]
fn code_extraction_from_query() {
    assert_eq!(
        query_code(&b"state=x&code=4%2Fabc".to_vec()),
        Some(b"4/abc".to_vec())
    );
    assert_eq!(query_code(&b"code=only".to_vec()), Some(b"only".to_vec()));
    assert_eq!(query_code(&b"code".to_vec()), Some(b"".to_vec()));
    assert_eq!(query_code(&b"error=denied".to_vec()), None);
    assert_eq!(query_code(&b"".to_vec()), None);
    // a percent-encoded key still reads as `code`
    assert_eq!(query_code(&b"c%6Fde=x".to_vec()), Some(b"x".to_vec()));
    // only the first match counts
    assert_eq!(
        query_code(&b"code=first&code=second".to_vec()),
        Some(b"first".to_vec())
    );
    // an encoded ampersand stays inside the value
    assert_eq!(
        query_code(&b"code=a%26b&x=1".to_vec()),
        Some(b"a&b".to_vec())
    );
}

#[test]
fn request_classification() {
    assert!(matches!(
        classify_request("/favicon.ico"),
        CallbackKind::Favicon
    ));
    // the favicon check looks at the whole URL, query included
    assert!(matches!(
        classify_request("/?code=x&y=favicon.ico"),
        CallbackKind::Favicon
    ));
    match classify_request("/?code=abc&scope=email") {
        CallbackKind::Code(c) => assert_eq!(c, b"abc".to_vec()),
        _ => panic!("code callback must classify as Code"),
    }
    assert!(matches!(classify_request("/"), CallbackKind::NoCode));
    assert!(matches!(
        classify_request("/callback?error=denied"),
        CallbackKind::NoCode
    ));
}
