//! The loopback OAuth receiver as a state machine, and the orchestrator
//! guard that admits at most one run at a time. The machine decides; an
//! unverified shell binds the port, opens the browser, performs the HTTP
//! calls and the file write, and feeds each outcome back as an event.

use vstd::prelude::*;
use vstd::string::*;
use vstd::utf8::encode_utf8;
use crate::profile::{UserProfile, normalize_profile, spec_profile};
use crate::query::{CallbackKind, classify_request, is_favicon_url, spec_url_code};

verus! {

/// The provider constants of the authorization-code flow, loaded once from
/// the bundled configuration.
#[derive(Debug)]
pub struct OAuthProviderConfig {
    pub client_id: String,
    pub client_secret: String,
    pub auth_uri: String,
    pub token_uri: String,
}

/// The errors a caller of the orchestrator can see: a concurrent attempt,
/// a bad bundled configuration, or a setup failure.
#[derive(Debug)]
pub enum AuthError {
    AlreadyRunning,
    MissingConfig,
    BindFailed,
    BrowserFailed,
}

impl AuthError {
    /// The short human-readable text of this error.
    pub fn message(&self) -> (r: String)
        ensures
            self is AlreadyRunning ==> r@ == "Authentication already in progress"@,
            self is MissingConfig ==> r@
                == "Invalid credentials: missing 'installed' or 'web' object"@,
            self is BindFailed ==> r@ == "Failed to start auth server on port 3000"@,
            self is BrowserFailed ==> r@ == "Failed to open the browser"@,
    {
        match self {
            AuthError::AlreadyRunning => "Authentication already in progress".to_owned(),
            AuthError::MissingConfig => "Invalid credentials: missing 'installed' or 'web' object"
                .to_owned(),
            AuthError::BindFailed => "Failed to start auth server on port 3000".to_owned(),
            AuthError::BrowserFailed => "Failed to open the browser".to_owned(),
        }
    }
}

/// Pick the provider configuration out of the bundled credentials: the
/// `installed` variant wins, then `web`; with neither the flow fails fast.
pub fn select_config(
    installed: Option<OAuthProviderConfig>,
    web: Option<OAuthProviderConfig>,
) -> (r: Result<OAuthProviderConfig, AuthError>)
    ensures
        installed is Some ==> (r matches Ok(rc) && rc == installed->Some_0),
        installed is None && web is Some ==> (r matches Ok(rc) && rc == web->Some_0),
        installed is None && web is None ==> (r matches Err(e) && e is MissingConfig),
{
    match installed {
        Some(c) => Ok(c),
        None => match web {
            Some(c) => Ok(c),
            None => Err(AuthError::MissingConfig),
        },
    }
}

/// The authorization URL: endpoint, client id and redirect URI verbatim,
/// with the fixed response type, scope, offline access and consent prompt.
pub open spec fn spec_auth_url(
    auth_uri: Seq<char>,
    client_id: Seq<char>,
    redirect: Seq<char>,
) -> Seq<char> {
    auth_uri + "?client_id="@ + client_id + "&redirect_uri="@ + redirect
        + "&response_type=code&scope=profile email&access_type=offline&prompt=consent"@
}

/// Build the authorization URL handed to the browser.
pub fn build_auth_url(auth_uri: &str, client_id: &str, redirect: &str) -> (r: String)
    ensures
        r@ == spec_auth_url(auth_uri@, client_id@, redirect@),
{
    let mut s = auth_uri.to_owned();
    s.append("?client_id=");
    s.append(client_id);
    s.append("&redirect_uri=");
    s.append(redirect);
    s.append("&response_type=code&scope=profile email&access_type=offline&prompt=consent");
    s
}

/// The fixed redirect URI registered with the provider; it must match the
/// local listener's port exactly.
pub fn redirect_uri() -> (r: String)
    ensures
        r@ == "http://localhost:3000"@,
{
    "http://localhost:3000".to_owned()
}

/// Where a single authorization attempt stands.
#[derive(PartialEq, Eq, Structural, Clone, Copy, Debug)]
pub enum FlowPhase {
    /// Nothing has happened yet.
    Idle,
    /// The listener is being bound.
    Listening,
    /// The browser is being pointed at the authorization URL.
    Launching,
    /// Blocked on the one inbound callback request.
    AwaitingRequest,
    /// The authorization code is at the token endpoint.
    Exchanging,
    /// The access token is at the profile endpoint.
    FetchingProfile,
    /// The profile is being written and announced.
    Persisting,
    /// The flow ended with a signed-in user.
    Done,
    /// The user denied access: a normal, non-error end.
    Denied,
    /// A protocol step failed; the browser got the failure page and the
    /// caller still sees success.
    Failed,
    /// Binding or the browser failed before any request was served; the
    /// caller sees the error.
    SetupFailed,
}

/// What the unverified shell reports back to the machine.
pub enum FlowEvent {
    /// Begin the attempt.
    Start,
    /// The listener is bound.
    Bound,
    /// The listener could not be bound.
    BindFailed,
    /// The browser is off to the authorization URL.
    BrowserOpened,
    /// No browser could be opened.
    BrowserFailed,
    /// One inbound request arrived, with its URL.
    Callback { url: String },
    /// The token endpoint accepted the code.
    ExchangeAccepted { access_token: String },
    /// The token endpoint answered with a non-success status.
    ExchangeRejected,
    /// The exchange failed on the wire or its answer did not parse.
    ExchangeFailed,
    /// The profile endpoint answered; each list carries the one optional
    /// field of its records.
    ProfileFetched {
        names: Vec<Option<String>>,
        emails: Vec<Option<String>>,
        photos: Vec<Option<String>>,
    },
    /// The profile fetch failed on the wire or did not parse.
    ProfileFailed,
    /// The profile file is written and the UI notified.
    Persisted,
    /// The profile file could not be written.
    PersistFailed,
}

/// What the unverified shell must do next.
pub enum FlowAction {
    /// Bind the local listener on the fixed port.
    Bind,
    /// Send the browser to this URL.
    OpenBrowser { url: String },
    /// Block for the next inbound request.
    WaitRequest,
    /// Answer 404 and block for the next request again.
    RespondNotFound,
    /// Post this authorization code to the token endpoint.
    Exchange { code: Vec<u8> },
    /// Answer the denied page; the flow is over.
    RespondDenied,
    /// Fetch the profile with this bearer token.
    FetchProfile { token: String },
    /// Answer the failure page; the flow is over.
    RespondFailure,
    /// Write this profile to disk and notify the UI.
    Persist { profile: UserProfile },
    /// Answer the success page; the flow is over.
    RespondSuccess,
    /// Report this error to the caller; the flow never served a request.
    Fail { error: AuthError },
    /// Nothing: the event did not belong to this phase.
    Halt,
}

/// A single authorization attempt: the provider constants, the redirect
/// URI, and where the attempt stands.
pub struct AuthFlow {
    pub config: OAuthProviderConfig,
    pub redirect: String,
    pub phase: FlowPhase,
}

/// The transition relation of the receiver: from a phase and an event to
/// the next phase and the action the shell must take. Constants never
/// change; an event that does not belong to the phase changes nothing.
pub open spec fn flow_step_spec(
    pre: AuthFlow,
    e: FlowEvent,
    post: AuthFlow,
    a: FlowAction,
) -> bool {
    &&& post.config == pre.config
    &&& post.redirect == pre.redirect
    &&& match (pre.phase, e) {
        (FlowPhase::Idle, FlowEvent::Start) => post.phase == FlowPhase::Listening && a
            == FlowAction::Bind,
        (FlowPhase::Listening, FlowEvent::Bound) => post.phase == FlowPhase::Launching && (
        a matches FlowAction::OpenBrowser { url } && url@ == spec_auth_url(
            pre.config.auth_uri@,
            pre.config.client_id@,
            pre.redirect@,
        )),
        (FlowPhase::Listening, FlowEvent::BindFailed) => post.phase == FlowPhase::SetupFailed && (
        a matches FlowAction::Fail { error } && error is BindFailed),
        (FlowPhase::Launching, FlowEvent::BrowserOpened) => post.phase
            == FlowPhase::AwaitingRequest && a == FlowAction::WaitRequest,
        (FlowPhase::Launching, FlowEvent::BrowserFailed) => post.phase == FlowPhase::SetupFailed
            && (a matches FlowAction::Fail { error } && error is BrowserFailed),
        (FlowPhase::AwaitingRequest, FlowEvent::Callback { url }) => {
            if is_favicon_url(encode_utf8(url@)) {
                post.phase == FlowPhase::AwaitingRequest && a == FlowAction::RespondNotFound
            } else {
                match spec_url_code(encode_utf8(url@)) {
                    Some(c) => post.phase == FlowPhase::Exchanging && (
                    a matches FlowAction::Exchange { code } && code@ == c),
                    None => post.phase == FlowPhase::Denied && a == FlowAction::RespondDenied,
                }
            }
        },
        (FlowPhase::Exchanging, FlowEvent::ExchangeAccepted { access_token }) => post.phase
            == FlowPhase::FetchingProfile && (a matches FlowAction::FetchProfile { token } && token
            == access_token),
        (FlowPhase::Exchanging, FlowEvent::ExchangeRejected) => post.phase == FlowPhase::Failed
            && a == FlowAction::RespondFailure,
        (FlowPhase::Exchanging, FlowEvent::ExchangeFailed) => post.phase == FlowPhase::Failed && a
            == FlowAction::RespondFailure,
        (FlowPhase::FetchingProfile, FlowEvent::ProfileFetched { names, emails, photos }) => post
            .phase == FlowPhase::Persisting && (a matches FlowAction::Persist { profile }
            && profile@ == spec_profile(names@, emails@, photos@)),
        (FlowPhase::FetchingProfile, FlowEvent::ProfileFailed) => post.phase == FlowPhase::Failed
            && a == FlowAction::RespondFailure,
        (FlowPhase::Persisting, FlowEvent::Persisted) => post.phase == FlowPhase::Done && a
            == FlowAction::RespondSuccess,
        (FlowPhase::Persisting, FlowEvent::PersistFailed) => post.phase == FlowPhase::Failed && a
            == FlowAction::RespondFailure,
        _ => post.phase == pre.phase && a == FlowAction::Halt,
    }
}

impl AuthFlow {
    /// A fresh attempt for a provider configuration.
    pub fn new(config: OAuthProviderConfig, redirect: String) -> (r: AuthFlow)
        ensures
            r.config == config,
            r.redirect == redirect,
            r.phase == FlowPhase::Idle,
    {
        AuthFlow { config, redirect, phase: FlowPhase::Idle }
    }

    /// The attempt has reached one of its three ends.
    pub open spec fn spec_terminal(&self) -> bool {
        self.phase == FlowPhase::Done || self.phase == FlowPhase::Denied || self.phase
            == FlowPhase::Failed || self.phase == FlowPhase::SetupFailed
    }

    /// Whether the attempt is over.
    pub fn is_terminal(&self) -> (r: bool)
        ensures
            r == self.spec_terminal(),
    {
        match self.phase {
            FlowPhase::Done => true,
            FlowPhase::Denied => true,
            FlowPhase::Failed => true,
            FlowPhase::SetupFailed => true,
            _ => false,
        }
    }

    /// Take one step: consume an event, move to the next phase, and tell
    /// the shell what to do.
    pub fn step(&mut self, e: FlowEvent) -> (a: FlowAction)
        ensures
            flow_step_spec(*old(self), e, *final(self), a),
    {
        match (self.phase, &e) {
            (FlowPhase::Idle, FlowEvent::Start) => {
                self.phase = FlowPhase::Listening;
                FlowAction::Bind
            },
            (FlowPhase::Listening, FlowEvent::Bound) => {
                self.phase = FlowPhase::Launching;
                let url = build_auth_url(
                    self.config.auth_uri.as_str(),
                    self.config.client_id.as_str(),
                    self.redirect.as_str(),
                );
                FlowAction::OpenBrowser { url }
            },
            (FlowPhase::Listening, FlowEvent::BindFailed) => {
                self.phase = FlowPhase::SetupFailed;
                FlowAction::Fail { error: AuthError::BindFailed }
            },
            (FlowPhase::Launching, FlowEvent::BrowserOpened) => {
                self.phase = FlowPhase::AwaitingRequest;
                FlowAction::WaitRequest
            },
            (FlowPhase::Launching, FlowEvent::BrowserFailed) => {
                self.phase = FlowPhase::SetupFailed;
                FlowAction::Fail { error: AuthError::BrowserFailed }
            },
            (FlowPhase::AwaitingRequest, FlowEvent::Callback { url }) => {
                match classify_request(url.as_str()) {
                    CallbackKind::Favicon => FlowAction::RespondNotFound,
                    CallbackKind::Code(code) => {
                        self.phase = FlowPhase::Exchanging;
                        FlowAction::Exchange { code }
                    },
                    CallbackKind::NoCode => {
                        self.phase = FlowPhase::Denied;
                        FlowAction::RespondDenied
                    },
                }
            },
            (FlowPhase::Exchanging, FlowEvent::ExchangeAccepted { access_token }) => {
                self.phase = FlowPhase::FetchingProfile;
                FlowAction::FetchProfile { token: access_token.clone() }
            },
            (FlowPhase::Exchanging, FlowEvent::ExchangeRejected) => {
                self.phase = FlowPhase::Failed;
                FlowAction::RespondFailure
            },
            (FlowPhase::Exchanging, FlowEvent::ExchangeFailed) => {
                self.phase = FlowPhase::Failed;
                FlowAction::RespondFailure
            },
            (FlowPhase::FetchingProfile, FlowEvent::ProfileFetched { names, emails, photos }) => {
                self.phase = FlowPhase::Persisting;
                let profile = normalize_profile(names, emails, photos);
                FlowAction::Persist { profile }
            },
            (FlowPhase::FetchingProfile, FlowEvent::ProfileFailed) => {
                self.phase = FlowPhase::Failed;
                FlowAction::RespondFailure
            },
            (FlowPhase::Persisting, FlowEvent::Persisted) => {
                self.phase = FlowPhase::Done;
                FlowAction::RespondSuccess
            },
            (FlowPhase::Persisting, FlowEvent::PersistFailed) => {
                self.phase = FlowPhase::Failed;
                FlowAction::RespondFailure
            },
            _ => FlowAction::Halt,
        }
    }
}

/// What the orchestrator's caller is told when an attempt ends: denial and
/// protocol failure are absorbed — the attempt ran — and only a setup
/// failure is an error.
pub fn flow_outcome(phase: &FlowPhase) -> (r: Result<(), AuthError>)
    ensures
        (phase is Done || phase is Denied || phase is Failed) ==> r is Ok,
        phase is SetupFailed ==> (r matches Err(e) && (e is BindFailed || e is BrowserFailed)),
{
    match phase {
        FlowPhase::SetupFailed => Err(AuthError::BindFailed),
        _ => Ok(()),
    }
}

/// The one-at-a-time guard the orchestrator owns: at most one attempt may
/// be running.
pub struct AuthGuard {
    pub running: bool,
}

impl AuthGuard {
    /// A guard with no attempt running.
    pub fn new() -> (r: AuthGuard)
        ensures
            !r.running,
    {
        AuthGuard { running: false }
    }

    /// Admit an attempt: refused, with nothing changed, while one is
    /// already running; otherwise the flag is taken.
    pub fn try_begin(&mut self) -> (r: bool)
        ensures
            final(self).running,
            r == !old(self).running,
    {
        let was = self.running;
        self.running = true;
        !was
    }

    /// Clear the flag when an attempt ends, whatever its outcome.
    pub fn finish(&mut self)
        ensures
            !final(self).running,
    {
        self.running = false;
    }
}

/// Gate a new attempt on the guard: while one is running, the caller gets
/// the concurrency error and nothing else happens; otherwise the flag is
/// taken and the attempt may start.
pub fn start_auth_gate(guard: &mut AuthGuard) -> (r: Result<(), AuthError>)
    ensures
        old(guard).running ==> (r matches Err(e) && e is AlreadyRunning && final(guard).running),
        !old(guard).running ==> r is Ok && final(guard).running,
{
    if guard.try_begin() {
        Ok(())
    } else {
        Err(AuthError::AlreadyRunning)
    }
}

/// A favicon request during the waiting phase never advances the machine:
/// the state is unchanged and the shell only answers 404.
pub proof fn lemma_favicon_immunity(pre: AuthFlow, url: String, post: AuthFlow, a: FlowAction)
    requires
        pre.phase == FlowPhase::AwaitingRequest,
        is_favicon_url(encode_utf8(url@)),
        flow_step_spec(pre, FlowEvent::Callback { url }, post, a),
    ensures
        post == pre,
        a == FlowAction::RespondNotFound,
{
}

/// After any favicon request, a code-bearing callback still reaches the
/// exchange with its code.
pub proof fn lemma_favicon_then_code(
    pre: AuthFlow,
    fav_url: String,
    mid: AuthFlow,
    a1: FlowAction,
    url: String,
    post: AuthFlow,
    a2: FlowAction,
)
    requires
        pre.phase == FlowPhase::AwaitingRequest,
        is_favicon_url(encode_utf8(fav_url@)),
        flow_step_spec(pre, FlowEvent::Callback { url: fav_url }, mid, a1),
        !is_favicon_url(encode_utf8(url@)),
        spec_url_code(encode_utf8(url@)) is Some,
        flow_step_spec(mid, FlowEvent::Callback { url }, post, a2),
    ensures
        post.phase == FlowPhase::Exchanging,
        a2 matches FlowAction::Exchange { code } && Some(code@) == spec_url_code(
            encode_utf8(url@),
        ),
{
}

/// A callback without a code ends the attempt as denied: the shell answers
/// the denied page, nothing is persisted, and the caller still sees
/// success.
pub proof fn lemma_denial_path(pre: AuthFlow, url: String, post: AuthFlow, a: FlowAction)
    requires
        pre.phase == FlowPhase::AwaitingRequest,
        !is_favicon_url(encode_utf8(url@)),
        spec_url_code(encode_utf8(url@)) is None,
        flow_step_spec(pre, FlowEvent::Callback { url }, post, a),
    ensures
        post.phase == FlowPhase::Denied,
        a == FlowAction::RespondDenied,
        !(a matches FlowAction::Persist { profile }),
{
}

} // verus!
