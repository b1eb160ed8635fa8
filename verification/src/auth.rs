//! The authorization, step by step: show the address, listen for the
//! redirect, exchange the code, save the token. The flow decides; the caller
//! does what each action asks and reports back. The first failure ends it.
//! The flow changes neither the client nor the caller's credentials: the
//! token is handed out for the caller to save and to make a client with.

use crate::client::{authorization_url_text, reading, TickTickClient};
use crate::error::ClientError;
use crate::http::{Answer, HttpRequest};
use crate::types::TokenResponse;
use vstd::prelude::*;

verus! {

/// The port that the listener binds where the caller names none.
pub const DEFAULT_PORT: u16 = 8080;

/// The seconds that the flow waits for the redirect where the caller names
/// none: five minutes.
pub const DEFAULT_TIMEOUT_SECS: u64 = 300;

/// Where the flow stands.
#[derive(Clone, Copy, Debug, PartialEq, Eq, Structural)]
pub enum AuthStage {
    /// Nothing has been done.
    Start,
    /// The address is being shown to the user.
    Announcing,
    /// The listener waits for the redirect.
    Listening,
    /// The code is being exchanged for a token.
    Exchanging,
    /// The token is being saved.
    Saving,
    /// The token is set and saved. This stage is never left.
    Done,
    /// A step failed. This stage is never left.
    Failed,
}

/// What the caller is to do next.
#[derive(Debug, PartialEq, Eq)]
pub enum AuthAction {
    /// Show the address to the user and try to open it in a browser. It does
    /// not matter whether the browser opens.
    Announce { url: String },
    /// Bind the listener to the port and wait for its result, for at most
    /// this many seconds.
    Listen { port: u16, timeout_secs: u64 },
    /// Send the request and report the answer.
    Exchange(HttpRequest),
    /// Save this token with the credentials, and keep it for the client that
    /// is to carry it.
    Persist(TokenResponse),
    /// Nothing more: the flow has ended, well or with this error.
    Finish(Result<(), ClientError>),
}

/// What the caller reports.
#[derive(Debug, PartialEq, Eq)]
pub enum AuthEvent {
    /// The flow is to begin.
    Begin,
    /// The address has been shown.
    Announced,
    /// The listener's wait has ended with a code or with an error.
    Callback(Result<String, ClientError>),
    /// The token endpoint has answered.
    Answered(Answer<TokenResponse>),
    /// The token has been saved, or could not be, for this reason.
    Persisted(Result<(), String>),
}

/// One authorization attempt.
#[derive(Clone, Debug, PartialEq, Eq)]
pub struct AuthFlow {
    stage: AuthStage,
    state: String,
    port: u16,
    timeout_secs: u64,
}

/// What the token endpoint's answer amounts to.
pub open spec fn exchanged(answer: Answer<TokenResponse>) -> Result<TokenResponse, ClientError> {
    reading(answer, |body: String| ClientError::ExchangeFailed(body))
}

/// The stage after an event, for a client whose credentials can or cannot be
/// encoded. An event that the stage does not wait for ends the flow, and a
/// flow that has ended stays as it is.
pub open spec fn next_stage(stage: AuthStage, event: AuthEvent, encodable: bool) -> AuthStage {
    match (stage, event) {
        (AuthStage::Done, _) => AuthStage::Done,
        (AuthStage::Start, AuthEvent::Begin) => AuthStage::Announcing,
        (AuthStage::Announcing, AuthEvent::Announced) => AuthStage::Listening,
        (AuthStage::Listening, AuthEvent::Callback(Ok(_))) => if encodable {
            AuthStage::Exchanging
        } else {
            AuthStage::Failed
        },
        (AuthStage::Exchanging, AuthEvent::Answered(answer)) => if exchanged(answer) is Ok {
            AuthStage::Saving
        } else {
            AuthStage::Failed
        },
        (AuthStage::Saving, AuthEvent::Persisted(Ok(_))) => AuthStage::Done,
        _ => AuthStage::Failed,
    }
}

/// Whether an action is the one that a step owes: the address for the
/// client and the state, the listener's port and patience, the token request
/// for the code that arrived, the saving, or the end with the error of the
/// step that failed. Credentials that cannot be encoded end the flow when
/// the code arrives.
pub open spec fn action_fits(
    flow: AuthFlow,
    client: TickTickClient,
    event: AuthEvent,
    action: AuthAction,
) -> bool {
    match (flow.stage(), event) {
        (AuthStage::Done, _) => action == AuthAction::Finish(Ok(())),
        (AuthStage::Start, AuthEvent::Begin) => action matches AuthAction::Announce { url }
            && url@ == authorization_url_text(client.id(), client.redirect(), flow.state_text()),
        (AuthStage::Announcing, AuthEvent::Announced) => action == (AuthAction::Listen {
            port: flow.port(),
            timeout_secs: flow.timeout_secs(),
        }),
        (AuthStage::Listening, AuthEvent::Callback(Ok(code))) => if client.credentials_fit() {
            action matches AuthAction::Exchange(request) && client.is_token_request(
                request,
                code@,
            )
        } else {
            action == AuthAction::Finish(Err(ClientError::CredentialsTooLong))
        },
        (AuthStage::Listening, AuthEvent::Callback(Err(e))) => action == AuthAction::Finish(
            Err(e),
        ),
        (AuthStage::Exchanging, AuthEvent::Answered(answer)) => match exchanged(answer) {
            Ok(token) => action == AuthAction::Persist(token),
            Err(e) => action == AuthAction::Finish(Err(e)),
        },
        (AuthStage::Saving, AuthEvent::Persisted(Ok(_))) => action == AuthAction::Finish(Ok(())),
        (AuthStage::Saving, AuthEvent::Persisted(Err(reason))) => action == AuthAction::Finish(
            Err(ClientError::SaveFailed(reason)),
        ),
        _ => action == AuthAction::Finish(Err(ClientError::AuthCancelled)),
    }
}

impl AuthFlow {
    /// Where the flow stands.
    pub closed spec fn stage(&self) -> AuthStage {
        self.stage
    }

    /// The state token that the address carries.
    pub closed spec fn state_text(&self) -> Seq<char> {
        self.state@
    }

    /// The port that the listener is to bind.
    pub closed spec fn port(&self) -> u16 {
        self.port
    }

    /// The seconds to wait for the redirect.
    pub closed spec fn timeout_secs(&self) -> u64 {
        self.timeout_secs
    }

    /// A flow that has not begun.
    pub fn new(state: String, port: u16, timeout_secs: u64) -> (flow: Self)
        ensures
            flow.stage() == AuthStage::Start,
            flow.state_text() == state@,
            flow.port() == port,
            flow.timeout_secs() == timeout_secs,
    {
        AuthFlow { stage: AuthStage::Start, state, port, timeout_secs }
    }

    /// Where the flow stands.
    pub fn current_stage(&self) -> (stage: AuthStage)
        ensures
            stage == self.stage(),
    {
        self.stage
    }

    /// Takes what the caller reports and says what to do next. The token
    /// that the exchange brings is handed out with the action that asks for
    /// it to be saved.
    pub fn advance(&mut self, client: &TickTickClient, event: AuthEvent) -> (action: AuthAction)
        ensures
            final(self).stage() == next_stage(old(self).stage(), event, client.credentials_fit()),
            final(self).state_text() == old(self).state_text(),
            final(self).port() == old(self).port(),
            final(self).timeout_secs() == old(self).timeout_secs(),
            action_fits(*old(self), *client, event, action),
    {
        match self.stage {
            AuthStage::Done => {
                return AuthAction::Finish(Ok(()));
            },
            AuthStage::Start => {
                if let AuthEvent::Begin = event {
                    self.stage = AuthStage::Announcing;
                    return AuthAction::Announce {
                        url: client.get_authorization_url(self.state.as_str()),
                    };
                }
            },
            AuthStage::Announcing => {
                if let AuthEvent::Announced = event {
                    self.stage = AuthStage::Listening;
                    return AuthAction::Listen { port: self.port, timeout_secs: self.timeout_secs };
                }
            },
            AuthStage::Listening => {
                if let AuthEvent::Callback(result) = event {
                    match result {
                        Ok(code) => match client.try_token_request(code.as_str()) {
                            Ok(request) => {
                                self.stage = AuthStage::Exchanging;
                                return AuthAction::Exchange(request);
                            },
                            Err(e) => {
                                self.stage = AuthStage::Failed;
                                return AuthAction::Finish(Err(e));
                            },
                        },
                        Err(e) => {
                            self.stage = AuthStage::Failed;
                            return AuthAction::Finish(Err(e));
                        },
                    }
                }
            },
            AuthStage::Exchanging => {
                if let AuthEvent::Answered(answer) = event {
                    match client.exchange_code_for_token(answer) {
                        Ok(token) => {
                            self.stage = AuthStage::Saving;
                            return AuthAction::Persist(token);
                        },
                        Err(e) => {
                            self.stage = AuthStage::Failed;
                            return AuthAction::Finish(Err(e));
                        },
                    }
                }
            },
            AuthStage::Saving => {
                if let AuthEvent::Persisted(saved) = event {
                    match saved {
                        Ok(()) => {
                            self.stage = AuthStage::Done;
                            return AuthAction::Finish(Ok(()));
                        },
                        Err(reason) => {
                            self.stage = AuthStage::Failed;
                            return AuthAction::Finish(Err(ClientError::SaveFailed(reason)));
                        },
                    }
                }
            },
            AuthStage::Failed => {},
        }
        self.stage = AuthStage::Failed;
        AuthAction::Finish(Err(ClientError::AuthCancelled))
    }
}

} // verus!
