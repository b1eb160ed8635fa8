//! The listener for the OAuth redirect, as a state machine. It waits for one
//! request to `/callback` that carries a code or an error, and hands that one
//! result on: whatever arrives afterwards changes nothing.
//!
//! The socket and the waiting belong to the caller. The caller feeds every
//! request, a timeout or a cancellation to the listener, sends the reply that
//! comes back, and only then lets the waiting side see the result.

use crate::error::ClientError;
use vstd::prelude::*;
use vstd::string::*;

verus! {

/// What the provider's redirect delivered.
#[derive(Clone, Debug, PartialEq, Eq)]
pub enum Delivery {
    /// The authorization code.
    Code(String),
    /// The error that the provider reported in place of a code.
    Denied(String),
}

/// Where a listener stands.
#[derive(Clone, Debug, PartialEq, Eq)]
pub enum ListenerState {
    /// Not bound yet.
    Idle,
    /// Bound to the port and waiting.
    Listening { port: u16 },
    /// The one result has arrived. This state is never left.
    Fulfilled(Delivery),
    /// No result arrived in time. This state is never left.
    TimedOut,
    /// The caller gave up waiting. This state is never left.
    Cancelled,
}

/// One request as the HTTP server read it: its path, and the query
/// parameters `code` and `error` where the query has them.
#[derive(Clone, Debug, PartialEq, Eq)]
pub struct CallbackRequest {
    pub path: String,
    pub code: Option<String>,
    pub error: Option<String>,
}

/// What can happen to a listener.
#[derive(Clone, Debug, PartialEq, Eq)]
pub enum CallbackEvent {
    Request(CallbackRequest),
    Timeout,
    Cancel,
}

/// What to answer to a request.
#[derive(Clone, Copy, Debug, PartialEq, Eq, Structural)]
pub enum Reply {
    /// The page that tells the user that the authorization succeeded.
    SuccessPage,
    /// The page that tells the user that the authorization failed.
    FailurePage,
    /// Nothing is served at this path, or the parameters are missing.
    NotFound,
}

/// What a request carries: a code or, failing that, an error, and nothing
/// unless it is a request to `/callback`.
pub open spec fn carried(request: CallbackRequest) -> Option<Delivery> {
    if request.path@ != "/callback"@ {
        None
    } else {
        match request.code {
            Some(code) => Some(Delivery::Code(code)),
            None => match request.error {
                Some(error) => Some(Delivery::Denied(error)),
                None => None,
            },
        }
    }
}

/// The reply to a request. It depends on the request alone.
pub open spec fn reply_for(request: CallbackRequest) -> Reply {
    match carried(request) {
        Some(Delivery::Code(_)) => Reply::SuccessPage,
        Some(Delivery::Denied(_)) => Reply::FailurePage,
        None => Reply::NotFound,
    }
}

/// The state after an event. Only a listening listener moves: to fulfilled
/// on the first request that carries a code or an error, to timed out or
/// cancelled on those events.
pub open spec fn next_state(state: ListenerState, event: CallbackEvent) -> ListenerState {
    match state {
        ListenerState::Listening { port } => match event {
            CallbackEvent::Request(request) => match carried(request) {
                Some(delivery) => ListenerState::Fulfilled(delivery),
                None => ListenerState::Listening { port },
            },
            CallbackEvent::Timeout => ListenerState::TimedOut,
            CallbackEvent::Cancel => ListenerState::Cancelled,
        },
        other => other,
    }
}

/// The state after a run of events, taken in their order.
pub open spec fn run(state: ListenerState, events: Seq<CallbackEvent>) -> ListenerState
    decreases events.len(),
{
    if events.len() == 0 {
        state
    } else {
        next_state(run(state, events.drop_last()), events.last())
    }
}

/// What the waiting side gets in a state: nothing yet while the listener is
/// idle or listening, the code, or the reason why there is none.
pub open spec fn result_in(state: ListenerState) -> Option<Result<String, ClientError>> {
    match state {
        ListenerState::Idle => None,
        ListenerState::Listening { .. } => None,
        ListenerState::Fulfilled(Delivery::Code(code)) => Some(Ok(code)),
        ListenerState::Fulfilled(Delivery::Denied(error)) => Some(
            Err(ClientError::AuthDenied(error)),
        ),
        ListenerState::TimedOut => Some(Err(ClientError::AuthTimeout)),
        ListenerState::Cancelled => Some(Err(ClientError::AuthCancelled)),
    }
}

/// The listener for one authorization attempt.
#[derive(Clone, Debug, PartialEq, Eq)]
pub struct CallbackListener {
    state: ListenerState,
}

impl View for CallbackListener {
    type V = ListenerState;

    closed spec fn view(&self) -> ListenerState {
        self.state
    }
}

/// Whether a request is one to `/callback`, and what it carries.
pub fn read_request(request: CallbackRequest) -> (read: (Reply, Option<Delivery>))
    ensures
        read.0 == reply_for(request),
        read.1 == carried(request),
{
    let target = String::from_str("/callback");
    if request.path != target {
        return (Reply::NotFound, None);
    }
    match request.code {
        Some(code) => (Reply::SuccessPage, Some(Delivery::Code(code))),
        None => match request.error {
            Some(error) => (Reply::FailurePage, Some(Delivery::Denied(error))),
            None => (Reply::NotFound, None),
        },
    }
}

impl CallbackListener {
    /// A listener that is not bound yet.
    pub fn new() -> (listener: Self)
        ensures
            listener@ == ListenerState::Idle,
    {
        CallbackListener { state: ListenerState::Idle }
    }

    /// Marks an idle listener as bound to `port`. Says whether it did: a
    /// listener starts once.
    pub fn start(&mut self, port: u16) -> (started: bool)
        ensures
            started == (old(self)@ is Idle),
            final(self)@ == if old(self)@ is Idle {
                ListenerState::Listening { port }
            } else {
                old(self)@
            },
    {
        match self.state {
            ListenerState::Idle => {
                self.state = ListenerState::Listening { port };
                true
            },
            _ => false,
        }
    }

    /// Whether the socket is to be open: only while the listener waits.
    pub fn is_listening(&self) -> (listening: bool)
        ensures
            listening == (self@ is Listening),
    {
        match self.state {
            ListenerState::Listening { .. } => true,
            _ => false,
        }
    }

    /// Takes one request and says what to answer. The first request to a
    /// listening listener that carries a code or an error fulfils it; no
    /// later request changes the result.
    pub fn on_request(&mut self, request: CallbackRequest) -> (reply: Reply)
        ensures
            reply == reply_for(request),
            final(self)@ == next_state(old(self)@, CallbackEvent::Request(request)),
    {
        let listening = self.is_listening();
        let (reply, delivery) = read_request(request);
        if listening {
            match delivery {
                Some(delivery) => {
                    self.state = ListenerState::Fulfilled(delivery);
                },
                None => {},
            }
        }
        reply
    }

    /// Ends the wait of a listening listener because no result came in time.
    pub fn on_timeout(&mut self)
        ensures
            final(self)@ == next_state(old(self)@, CallbackEvent::Timeout),
    {
        if self.is_listening() {
            self.state = ListenerState::TimedOut;
        }
    }

    /// Ends the wait of a listening listener because the caller gave up.
    pub fn cancel(&mut self)
        ensures
            final(self)@ == next_state(old(self)@, CallbackEvent::Cancel),
    {
        if self.is_listening() {
            self.state = ListenerState::Cancelled;
        }
    }

    /// Hands out what the wait came to: the code, or why there is none; and
    /// nothing while the listener is still idle or listening.
    pub fn into_result(self) -> (result: Option<Result<String, ClientError>>)
        ensures
            result == result_in(self@),
    {
        match self.state {
            ListenerState::Idle => None,
            ListenerState::Listening { .. } => None,
            ListenerState::Fulfilled(Delivery::Code(code)) => Some(Ok(code)),
            ListenerState::Fulfilled(Delivery::Denied(error)) => Some(
                Err(ClientError::AuthDenied(error)),
            ),
            ListenerState::TimedOut => Some(Err(ClientError::AuthTimeout)),
            ListenerState::Cancelled => Some(Err(ClientError::AuthCancelled)),
        }
    }
}

/// Once a listener is fulfilled, timed out or cancelled, no run of events
/// changes its state: at most one result is ever produced.
pub proof fn settled_state_is_final(state: ListenerState, events: Seq<CallbackEvent>)
    requires
        !(state is Idle),
        !(state is Listening),
    ensures
        run(state, events) == state,
    decreases events.len(),
{
    if events.len() > 0 {
        settled_state_is_final(state, events.drop_last());
    }
}

/// Of two requests to a listening listener that both carry a code or an
/// error, the first one to arrive is delivered, and the second leaves the
/// result as it is, as does anything that follows.
pub proof fn first_request_wins(
    port: u16,
    first: CallbackRequest,
    second: CallbackRequest,
    later: Seq<CallbackEvent>,
)
    requires
        carried(first) is Some,
        carried(second) is Some,
    ensures
        ({
            let listening = ListenerState::Listening { port };
            let after_first = next_state(listening, CallbackEvent::Request(first));
            let after_second = next_state(after_first, CallbackEvent::Request(second));
            &&& after_first == ListenerState::Fulfilled(carried(first)->0)
            &&& after_second == after_first
            &&& run(after_second, later) == after_first
        }),
{
    let listening = ListenerState::Listening { port };
    let after_first = next_state(listening, CallbackEvent::Request(first));
    settled_state_is_final(after_first, later);
}

} // verus!
