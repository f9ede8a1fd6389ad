//! The discovery worker's decision logic.
//!
//! The listener that owns UDP sockets runs outside the library: each receive
//! cycle it observes the shared cancellation flag, tokenizes any datagram it
//! received, and asks [`worker_step`] what to do.  Everything the worker
//! decides — when to exit, what to discard, what to hand to the caller's
//! handler — is decided here.

use vstd::prelude::*;
use vstd::string::StringSliceAdditionalSpecFns;

use crate::bytes::bytes_eq;
use crate::header::HeaderMap;
use crate::message::notify::{alive_message_matches, byebye_message_matches, spec_alive_pieces,
    spec_byebye_pieces, spec_notify_kind, update_message_matches, NotifyMessage};
use crate::header::NTS;
use crate::{SSDPError, SSDPResult};

verus! {

/// The method a notification request must carry.
pub const NOTIFY_METHOD: &'static str = "NOTIFY";

/// A tokenized request, as the HTTP tokenizer hands it over: the method
/// token, whether the request target was `*`, and the header block.
pub struct TokenizedRequest {
    /// The request method token.
    pub method: Vec<u8>,
    /// Whether the request target was `*`.
    pub star_target: bool,
    /// The header block.
    pub headers: HeaderMap,
}

/// The mathematical value of a [`TokenizedRequest`].
pub ghost struct TokenizedRequestV {
    pub method: Seq<u8>,
    pub star_target: bool,
    pub headers: Seq<(Seq<u8>, Seq<u8>)>,
}

impl View for TokenizedRequest {
    type V = TokenizedRequestV;

    open spec fn view(&self) -> TokenizedRequestV {
        TokenizedRequestV {
            method: self.method@,
            star_target: self.star_target,
            headers: self.headers@,
        }
    }
}

/// Whether a request line is a notification: the method must be `NOTIFY`
/// and the request target `*`.
pub open spec fn spec_validate_notify_method(method: Seq<u8>, star_target: bool) -> Result<
    (),
    SSDPError,
> {
    if method != NOTIFY_METHOD.spec_bytes() {
        Err(SSDPError::InvalidMethod)
    } else if !star_target {
        Err(SSDPError::InvalidUri)
    } else {
        Ok(())
    }
}

/// Check that a request line is a notification.
pub fn validate_notify_method(method: &[u8], star_target: bool) -> (r: SSDPResult<()>)
    ensures
        r == spec_validate_notify_method(method@, star_target),
{
    if !bytes_eq(method, NOTIFY_METHOD.as_bytes()) {
        Err(SSDPError::InvalidMethod)
    } else if !star_target {
        Err(SSDPError::InvalidUri)
    } else {
        Ok(())
    }
}

/// The states of a discovery listener.  A listener is created listening;
/// once the cancellation flag is observed set it stops, and a stopped
/// listener never listens again.
#[derive(Copy, Clone, PartialEq, Eq, Structural, Hash, Debug)]
pub enum ListenerState {
    Listening,
    Stopped,
}

/// The state a listener moves to on observing the cancellation flag.
pub open spec fn spec_observe(state: ListenerState, cancelled: bool) -> ListenerState {
    match state {
        ListenerState::Stopped => ListenerState::Stopped,
        ListenerState::Listening => if cancelled {
            ListenerState::Stopped
        } else {
            ListenerState::Listening
        },
    }
}

impl ListenerState {
    /// Observe the cancellation flag: a set flag stops the listener, and a
    /// stopped listener stays stopped.
    pub fn observe(self, cancelled: bool) -> (r: ListenerState)
        ensures
            r == spec_observe(self, cancelled),
    {
        match self {
            ListenerState::Stopped => ListenerState::Stopped,
            ListenerState::Listening => if cancelled {
                ListenerState::Stopped
            } else {
                ListenerState::Listening
            },
        }
    }
}

/// What the worker does with one receive cycle.
pub enum WorkerAction {
    /// The cancellation flag was set: stop, releasing the sockets.
    Exit,
    /// Nothing was received, or the datagram was malformed: carry on.
    Ignore,
    /// A valid notification: hand it to the caller's handler.
    Deliver(NotifyMessage),
}

/// The kind of a worker action, without its payload.
pub ghost enum WorkerActionKind {
    Exit,
    Ignore,
    Deliver,
}

/// The kind of a worker action.
pub open spec fn action_kind(a: WorkerAction) -> WorkerActionKind {
    match a {
        WorkerAction::Exit => WorkerActionKind::Exit,
        WorkerAction::Ignore => WorkerActionKind::Ignore,
        WorkerAction::Deliver(_) => WorkerActionKind::Deliver,
    }
}

/// Whether a tokenized request passes the whole notification pipeline.
pub open spec fn spec_datagram_accepted(req: TokenizedRequestV) -> bool {
    &&& spec_validate_notify_method(req.method, req.star_target) is Ok
    &&& match spec_notify_kind(req.headers) {
        Ok(NTS::Alive) => spec_alive_pieces(req.headers) is Ok,
        Ok(NTS::Update) => spec_alive_pieces(req.headers) is Ok,
        Ok(NTS::ByeBye) => spec_byebye_pieces(req.headers) is Ok,
        Err(_) => false,
    }
}

/// The action one receive cycle must take: exit exactly when the flag was
/// observed set; otherwise deliver exactly the requests that pass the whole
/// pipeline, and ignore everything else — one malformed announcement never
/// ends the worker.
pub open spec fn spec_worker_action(cancelled: bool, req: Option<TokenizedRequestV>) ->
    WorkerActionKind {
    if cancelled {
        WorkerActionKind::Exit
    } else {
        match req {
            None => WorkerActionKind::Ignore,
            Some(r) => if spec_datagram_accepted(r) {
                WorkerActionKind::Deliver
            } else {
                WorkerActionKind::Ignore
            },
        }
    }
}

/// The view of an optional tokenized request.
pub open spec fn opt_request_view(req: Option<TokenizedRequest>) -> Option<TokenizedRequestV> {
    match req {
        Some(r) => Some(r@),
        None => None,
    }
}

/// Whether a delivered message carries the values its header block
/// validates to.
pub open spec fn notify_message_matches(
    m: NotifyMessage,
    h: Seq<(Seq<u8>, Seq<u8>)>,
) -> bool {
    match m {
        NotifyMessage::Alive(a) => spec_notify_kind(h) == Ok::<NTS, SSDPError>(NTS::Alive) && (
        spec_alive_pieces(h) matches Ok(v) && alive_message_matches(a, v)),
        NotifyMessage::Update(u) => spec_notify_kind(h) == Ok::<NTS, SSDPError>(NTS::Update) && (
        spec_alive_pieces(h) matches Ok(v) && update_message_matches(u, v)),
        NotifyMessage::ByeBye(b) => spec_notify_kind(h) == Ok::<NTS, SSDPError>(NTS::ByeBye) && (
        spec_byebye_pieces(h) matches Ok(v) && byebye_message_matches(b, v)),
    }
}

/// Decide one receive cycle of the discovery worker.
///
/// The caller hands in the cancellation flag as observed this cycle and the
/// tokenized request, when a datagram arrived and tokenized; a datagram that
/// did not tokenize is handed in as nothing.
pub fn worker_step(cancelled: bool, request: Option<TokenizedRequest>) -> (r: WorkerAction)
    ensures
        action_kind(r) == spec_worker_action(cancelled, opt_request_view(request)),
        r matches WorkerAction::Deliver(m) ==> (request matches Some(req)
            && notify_message_matches(m, req@.headers)),
{
    if cancelled {
        return WorkerAction::Exit;
    }
    match request {
        None => WorkerAction::Ignore,
        Some(req) => {
            match validate_notify_method(req.method.as_slice(), req.star_target) {
                Err(_) => {
                    return WorkerAction::Ignore;
                },
                Ok(_) => {},
            }
            let ghost h = req.headers@;
            match NotifyMessage::new(req.headers) {
                Ok(m) => WorkerAction::Deliver(m),
                Err(_) => WorkerAction::Ignore,
            }
        },
    }
}

/// Listener resilience: under a clear flag, a request that fails the
/// pipeline is ignored — neither delivered nor allowed to end the worker —
/// while a request that passes it is delivered, and the listener observing
/// the clear flag stays listening.
pub proof fn lemma_listener_resilience(bad: TokenizedRequestV, good: TokenizedRequestV)
    requires
        !spec_datagram_accepted(bad),
        spec_datagram_accepted(good),
    ensures
        spec_worker_action(false, Some(bad)) == WorkerActionKind::Ignore,
        spec_worker_action(false, Some(good)) == WorkerActionKind::Deliver,
        spec_observe(ListenerState::Listening, false) == ListenerState::Listening,
{
}

/// Shutdown bound: once the cancellation flag is observed set, the cycle
/// exits — whatever was received, nothing more is delivered — and the
/// listener stops, from either state.
pub proof fn lemma_shutdown_bound(req: Option<TokenizedRequestV>, state: ListenerState)
    ensures
        spec_worker_action(true, req) == WorkerActionKind::Exit,
        spec_worker_action(true, req) != WorkerActionKind::Deliver,
        spec_observe(state, true) == ListenerState::Stopped,
{
}

} // verus!
