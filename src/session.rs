use vstd::prelude::*;
use crate::blocks::{BlockPayload, Response, response_tree, encode_response};
use crate::json::{Json, json_text};

verus! {

/// Where a session stands.
#[derive(PartialEq, Eq, Structural, Clone, Copy, Debug)]
pub enum SessionState {
    /// No socket has been opened.
    Idle,
    /// A socket is open and its hello frame has not been read yet.
    AwaitingHello,
    /// Ready to dispatch the next frame.
    Open,
    /// A frame is being handled; the next waits until it is done.
    Busy,
    /// The socket is gone; a new handshake is needed.
    Closed,
}

/// The kinds of frame a socket delivers.
#[derive(PartialEq, Eq, Structural, Clone, Copy, Debug)]
pub enum FrameKind {
    Text,
    Binary,
    Ping,
    Pong,
    Close,
}

/// What to do with a received frame.
#[derive(PartialEq, Eq, Structural, Clone, Copy, Debug)]
pub enum StepAction {
    /// The hello frame after connecting: log it, do not dispatch it.
    SwallowHello,
    /// Decode and dispatch the frame's text.
    Dispatch,
    /// Nothing to do.
    Ignore,
    /// Another frame is in flight: hold this one until it is done.
    Defer,
    /// The peer closed: end the loop.
    Stop,
}

/// The state after a frame and the action it calls for.
pub open spec fn step(s: SessionState, f: FrameKind) -> (SessionState, StepAction) {
    match s {
        SessionState::Idle | SessionState::Closed => (s, StepAction::Ignore),
        SessionState::AwaitingHello => if f == FrameKind::Close {
            (SessionState::Closed, StepAction::Stop)
        } else {
            (SessionState::Open, StepAction::SwallowHello)
        },
        SessionState::Open => match f {
            FrameKind::Text => (SessionState::Busy, StepAction::Dispatch),
            FrameKind::Close => (SessionState::Closed, StepAction::Stop),
            _ => (SessionState::Open, StepAction::Ignore),
        },
        SessionState::Busy => if f == FrameKind::Close {
            (SessionState::Closed, StepAction::Stop)
        } else {
            (SessionState::Busy, StepAction::Defer)
        },
    }
}

/// The state once the frame in flight has been handled.
pub open spec fn finish(s: SessionState) -> SessionState {
    if s == SessionState::Busy {
        SessionState::Open
    } else {
        s
    }
}

/// Whether a socket is open in this state.
pub open spec fn socket_open(s: SessionState) -> bool {
    s == SessionState::AwaitingHello || s == SessionState::Open || s == SessionState::Busy
}

/// One session: the bearer token, fixed for the session's life, and where
/// its single socket stands.
pub struct Client {
    pub token: String,
    pub state: SessionState,
}

impl Client {
    pub fn new(token: String) -> (r: Client)
        ensures
            r.token == token,
            r.state == SessionState::Idle,
    {
        Client { token, state: SessionState::Idle }
    }

    /// Records that a new socket was opened. Returns whether an older one was
    /// open and must be closed first, so that at most one is open.
    pub fn connected(&mut self) -> (close_old: bool)
        ensures
            close_old == socket_open(old(self).state),
            final(self).state == SessionState::AwaitingHello,
            final(self).token == old(self).token,
    {
        let close_old = match self.state {
            SessionState::AwaitingHello | SessionState::Open | SessionState::Busy => true,
            _ => false,
        };
        self.state = SessionState::AwaitingHello;
        close_old
    }

    /// Takes one received frame.
    pub fn on_frame(&mut self, f: FrameKind) -> (r: StepAction)
        ensures
            (final(self).state, r) == step(old(self).state, f),
            final(self).token == old(self).token,
    {
        let (s, a) = match self.state {
            SessionState::Idle | SessionState::Closed => (self.state, StepAction::Ignore),
            SessionState::AwaitingHello => match f {
                FrameKind::Close => (SessionState::Closed, StepAction::Stop),
                _ => (SessionState::Open, StepAction::SwallowHello),
            },
            SessionState::Open => match f {
                FrameKind::Text => (SessionState::Busy, StepAction::Dispatch),
                FrameKind::Close => (SessionState::Closed, StepAction::Stop),
                _ => (SessionState::Open, StepAction::Ignore),
            },
            SessionState::Busy => match f {
                FrameKind::Close => (SessionState::Closed, StepAction::Stop),
                _ => (SessionState::Busy, StepAction::Defer),
            },
        };
        self.state = s;
        a
    }

    /// Records that the frame in flight, and any response to it, is done.
    pub fn frame_done(&mut self)
        ensures
            final(self).state == finish(old(self).state),
            final(self).token == old(self).token,
    {
        if let SessionState::Busy = self.state {
            self.state = SessionState::Open;
        }
    }

    /// The text frame that answers the envelope `envelope_id` with `payload`.
    pub fn send_response(&self, envelope_id: &str, payload: BlockPayload) -> (frame: String)
        ensures
            exists|j: Json, r: Response|
                r.envelope_id@ == envelope_id@ && r.payload == payload && response_tree(j, r) && frame@ == json_text(j),
    {
        let r = Response::new(envelope_id.to_owned(), payload);
        encode_response(&r)
    }

    /// Records a read or write failure: the session is dead.
    pub fn lost(&mut self)
        ensures
            final(self).state == SessionState::Closed,
            final(self).token == old(self).token,
    {
        self.state = SessionState::Closed;
    }
}

/// After a connect, whatever came before, the first frame that is not a close
/// is swallowed as the hello, and the text frame after it is dispatched.
pub proof fn hello_is_swallowed_then_text_dispatched(prior: SessionState, hello: FrameKind)
    requires
        hello != FrameKind::Close,
    ensures
        step(SessionState::AwaitingHello, hello) == (SessionState::Open, StepAction::SwallowHello),
        step(step(SessionState::AwaitingHello, hello).0, FrameKind::Text).1 == StepAction::Dispatch,
{
}

/// While a frame is in flight no other is dispatched: a second text frame is
/// held until the first is done, and only then dispatched. So responses go out
/// in the order the frames came in.
pub proof fn one_frame_in_flight(s: SessionState, f: FrameKind)
    requires
        step(s, FrameKind::Text).1 == StepAction::Dispatch,
    ensures
        step(s, FrameKind::Text).0 == SessionState::Busy,
        step(step(s, FrameKind::Text).0, f).1 != StepAction::Dispatch,
        step(finish(step(s, FrameKind::Text).0), FrameKind::Text).1 == StepAction::Dispatch,
{
}

} // verus!
