//! The life of one connection.
//!
//! A connection is `Connecting` until the handshake is done, then `Open`
//! until the peer closes it or the transport fails, then `Closing` until its
//! resources are released, then `Closed`. While it is open, each inbound
//! frame is decoded and mapped to commands; a frame that does not decode is
//! reported and changes nothing else. The transport, the engine and the
//! waiting are the caller's: this module decides, the caller acts.

use vstd::prelude::*;
use crate::bhaptics_studio::command::{
    commands_of, to_haptic_commands, HapticCommand, HapticCommandView,
};
use crate::bhaptics_studio::server::{anonymous, identity_of, BHapticsAppInfo, BHapticsAppInfoView};
use crate::bhaptics_studio::tact::error::{result_view, DecodeError, DecodeErrorView};
use crate::bhaptics_studio::tact::wire::views;
use crate::bhaptics_studio::tact::{
    decode_client_message, message_of, PlayerRequest, PlayerRequestView,
};

verus! {

/// Where a connection is in its life.
#[derive(Clone, Copy, Debug, PartialEq, Eq, Structural)]
pub enum SessionState {
    Connecting,
    Open,
    Closing,
    Closed,
}

/// What the caller is to do after an inbound frame.
#[derive(Clone, Debug, PartialEq, Eq)]
pub enum FrameOutcome {
    /// Hand these commands to the playback engine, in this order.
    Dispatch(Vec<HapticCommand>),
    /// The frame did not decode: report the error and go on.
    Rejected(DecodeError),
    /// The connection is not open: the frame is not looked at.
    Ignored,
}

/// The mathematical value of a [`FrameOutcome`].
pub enum FrameOutcomeView {
    Dispatch(Seq<HapticCommandView>),
    Rejected(DecodeErrorView),
    Ignored,
}

impl View for FrameOutcome {
    type V = FrameOutcomeView;

    open spec fn view(&self) -> FrameOutcomeView {
        match self {
            FrameOutcome::Dispatch(commands) => FrameOutcomeView::Dispatch(views(commands@)),
            FrameOutcome::Rejected(e) => FrameOutcomeView::Rejected(e@),
            FrameOutcome::Ignored => FrameOutcomeView::Ignored,
        }
    }
}

/// One connection of the websocket protocol's second version: its state, and
/// the identity of the client on it.
#[derive(Debug)]
pub struct BHapticsWebsocketV2Behavior {
    state: SessionState,
    app: BHapticsAppInfo,
}

/// The mathematical value of a [`BHapticsWebsocketV2Behavior`].
pub struct SessionView {
    pub state: SessionState,
    pub app: BHapticsAppInfoView,
}

impl View for BHapticsWebsocketV2Behavior {
    type V = SessionView;

    closed spec fn view(&self) -> SessionView {
        SessionView { state: self.state, app: self.app@ }
    }
}

/// The session after the handshake: a connecting session opens and takes the
/// identity given; any other is left as it is.
pub open spec fn after_handshake(s: SessionView, app: BHapticsAppInfoView) -> SessionView {
    if s.state == SessionState::Connecting {
        SessionView { state: SessionState::Open, app }
    } else {
        s
    }
}

/// What a frame comes to, given what it decoded to. An open session
/// dispatches the commands of a message and rejects what did not decode;
/// any other session ignores the frame.
pub open spec fn frame_outcome(
    s: SessionView,
    decoded: Result<PlayerRequestView, DecodeErrorView>,
) -> FrameOutcomeView {
    if s.state == SessionState::Open {
        match decoded {
            Ok(message) => FrameOutcomeView::Dispatch(commands_of(message)),
            Err(e) => FrameOutcomeView::Rejected(e),
        }
    } else {
        FrameOutcomeView::Ignored
    }
}

/// The session after a close frame or a transport error: an open session is
/// closing; any other is left as it is.
pub open spec fn after_close(s: SessionView) -> SessionView {
    if s.state == SessionState::Open {
        SessionView { state: SessionState::Closing, app: s.app }
    } else {
        s
    }
}

/// The session after its resources are released: a closing session is
/// closed; any other is left as it is.
pub open spec fn after_release(s: SessionView) -> SessionView {
    if s.state == SessionState::Closing {
        SessionView { state: SessionState::Closed, app: s.app }
    } else {
        s
    }
}

/// A frame that does not decode is rejected and nothing more: a session has
/// no state that a frame could change, so the same open session meets the
/// next frame, and a message in it is dispatched in full.
pub proof fn law_rejected_frame_leaves_session_open(
    s: SessionView,
    e: DecodeErrorView,
    message: PlayerRequestView,
)
    requires
        s.state == SessionState::Open,
    ensures
        frame_outcome(s, Err(e)) == FrameOutcomeView::Rejected(e),
        frame_outcome(s, Ok(message)) == FrameOutcomeView::Dispatch(commands_of(message)),
{
}

/// Releasing a closed session changes nothing: closing twice is closing once.
pub proof fn law_release_is_idempotent(s: SessionView)
    ensures
        after_release(after_release(s)) == after_release(s),
        after_close(after_close(s)) == after_close(s),
{
}

/// Once a session is closing, no frame is looked at any more, and nothing
/// that happens opens it again.
pub proof fn law_no_frame_after_close(
    s: SessionView,
    app: BHapticsAppInfoView,
    decoded: Result<PlayerRequestView, DecodeErrorView>,
)
    requires
        s.state == SessionState::Closing || s.state == SessionState::Closed,
    ensures
        frame_outcome(s, decoded) == FrameOutcomeView::Ignored,
        after_handshake(s, app) == s,
        after_close(s) == s,
        after_release(s).state == SessionState::Closed,
{
}

impl BHapticsWebsocketV2Behavior {
    /// A connection that has not yet completed its handshake.
    pub fn new() -> (r: BHapticsWebsocketV2Behavior)
        ensures
            r@ == (SessionView { state: SessionState::Connecting, app: anonymous() }),
    {
        BHapticsWebsocketV2Behavior {
            state: SessionState::Connecting,
            app: BHapticsAppInfo::default(),
        }
    }

    /// Where the connection is in its life.
    pub fn state(&self) -> (r: SessionState)
        ensures
            r == self@.state,
    {
        self.state
    }

    /// The identity of the client on the connection.
    pub fn app(&self) -> (r: &BHapticsAppInfo)
        ensures
            r@ == self@.app,
    {
        &self.app
    }

    /// The handshake is done; `app_id` and `app_name` are the connection's
    /// parameters of those names, where given.
    pub fn on_handshake(&mut self, app_id: Option<String>, app_name: Option<String>)
        ensures
            final(self)@ == after_handshake(
                old(self)@,
                identity_of(
                    match app_id {
                        Some(id) => Some(id@),
                        None => None,
                    },
                    match app_name {
                        Some(name) => Some(name@),
                        None => None,
                    },
                ),
            ),
    {
        if self.state == SessionState::Connecting {
            self.app = BHapticsAppInfo::from_query(app_id, app_name);
            self.state = SessionState::Open;
        }
    }

    /// A frame has been decoded, or has failed to decode. The session is
    /// left as it is, whatever the frame came to.
    pub fn on_decoded(&self, decoded: Result<PlayerRequest, DecodeError>) -> (r: FrameOutcome)
        ensures
            r@ == frame_outcome(self@, result_view(decoded)),
    {
        if self.state == SessionState::Open {
            match decoded {
                Ok(message) => FrameOutcome::Dispatch(to_haptic_commands(message)),
                Err(e) => FrameOutcome::Rejected(e),
            }
        } else {
            FrameOutcome::Ignored
        }
    }

    /// A frame has arrived. The session is left as it is, whatever the
    /// frame came to.
    pub fn on_frame(&self, bytes: &[u8]) -> (r: FrameOutcome)
        ensures
            r@ == frame_outcome(self@, message_of(bytes@)),
    {
        if self.state == SessionState::Open {
            self.on_decoded(decode_client_message(bytes))
        } else {
            FrameOutcome::Ignored
        }
    }

    /// The peer has sent a close frame, or the transport has failed.
    pub fn on_close(&mut self)
        ensures
            final(self)@ == after_close(old(self)@),
    {
        if self.state == SessionState::Open {
            self.state = SessionState::Closing;
        }
    }

    /// The connection's resources have been released.
    pub fn on_release(&mut self)
        ensures
            final(self)@ == after_release(old(self)@),
    {
        if self.state == SessionState::Closing {
            self.state = SessionState::Closed;
        }
    }
}

} // verus!
