use xrconnect::bhaptics_studio::command::HapticCommand;
use xrconnect::bhaptics_studio::dispatch::{Dispatch, DispatchError};
use xrconnect::bhaptics_studio::server::{BHapticsAppInfo, DEFAULT_PORT};
use xrconnect::bhaptics_studio::tact::error::{DecodeError, DecodeReason};
use xrconnect::bhaptics_studio::ws::v2::behavior::{
    BHapticsWebsocketV2Behavior, FrameOutcome, SessionState,
};

fn open_session() -> BHapticsWebsocketV2Behavior {
    let mut session = BHapticsWebsocketV2Behavior::new();
    session.on_handshake(Some("app".to_string()), Some("Editor".to_string()));
    session
}

fn stop(key: &str) -> HapticCommand {
    HapticCommand::Stop { key: key.to_string() }
}

#[test]
fn default_identity_is_the_anonymous_client() {
    let app = BHapticsAppInfo::default();
    assert_eq!(app.id, "no-app-name");
    assert_eq!(app.name, "Client");
    assert_eq!(BHapticsAppInfo::from_query(None, None), app);
}

#[test]
fn identity_takes_what_the_query_gives() {
    assert_eq!(
        BHapticsAppInfo::from_query(Some("com.game".to_string()), None),
        BHapticsAppInfo { id: "com.game".to_string(), name: "Client".to_string() }
    );
    assert_eq!(
        BHapticsAppInfo::from_query(None, Some("Game".to_string())),
        BHapticsAppInfo { id: "no-app-name".to_string(), name: "Game".to_string() }
    );
    assert_eq!(
        BHapticsAppInfo::from_query(Some(String::new()), Some("Game".to_string())),
        BHapticsAppInfo { id: String::new(), name: "Game".to_string() }
    );
}

#[test]
fn default_port_is_the_studio_port() {
    assert_eq!(DEFAULT_PORT, 15881);
}

#[test]
fn new_session_is_connecting_and_anonymous() {
    let session = BHapticsWebsocketV2Behavior::new();
    assert_eq!(session.state(), SessionState::Connecting);
    assert_eq!(session.app(), &BHapticsAppInfo::default());
}

#[test]
fn handshake_opens_the_session_and_captures_identity() {
    let session = open_session();
    assert_eq!(session.state(), SessionState::Open);
    assert_eq!(
        session.app(),
        &BHapticsAppInfo { id: "app".to_string(), name: "Editor".to_string() }
    );
}

#[test]
fn second_handshake_changes_nothing() {
    let mut session = open_session();
    session.on_handshake(Some("other".to_string()), None);
    assert_eq!(session.state(), SessionState::Open);
    assert_eq!(session.app().id, "app");
}

#[test]
fn frame_before_handshake_is_ignored() {
    let session = BHapticsWebsocketV2Behavior::new();
    assert_eq!(session.on_frame(br#"{"Submit":[{"Type":"turnOffAll"}]}"#), FrameOutcome::Ignored);
    assert_eq!(session.state(), SessionState::Connecting);
}

#[test]
fn open_session_dispatches_the_commands_of_a_frame() {
    let session = open_session();
    assert_eq!(
        session.on_frame(br#"{"Submit":[{"Type":"turnOff","Key":1},{"Type":"turnOffAll"}]}"#),
        FrameOutcome::Dispatch(vec![stop("1"), HapticCommand::StopAll])
    );
}

#[test]
fn malformed_frame_is_rejected_and_the_session_stays_open() {
    let session = open_session();
    assert_eq!(
        session.on_frame(b"{\"Submit\":"),
        FrameOutcome::Rejected(DecodeError {
            reason: DecodeReason::Malformed,
            fragment: String::new()
        })
    );
    assert_eq!(session.state(), SessionState::Open);
    assert_eq!(
        session.on_frame(br#"{"Submit":[{"Type":"rewind"}]}"#),
        FrameOutcome::Rejected(DecodeError {
            reason: DecodeReason::UnknownTag,
            fragment: "rewind".to_string()
        })
    );
    assert_eq!(session.state(), SessionState::Open);
    assert_eq!(
        session.on_frame(br#"{"Submit":[{"Type":"turnOffAll"}]}"#),
        FrameOutcome::Dispatch(vec![HapticCommand::StopAll])
    );
}

#[test]
fn decoded_result_is_handled_as_the_frame_is() {
    let session = open_session();
    let e = DecodeError { reason: DecodeReason::MissingField, fragment: "key".to_string() };
    assert_eq!(session.on_decoded(Err(e.clone())), FrameOutcome::Rejected(e));
    let closed = BHapticsWebsocketV2Behavior::new();
    let e = DecodeError { reason: DecodeReason::Malformed, fragment: String::new() };
    assert_eq!(closed.on_decoded(Err(e)), FrameOutcome::Ignored);
}

#[test]
fn close_then_release_ends_the_session() {
    let mut session = open_session();
    session.on_close();
    assert_eq!(session.state(), SessionState::Closing);
    assert_eq!(session.on_frame(br#"{"Submit":[{"Type":"turnOffAll"}]}"#), FrameOutcome::Ignored);
    session.on_close();
    assert_eq!(session.state(), SessionState::Closing);
    session.on_release();
    assert_eq!(session.state(), SessionState::Closed);
    session.on_release();
    assert_eq!(session.state(), SessionState::Closed);
    session.on_close();
    assert_eq!(session.state(), SessionState::Closed);
    session.on_handshake(None, None);
    assert_eq!(session.state(), SessionState::Closed);
    assert_eq!(session.on_frame(br#"{"Submit":[{"Type":"turnOffAll"}]}"#), FrameOutcome::Ignored);
}

#[test]
fn release_before_close_changes_nothing() {
    let mut session = open_session();
    session.on_release();
    assert_eq!(session.state(), SessionState::Open);
    let mut session = BHapticsWebsocketV2Behavior::new();
    session.on_close();
    session.on_release();
    assert_eq!(session.state(), SessionState::Connecting);
}

#[test]
fn dispatch_hands_out_commands_in_order() {
    let mut dispatch = Dispatch::new(vec![stop("a"), HapticCommand::StopAll, stop("b")]);
    assert_eq!(dispatch.next(), Some(&stop("a")));
    assert_eq!(dispatch.next(), Some(&stop("a")));
    dispatch.record(Ok(()));
    assert_eq!(dispatch.next(), Some(&HapticCommand::StopAll));
    dispatch.record(Ok(()));
    assert_eq!(dispatch.next(), Some(&stop("b")));
    dispatch.record(Ok(()));
    assert_eq!(dispatch.next(), None);
    assert_eq!(dispatch.finish(), vec![]);
}

#[test]
fn failure_does_not_cancel_later_commands() {
    let mut dispatch = Dispatch::new(vec![stop("a"), stop("b"), stop("c")]);
    dispatch.record(Ok(()));
    assert_eq!(dispatch.next(), Some(&stop("b")));
    dispatch.record(Err("no such key".to_string()));
    assert_eq!(dispatch.next(), Some(&stop("c")));
    dispatch.record(Err("busy".to_string()));
    assert_eq!(dispatch.next(), None);
    dispatch.record(Err("late".to_string()));
    assert_eq!(
        dispatch.finish(),
        vec![
            DispatchError { command: stop("b"), cause: "no such key".to_string() },
            DispatchError { command: stop("c"), cause: "busy".to_string() },
        ]
    );
}

#[test]
fn unfinished_batch_reports_what_failed_so_far() {
    let mut dispatch = Dispatch::new(vec![stop("a"), stop("b")]);
    dispatch.record(Err("x".to_string()));
    assert_eq!(
        dispatch.finish(),
        vec![DispatchError { command: stop("a"), cause: "x".to_string() }]
    );
    assert_eq!(Dispatch::new(vec![]).next(), None);
    assert_eq!(Dispatch::new(vec![]).finish(), vec![]);
}
