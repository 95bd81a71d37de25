use std::sync::Arc;

use local_w2g::dispatch::{dispatch_plan, DispatchError, DispatchStep, UiEvent};
use local_w2g::downloads::{DirEntryInfo, FileManager};
use local_w2g::player::{
    classify_ipc, line_payload, mpv_launch_args, ConfirmationSlot, ConnectRetry, IpcAction,
    IpcMessage, Event, MpvReaction, PendingRequests, ReplyOutcome,
};
use local_w2g::protocol::{ClientMessage, ServerMessage, Snowflake, VideoEntry};
use local_w2g::provider::ServiceProvider;
use local_w2g::room::{specific_event_name, ConnectFailure, RoomMessageKind, RoomSession};
use local_w2g::session::{
    on_session_event, port_for, ReconnectBackoff, SessionAction, SessionEvent, RECONNECT_MAX_MS,
    RECONNECT_MIN_MS,
};

fn files() -> FileManager {
    let entries = vec![DirEntryInfo {
        path: b"/v/4.mkv".to_vec(),
        is_file: true,
        stem: Some("4".to_string()),
        extension: Some("mkv".to_string()),
    }];
    FileManager::new(b"/v".to_vec(), &entries).0
}

fn video(id: i64) -> VideoEntry {
    VideoEntry {
        id: Snowflake(id),
        display_name: format!("{}.mkv", id),
        audio_track: 0,
        subtitle_track: 0,
        order: 0,
    }
}

#[test]
fn dispatch_plain_messages() {
    let fm = files();
    let bin = "mpv".to_string();
    let plan = dispatch_plan(ServerMessage::Pong, Some(&fm), &bin).ok().unwrap();
    assert!(matches!(plan[..], [DispatchStep::EmitPong]));
    let plan = dispatch_plan(ServerMessage::UserIdentity { id: Snowflake(3) }, None, &bin).ok().unwrap();
    assert!(matches!(plan[..], [DispatchStep::SetClientId(Snowflake(3))]));
    let plan = dispatch_plan(ServerMessage::RequestResyncReport { id: Snowflake(8) }, None, &bin)
        .ok()
        .unwrap();
    assert!(matches!(
        plan[..],
        [
            DispatchStep::MpvPause,
            DispatchStep::MpvReadPosition,
            DispatchStep::Emit(UiEvent::RequestResyncReport(Snowflake(8))),
            DispatchStep::SendPositionReport { state_id: Snowflake(8) }
        ]
    ));
    let plan = dispatch_plan(
        ServerMessage::Play { request_id: Snowflake(1), track_audio: 2, track_subtitles: 3 },
        None,
        &bin,
    )
    .ok()
    .unwrap();
    assert!(matches!(
        plan[..],
        [
            DispatchStep::MpvSetAudioTrack(2),
            DispatchStep::MpvSetSubtitleTrack(3),
            DispatchStep::MpvPlay,
            DispatchStep::Emit(UiEvent::Play(Snowflake(1)))
        ]
    ));
    let plan = dispatch_plan(ServerMessage::CommitResync { timestamp: 30 }, None, &bin).ok().unwrap();
    assert!(matches!(
        plan[..],
        [DispatchStep::MpvSeekSeconds(30), DispatchStep::Emit(UiEvent::CommitResync(30))]
    ));
    let plan = dispatch_plan(ServerMessage::Error { message: "bad".to_string() }, None, &bin)
        .ok()
        .unwrap();
    match &plan[..] {
        [DispatchStep::Emit(UiEvent::ServerError(m))] => assert_eq!(m, "bad"),
        _ => panic!("expected the error to be shown"),
    }
    let plan = dispatch_plan(ServerMessage::Pause, None, &bin).ok().unwrap();
    assert!(matches!(plan[..], [DispatchStep::MpvPause, DispatchStep::Emit(UiEvent::Pause)]));
}

#[test]
fn dispatch_readiness_request() {
    let fm = files();
    let bin = "/usr/bin/mpv".to_string();
    let msg = |v: i64| ServerMessage::RequestReadyConfirmation {
        request_id: Snowflake(1),
        video_id: Snowflake(v),
        deadline_ms: 9000,
    };
    let plan = dispatch_plan(msg(4), Some(&fm), &bin).ok().unwrap();
    match &plan[..] {
        [
            DispatchStep::Send(ClientMessage::AssertReady { video_id: Snowflake(4), on_device: true }),
            DispatchStep::Emit(UiEvent::RequestReadyConfirmation { deadline_ms: 9000, .. }),
            DispatchStep::LoadAndConfirm { request_id, path, mpv_binary, deadline_ms },
        ] => {
            assert_eq!(*request_id, Snowflake(1));
            assert_eq!(path, &b"/v/4.mkv".to_vec());
            assert_eq!(mpv_binary, "/usr/bin/mpv");
            assert_eq!(*deadline_ms, 9000);
        }
        _ => panic!("expected a load"),
    }
    let plan = dispatch_plan(msg(5), Some(&fm), &bin).ok().unwrap();
    assert!(matches!(
        plan[..],
        [
            DispatchStep::Send(ClientMessage::AssertReady { video_id: Snowflake(5), on_device: false }),
            DispatchStep::Emit(UiEvent::RequestReadyConfirmation { .. })
        ]
    ));
    match dispatch_plan(msg(4), None, &bin) {
        Err(DispatchError::FileManager(m)) => assert_eq!(m, "File manager not initialized"),
        _ => panic!("expected the missing file manager"),
    }
}

#[test]
fn dispatch_playlist_update() {
    let fm = files();
    let bin = "mpv".to_string();
    let playlist = vec![video(5), video(4), video(6), video(4)];
    let plan = dispatch_plan(ServerMessage::PlaylistUpdated { playlist }, Some(&fm), &bin)
        .ok()
        .unwrap();
    match &plan[..] {
        [
            DispatchStep::Send(ClientMessage::AssertReadyBulk { on_device }),
            DispatchStep::Emit(UiEvent::PlaylistUpdated(list)),
        ] => {
            assert_eq!(on_device, &vec![Snowflake(4), Snowflake(4)]);
            assert_eq!(list.len(), 4);
        }
        _ => panic!("expected a bulk assertion"),
    }
}

fn msg(request_id: Option<u64>, error: Option<&str>, event: Option<&str>, name: Option<&str>, data: Option<i32>) -> IpcMessage<i32> {
    IpcMessage {
        request_id,
        error: error.map(|s| s.to_string()),
        event: event.map(|s| s.to_string()),
        name: name.map(|s| s.to_string()),
        data,
    }
}

#[test]
fn ipc_lines() {
    match classify_ipc(msg(Some(3), Some("success"), None, None, Some(7))) {
        IpcAction::Resolve { request_id: 3, result: Ok(Some(7)) } => {}
        _ => panic!("expected a success"),
    }
    match classify_ipc(msg(Some(3), Some("success"), None, None, None)) {
        IpcAction::Resolve { request_id: 3, result: Ok(None) } => {}
        _ => panic!("expected a null success"),
    }
    match classify_ipc(msg(Some(4), Some("property unavailable"), Some("seek"), None, Some(1))) {
        IpcAction::Resolve { request_id: 4, result: Err(e) } => assert_eq!(e, "property unavailable"),
        _ => panic!("expected an error"),
    }
    match classify_ipc(msg(Some(4), None, None, None, None)) {
        IpcAction::Resolve { result: Err(e), .. } => assert_eq!(e, "unknown error"),
        _ => panic!("expected an unknown error"),
    }
    match classify_ipc(msg(None, None, Some("property-change"), Some("pause"), Some(1))) {
        IpcAction::Publish(Event::PropertyChange { name, data: Some(1) }) => assert_eq!(name, "pause"),
        _ => panic!("expected a property change"),
    }
    match classify_ipc(msg(None, None, Some("property-change"), None, None)) {
        IpcAction::Publish(Event::PropertyChange { name, data: None }) => assert_eq!(name, ""),
        _ => panic!("expected a property change"),
    }
    assert!(matches!(classify_ipc(msg(None, None, Some("file-loaded"), None, None)), IpcAction::Publish(Event::FileLoaded)));
    assert!(matches!(classify_ipc(msg(None, None, Some("seek"), None, None)), IpcAction::Publish(Event::Seek)));
    assert!(matches!(classify_ipc(msg(None, None, Some("playback-restart"), None, None)), IpcAction::Publish(Event::PlaybackRestart)));
    assert!(matches!(classify_ipc(msg(None, None, Some("end-file"), None, None)), IpcAction::Publish(Event::EndFile)));
    assert!(matches!(classify_ipc(msg(None, None, Some("shutdown"), None, None)), IpcAction::Publish(Event::Shutdown)));
    match classify_ipc(msg(None, None, Some("idle"), None, None)) {
        IpcAction::Publish(Event::Other(o)) => assert_eq!(o, "idle"),
        _ => panic!("expected another event"),
    }
    assert!(matches!(classify_ipc(msg(None, Some("success"), None, None, None)), IpcAction::Skip));
    assert_eq!(line_payload("  {\"a\":1}\r\n"), Some("{\"a\":1}".to_string()));
    assert_eq!(line_payload(" \n"), None);
}

#[test]
fn pending_requests() {
    let mut p: PendingRequests<&str> = PendingRequests::new();
    let a = p.register("a");
    let b = p.register("b");
    assert_eq!((a, b), (1, 2));
    assert!(p.is_waiting(1));
    assert_eq!(p.take(1), Some("a"));
    assert_eq!(p.take(1), None);
    assert!(!p.is_waiting(1));
    assert_eq!(p.take(2), Some("b"));
    assert_eq!(p.register("c"), 3);
}

#[test]
fn launch_arguments() {
    assert_eq!(
        mpv_launch_args("/tmp/mpv-socket", "/v/1.mkv"),
        vec![
            "--input-ipc-server=/tmp/mpv-socket".to_string(),
            "--idle=yes".to_string(),
            "--pause".to_string(),
            "--force-window=yes".to_string(),
            "/v/1.mkv".to_string(),
        ]
    );
}

#[test]
fn connect_retries() {
    let mut r = ConnectRetry::new(3);
    let mut attempts = 0;
    while r.should_attempt() {
        attempts += 1;
        r.record_failure(format!("refused {}", attempts));
    }
    assert_eq!(attempts, 3);
    assert_eq!(r.failure_message(), "Failed to connect after 3 attempts: refused 3");
    let none = ConnectRetry::new(0);
    assert!(!none.should_attempt());
    assert_eq!(none.failure_message(), "Failed to connect after 0 attempts: ");
}

#[test]
fn player_events() {
    let mut slot = ConfirmationSlot::new();
    assert!(matches!(slot.react::<i32>(&Event::FileLoaded), MpvReaction::Nothing));
    slot.arm(Snowflake(5));
    assert!(matches!(slot.react::<i32>(&Event::Seek), MpvReaction::Nothing));
    assert!(matches!(
        slot.react::<i32>(&Event::FileLoaded),
        MpvReaction::ConfirmReady { request_id: Snowflake(5) }
    ));
    assert!(matches!(slot.react::<i32>(&Event::FileLoaded), MpvReaction::Nothing));
    assert!(matches!(slot.react::<i32>(&Event::Shutdown), MpvReaction::Stop));
    slot.arm(Snowflake(6));
    assert_eq!(slot.take(), Some(Snowflake(6)));
    assert_eq!(slot.take(), None);
}

#[test]
fn reconnect_backoff() {
    let mut b = ReconnectBackoff::new();
    let waits: Vec<u64> = (0..8).map(|_| b.next_delay()).collect();
    assert_eq!(waits, vec![1000, 2000, 4000, 8000, 16000, 30000, 30000, 30000]);
    b.reset();
    assert_eq!(b.next_delay(), RECONNECT_MIN_MS);
    assert!(waits.iter().all(|&w| (RECONNECT_MIN_MS..=RECONNECT_MAX_MS).contains(&w)));
}

#[test]
fn ports() {
    assert_eq!(port_for(Some(8080), Some("wss")), 8080);
    assert_eq!(port_for(None, Some("wss")), 443);
    assert_eq!(port_for(None, Some("ws")), 80);
    assert_eq!(port_for(None, None), 80);
}

#[test]
fn session_events() {
    type Ev = SessionEvent<Vec<u8>, String>;
    match on_session_event(Ev::Text("{}".to_string())) {
        SessionAction::Dispatch(t) => assert_eq!(t, "{}"),
        _ => panic!(),
    }
    match on_session_event(Ev::Ping(vec![1, 2])) {
        SessionAction::Pong(p) => assert_eq!(p, vec![1, 2]),
        _ => panic!(),
    }
    assert!(matches!(on_session_event(Ev::Closed), SessionAction::End));
    assert!(matches!(on_session_event(Ev::OtherFrame), SessionAction::Ignore));
    assert!(matches!(on_session_event(Ev::OutgoingClosed), SessionAction::End));
    match on_session_event(Ev::ReadFailed("reset".to_string())) {
        SessionAction::Fail(e) => assert_eq!(e, "reset"),
        _ => panic!(),
    }
    match on_session_event(Ev::Outgoing(ClientMessage::RequestUsers)) {
        SessionAction::Send { messages, start_ping_after: None } => {
            assert!(matches!(messages[..], [ClientMessage::RequestUsers]))
        }
        _ => panic!(),
    }
    match on_session_event(Ev::HeartbeatTick) {
        SessionAction::Send { messages, start_ping_after: Some(1) } => {
            assert!(matches!(messages[..], [ClientMessage::Heartbeat, ClientMessage::Ping]))
        }
        _ => panic!(),
    }
}

#[test]
fn room_session() {
    let mut s = RoomSession::new();
    assert!(!s.is_connected());
    assert_eq!(s.check_can_send(), Err("Not connected".to_string()));
    assert!(s.check_can_connect().is_ok());
    assert!(!s.heartbeat_should_ping());
    s.mark_connected();
    assert!(s.heartbeat_should_ping());
    assert_eq!(s.check_can_connect(), Err("Already connected".to_string()));
    assert!(s.check_can_send().is_ok());
    s.on_ownership_transferred("c1");
    assert!(!s.is_owner());
    s.on_connected("c1".to_string(), false);
    assert_eq!(s.client_id().as_deref(), Some("c1"));
    s.on_ownership_transferred("c1");
    assert!(s.is_owner());
    s.on_ownership_transferred("c2");
    assert!(!s.is_owner());
    s.on_connected("c1".to_string(), true);
    assert!(s.is_owner());
    s.on_closed();
    assert!(!s.heartbeat_should_ping());
    assert!(!s.is_owner());
    assert_eq!(s.client_id(), None);
    assert!(!s.is_connected());
    assert!(s.check_can_send().is_ok());
    s.disconnect();
    assert_eq!(s.check_can_send(), Err("Not connected".to_string()));
    assert_eq!(specific_event_name(RoomMessageKind::OwnershipTransferred).as_deref(), Some("ws-ownership-transferred"));
    assert_eq!(specific_event_name(RoomMessageKind::AllReady).as_deref(), Some("ws-all-ready"));
    assert_eq!(specific_event_name(RoomMessageKind::Pong), None);
}

#[test]
fn service_registry() {
    let p = ServiceProvider::new(
        Arc::new(1u8),
        Arc::new("users"),
        Arc::new(3u16),
        Arc::new(4u32),
        Arc::new(5u64),
        Arc::new('v'),
        Arc::new(7i8),
    );
    assert_eq!(**p.snowflake(), 1);
    assert_eq!(**p.user(), "users");
    assert_eq!(**p.permission(), 3);
    assert_eq!(**p.message(), 4);
    assert_eq!(**p.playback(), 5);
    assert_eq!(**p.video(), 'v');
    assert_eq!(**p.state(), 7);
}

#[test]
fn reply_outcomes() {
    let mut p: PendingRequests<u8> = PendingRequests::new();
    let a = p.register(1);
    assert_eq!(p.conclude(a, ReplyOutcome::Replied(Ok(7))), Ok(7));
    assert!(p.is_waiting(a));
    assert_eq!(
        p.conclude::<i32>(a, ReplyOutcome::Replied(Err("property not found".to_string()))),
        Err("mpv error: property not found".to_string())
    );
    assert_eq!(
        p.conclude::<i32>(a, ReplyOutcome::ChannelDropped),
        Err("Response channel dropped (connection closed?)".to_string())
    );
    assert!(p.is_waiting(a));
    assert_eq!(
        p.conclude::<i32>(a, ReplyOutcome::TimedOut),
        Err("Timed out waiting for mpv response".to_string())
    );
    assert!(!p.is_waiting(a));
    let b = p.register(2);
    assert_eq!(p.write_failed(b, "broken pipe"), "Failed to send command: broken pipe");
    assert!(!p.is_waiting(b));
}

#[test]
fn connecting_a_room_session() {
    let mut s = RoomSession::new();
    let q = s.connect_request("https://host:8080/", "pw".to_string()).ok().unwrap();
    assert_eq!(q.url, "wss://host:8080/ws");
    assert_eq!(q.access_key, "pw");
    assert_eq!(
        s.on_connect_outcome(Err(ConnectFailure::Connect("refused".to_string()))),
        Err("Failed to connect: refused".to_string())
    );
    assert!(!s.is_connected());
    assert_eq!(
        s.on_connect_outcome(Err(ConnectFailure::Upgrade("400".to_string()))),
        Err("Failed to upgrade connection: 400".to_string())
    );
    assert!(!s.is_connected());
    assert_eq!(s.on_connect_outcome(Ok(())), Ok(()));
    assert!(s.is_connected());
    assert!(s.connect_request("h", "pw".to_string()).is_err());
    s.on_connected("c9".to_string(), true);
    assert_eq!(s.client_id().as_deref(), Some("c9"));
    assert!(s.is_owner());
}
