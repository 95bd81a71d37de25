use local_w2g::commands::{
    check_self_demotion, confirm_result, demo_tick, direct_reply, download_done_state,
    download_progress_state, download_widget_fields, entry_edit_log, format_duration, may_run,
    permission_log, play_request, readiness_result, resume_log, resync_effects, resync_log,
    resync_report_result, seek_log, select_result, whole_seconds, widget_message, Command,
    CommandResult, Connections, Effect, EditPermissionCommand, EntryEdit, Error,
    HandshakeOutcome, SeekCommand, SendMessageCommand, DEMO_CHUNK,
};
use local_w2g::commands::{
    begin_command, effects_of, next_step, permission_edit_outcome, play_timeout_effect,
    resync_initiator_log, HeartbeatCommand, PlayCommand, RunAction, RunEvent, RunStage,
};
use local_w2g::protocol::{
    Entry, EntryKind, Permissions, ServerMessage, Snowflake, User, UserReadinessView, Verdict,
    VideoEntry, VideoReadiness, WidgetState,
};

fn user(id: i64, name: Option<&str>) -> User {
    User {
        id: Snowflake(id),
        display_name: name.map(|n| n.to_string()),
        permissions: Permissions::empty(),
    }
}

fn system_entry(text: &str) -> Entry {
    Entry { id: Snowflake(9), timestamp: 5, kind: EntryKind::System { content: text.to_string() } }
}

fn global_messages(r: &CommandResult) -> Vec<&ServerMessage> {
    match r {
        CommandResult::Effects(v) => v
            .iter()
            .map(|e| match e {
                Effect::Global(m) => m,
                _ => panic!("expected a message for everyone"),
            })
            .collect(),
        CommandResult::Silent => vec![],
    }
}

#[test]
fn duration_texts() {
    assert_eq!(format_duration(0), "0s");
    assert_eq!(format_duration(59), "59s");
    assert_eq!(format_duration(60), "1m 0s");
    assert_eq!(format_duration(3599), "59m 59s");
    assert_eq!(format_duration(3600), "1h 0m 0s");
    assert_eq!(format_duration(3661), "1h 1m 1s");
}

#[test]
fn whole_seconds_match_float_cast() {
    let values = [
        0.0f64, -0.0, 0.5, 0.999, 1.0, 1.5, 59.9, 3661.7, -3.0, 1e15, 4503599627370497.0,
        9007199254740993.0, 1.8446744073709552e19, 1e19, 1e300, f64::INFINITY,
        f64::NEG_INFINITY, f64::NAN, f64::MIN_POSITIVE, 5e-324, 123456789.123,
    ];
    for v in values {
        assert_eq!(whole_seconds(v.to_bits()), v as u64, "value {:?}", v);
    }
    let mut x: u64 = 7;
    for _ in 0..5000 {
        x = x.wrapping_mul(6364136223846793005).wrapping_add(1442695040888963407);
        assert_eq!(whole_seconds(x), f64::from_bits(x) as u64, "bits {:x}", x);
    }
}

#[test]
fn log_lines() {
    let ann = user(7, Some("Ann"));
    let anon = user(42, None);
    assert_eq!(resume_log(&ann), "Ann resumed playback");
    assert_eq!(resume_log(&anon), "42 resumed playback");
    assert_eq!(seek_log(&ann, 75), "Ann set playback position to |-1m 15s-|");
    assert_eq!(resync_log(&anon), "42 initiated a Resync request");
    assert_eq!(
        entry_edit_log(&ann, EntryEdit::DisplayName),
        "[ENTRY_EDIT] Ann updated a |-display name-|"
    );
    let seek = SeekCommand { timestamp_bits: 3725.9f64.to_bits() };
    assert_eq!(seek.log_line(&ann), "Ann set playback position to |-1h 2m 5s-|");
    let r = seek.result();
    match global_messages(&r)[..] {
        [ServerMessage::Seek { timestamp_bits }] => assert_eq!(*timestamp_bits, 3725.9f64.to_bits()),
        _ => panic!("expected a seek"),
    }
}

#[test]
fn permission_log_lines() {
    assert_eq!(
        permission_log("Ann", "Bob", Permissions::manage_users(), true),
        "Ann granted Bob the MANAGE_USERS permission"
    );
    assert_eq!(
        permission_log("Ann", "Bob", Permissions::send_state(), false),
        "Ann revoked the SEND_STATE permission from Bob"
    );
    assert_eq!(
        permission_log("Ann", "Bob", Permissions::empty(), true),
        "Ann granted Bob the UNKNOWN permission"
    );
}

#[test]
fn self_demotion_is_refused() {
    let cmd = EditPermissionCommand {
        target_user: Snowflake(1),
        permission: Permissions::all(),
        granted: false,
    };
    assert!(matches!(check_self_demotion(Snowflake(1), &cmd), Err(Error::CannotDemoteSelf)));
    assert!(check_self_demotion(Snowflake(2), &cmd).is_ok());
    let grant = EditPermissionCommand { granted: true, ..cmd };
    assert!(check_self_demotion(Snowflake(1), &grant).is_ok());
    let other = EditPermissionCommand {
        target_user: Snowflake(1),
        permission: Permissions::send_message(),
        granted: false,
    };
    assert!(check_self_demotion(Snowflake(1), &other).is_ok());
}

#[test]
fn command_permissions_and_validation() {
    let send = Command::SendMessage(SendMessageCommand { content: "hi".to_string() });
    assert_eq!(send.required_permission(), Some(Permissions::send_message()));
    assert!(send.validate().is_ok());
    let empty = Command::SendMessage(SendMessageCommand { content: String::new() });
    match empty.validate() {
        Err(Error::CommandValidation(a, b)) => {
            assert_eq!(a, "send_message");
            assert_eq!(b, "Message must be 1-2000 characters");
        }
        _ => panic!("expected a validation error"),
    }
    let wide = Command::SendMessage(SendMessageCommand { content: "é".repeat(2000) });
    assert!(wide.validate().is_ok());
    let long = Command::SendMessage(SendMessageCommand { content: "é".repeat(2001) });
    assert!(long.validate().is_err());
    let fits = Command::SendMessage(SendMessageCommand { content: "a".repeat(2000) });
    assert!(fits.validate().is_ok());
    let seek = Command::Seek(SeekCommand { timestamp_bits: 0 });
    assert_eq!(seek.required_permission(), Some(Permissions::manage_playback()));
    let edit = Command::EditPermission(EditPermissionCommand {
        target_user: Snowflake(1),
        permission: Permissions::empty(),
        granted: true,
    });
    assert_eq!(edit.required_permission(), Some(Permissions::manage_users()));
    assert!(may_run(Permissions::all(), Some(Permissions::manage_users())));
    assert!(!may_run(Permissions::send_message(), Some(Permissions::manage_users())));
    assert!(may_run(Permissions::empty(), None));
}

#[test]
fn routing() {
    let mut c = Connections::new();
    c.add_connection(Snowflake(1));
    c.add_connection(Snowflake(2));
    c.add_connection(Snowflake(3));
    c.add_connection(Snowflake(2));
    let ping = || ServerMessage::Pong;
    let sorted = |mut v: Vec<Snowflake>| {
        v.sort();
        v
    };
    assert_eq!(
        sorted(c.recipients(&Effect::Global(ping()))),
        vec![Snowflake(1), Snowflake(2), Snowflake(3)]
    );
    assert_eq!(
        sorted(c.recipients(&Effect::Others(Snowflake(2), ping()))),
        vec![Snowflake(1), Snowflake(3)]
    );
    assert_eq!(c.recipients(&Effect::Direct(Snowflake(3), ping())), vec![Snowflake(3)]);
    assert_eq!(c.recipients(&Effect::Direct(Snowflake(9), ping())), vec![]);
    c.remove_connection(Snowflake(1));
    assert_eq!(sorted(c.recipients(&Effect::Global(ping()))), vec![Snowflake(2), Snowflake(3)]);
    assert_eq!(c.recipients(&Effect::Direct(Snowflake(1), ping())), vec![]);
}

#[test]
fn download_widget_reports() {
    let widget = Entry {
        id: Snowflake(5),
        timestamp: 0,
        kind: EntryKind::Widget {
            state: WidgetState::Download {
                reporter: Snowflake(7),
                filename: "a.mkv".to_string(),
                bytes_done: 0,
                bytes_total: 100,
            },
            done: false,
        },
    };
    assert!(matches!(download_widget_fields(None, Snowflake(7)), Err(Error::MessageNotFound)));
    match download_widget_fields(Some(&widget), Snowflake(7)) {
        Ok((r, f, t)) => {
            assert_eq!(r, Snowflake(7));
            assert_eq!(f, "a.mkv");
            assert_eq!(t, 100);
        }
        _ => panic!("expected the widget's fields"),
    }
    match download_widget_fields(Some(&widget), Snowflake(8)) {
        Err(Error::Forbidden(m)) => assert_eq!(m, "not your widget"),
        _ => panic!("expected Forbidden"),
    }
    let chat = system_entry("x");
    assert!(matches!(download_widget_fields(Some(&chat), Snowflake(7)), Err(Error::NotAWidget)));
    match download_progress_state(Snowflake(7), "a".to_string(), 150, 100) {
        WidgetState::Download { bytes_done, bytes_total, .. } => {
            assert_eq!((bytes_done, bytes_total), (100, 100))
        }
        _ => panic!(),
    }
    match download_progress_state(Snowflake(7), "a".to_string(), 40, 100) {
        WidgetState::Download { bytes_done, .. } => assert_eq!(bytes_done, 40),
        _ => panic!(),
    }
    match download_done_state(Snowflake(7), "a".to_string(), 100) {
        WidgetState::Download { bytes_done, .. } => assert_eq!(bytes_done, 100),
        _ => panic!(),
    }
    assert!(matches!(widget_message(system_entry("x"), true), ServerMessage::WidgetDone { .. }));
    assert!(matches!(
        widget_message(system_entry("x"), false),
        ServerMessage::WidgetUpdated { .. }
    ));
}

#[test]
fn playback_decisions() {
    assert!(matches!(play_request(None, Snowflake(1), 5000), Err(Error::NoVideoSelected)));
    let r = play_request(Some(Snowflake(4)), Snowflake(1), 5000).ok().unwrap();
    match global_messages(&r)[..] {
        [ServerMessage::RequestReadyConfirmation { request_id, video_id, deadline_ms }] => {
            assert_eq!((*request_id, *video_id, *deadline_ms), (Snowflake(1), Snowflake(4), 5000))
        }
        _ => panic!(),
    }
    assert!(matches!(select_result(Snowflake(3), false), Err(Error::InvalidVideo(Snowflake(3)))));
    let r = select_result(Snowflake(3), true).ok().unwrap();
    assert!(matches!(global_messages(&r)[..], [ServerMessage::VideoSelected { video_id: Snowflake(3) }]));

    let video = VideoEntry {
        id: Snowflake(4),
        display_name: "v.mkv".to_string(),
        audio_track: 2,
        subtitle_track: 1,
        order: 0,
    };
    let all = HandshakeOutcome::AllConfirmed { video_id: Snowflake(4) };
    let r = confirm_result(Snowflake(1), &all, Some(&video)).ok().unwrap();
    assert!(matches!(
        global_messages(&r)[..],
        [ServerMessage::Play { request_id: Snowflake(1), track_audio: 2, track_subtitles: 1 }]
    ));
    assert!(matches!(confirm_result(Snowflake(1), &all, None), Err(Error::InvalidVideo(Snowflake(4)))));
    assert!(matches!(
        confirm_result(Snowflake(1), &HandshakeOutcome::Pending, None),
        Ok(CommandResult::Silent)
    ));
    assert!(matches!(
        confirm_result(Snowflake(1), &HandshakeOutcome::AlreadyResolved, Some(&video)),
        Ok(CommandResult::Silent)
    ));
}

#[test]
fn resync_and_readiness_results() {
    let r = resync_report_result(true, 61);
    assert!(matches!(global_messages(&r)[..], [ServerMessage::CommitResync { timestamp: 61 }]));
    assert!(matches!(resync_report_result(false, 61), CommandResult::Silent));
    let r = resync_effects(system_entry("log"), Snowflake(8));
    match global_messages(&r)[..] {
        [ServerMessage::MessageCreated { .. }, ServerMessage::RequestResyncReport { id }] => {
            assert_eq!(*id, Snowflake(8))
        }
        _ => panic!(),
    }
    let view = UserReadinessView {
        user_id: Snowflake(1),
        videos: vec![(Snowflake(4), VideoReadiness::OnDevice)],
        verdict: Verdict::Ready,
    };
    let r = readiness_result(Some(view));
    assert!(matches!(global_messages(&r)[..], [ServerMessage::ReadinessUpdated { .. }]));
    assert!(matches!(readiness_result(None), CommandResult::Silent));
    match direct_reply(Snowflake(3), ServerMessage::UserIdentity { id: Snowflake(3) }) {
        CommandResult::Effects(v) => {
            assert!(matches!(v[..], [Effect::Direct(Snowflake(3), ServerMessage::UserIdentity { .. })]))
        }
        _ => panic!(),
    }
}

#[test]
fn demo_widget_ticks() {
    let total = 10 * 1024 * 1024 + 5;
    let mut done = 0u64;
    let mut ticks = 0u64;
    loop {
        let (next, finished) = demo_tick(done, total);
        ticks += 1;
        assert!(next >= done && next <= total);
        assert_eq!(next, (ticks * DEMO_CHUNK).min(total));
        done = next;
        if finished {
            break;
        }
    }
    assert_eq!(ticks, 11);
    assert_eq!(demo_tick(0, 0), (0, true));
}

#[test]
fn command_pipeline_order() {
    // A message that fails validation never reaches the permission check.
    let bad = Command::SendMessage(SendMessageCommand { content: String::new() });
    match begin_command(&bad) {
        (RunStage::Done, RunAction::Finish(Err(Error::CommandValidation(a, b)))) => {
            assert_eq!(a, "send_message");
            assert_eq!(b, "Message must be 1-2000 characters");
        }
        _ => panic!("expected a validation failure"),
    }
    // A command that needs flags has them checked first.
    match begin_command(&Command::Play(PlayCommand)) {
        (RunStage::AwaitingPermission, RunAction::CheckPermission(p)) => {
            assert_eq!(p, Permissions::manage_playback())
        }
        _ => panic!("expected a permission check"),
    }
    // One that needs none runs at once.
    assert!(matches!(begin_command(&Command::Heartbeat(HeartbeatCommand)), (RunStage::Executing, RunAction::Execute)));

    // A refused check ends the command with the refusal.
    let refused = next_step(
        RunStage::AwaitingPermission,
        RunEvent::PermissionChecked(Err(Error::NoPermission(Permissions::manage_playback()))),
    );
    assert!(matches!(refused, (RunStage::Done, RunAction::Finish(Err(Error::NoPermission(_))))));
    let allowed = next_step(RunStage::AwaitingPermission, RunEvent::PermissionChecked(Ok(())));
    assert!(matches!(allowed, (RunStage::Executing, RunAction::Execute)));

    // Effects are applied in order; the first failure stops the rest.
    let (stage, action) = next_step(RunStage::Executing, RunEvent::Executed(Ok(3)));
    assert!(matches!(action, RunAction::Apply(0)));
    let (stage, action) = next_step(stage, RunEvent::Applied(Ok(())));
    assert!(matches!(action, RunAction::Apply(1)));
    let (stage2, action2) = next_step(stage, RunEvent::Applied(Err(Error::Serialization("x".to_string()))));
    assert_eq!(stage2, RunStage::Done);
    assert!(matches!(action2, RunAction::Finish(Err(Error::Serialization(_)))));
    let (stage, action) = next_step(stage, RunEvent::Applied(Ok(())));
    assert!(matches!(action, RunAction::Apply(2)));
    let (stage, action) = next_step(stage, RunEvent::Applied(Ok(())));
    assert_eq!(stage, RunStage::Done);
    assert!(matches!(action, RunAction::Finish(Ok(()))));

    // A silent command ends at once; a failed one with its error.
    assert!(matches!(next_step(RunStage::Executing, RunEvent::Executed(Ok(0))), (RunStage::Done, RunAction::Finish(Ok(())))));
    assert!(matches!(
        next_step(RunStage::Executing, RunEvent::Executed(Err(Error::NoVideoSelected))),
        (RunStage::Done, RunAction::Finish(Err(Error::NoVideoSelected)))
    ));
    assert_eq!(effects_of(CommandResult::Silent).len(), 0);
    assert_eq!(effects_of(direct_reply(Snowflake(1), ServerMessage::Pong)).len(), 1);
}

#[test]
fn play_timeout_aborts_only_open_handshakes() {
    assert!(play_timeout_effect(Snowflake(5), None).is_none());
    match play_timeout_effect(Snowflake(5), Some(vec![Snowflake(2), Snowflake(3)])) {
        Some(Effect::Global(ServerMessage::PlayAborted { request_id, non_confirmers })) => {
            assert_eq!(request_id, Snowflake(5));
            assert_eq!(non_confirmers, vec![Snowflake(2), Snowflake(3)]);
        }
        _ => panic!("expected PlayAborted for everyone"),
    }
}

#[test]
fn resync_and_permission_edit_need_known_users() {
    assert!(matches!(resync_initiator_log(None), Err(Error::InvalidUser)));
    assert_eq!(
        resync_initiator_log(Some(&user(4, Some("ann")))).ok(),
        Some("ann initiated a Resync request".to_string())
    );
    assert_eq!(resync_initiator_log(Some(&user(4, None))).ok(), Some("4 initiated a Resync request".to_string()));

    let cmd = EditPermissionCommand { target_user: Snowflake(2), permission: Permissions::send_message(), granted: true };
    let bob = user(2, Some("bob"));
    let ann = user(1, None);
    assert!(matches!(permission_edit_outcome(&cmd, Snowflake(1), Permissions::send_message(), None, Some(&ann)), Err(Error::InvalidUser)));
    assert!(matches!(permission_edit_outcome(&cmd, Snowflake(1), Permissions::send_message(), Some(&bob), None), Err(Error::InvalidUser)));
    match permission_edit_outcome(&cmd, Snowflake(1), Permissions::send_message(), Some(&bob), Some(&ann)) {
        Ok((log, CommandResult::Effects(e))) => {
            assert_eq!(log, "1 granted bob the SEND_MESSAGE permission");
            assert_eq!(e.len(), 1);
            match &e[0] {
                Effect::Global(ServerMessage::PermissionUpdate { user_id, permissions }) => {
                    assert_eq!(*user_id, Snowflake(2));
                    assert_eq!(*permissions, Permissions::send_message());
                }
                _ => panic!("expected PermissionUpdate"),
            }
        }
        _ => panic!("expected the log line and the update"),
    }
}
