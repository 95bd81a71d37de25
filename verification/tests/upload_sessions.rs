use local_w2g::protocol::{Snowflake, WidgetState};
use local_w2g::uploads::{
    chunk_widget, internal_error, finalized_upload_widget, reaped_upload_widget, upload_widget, UploadSession,
    UploadSessions, UPLOAD_TTL_MS,
};

fn session(client: i64, last_activity: u64) -> UploadSession {
    UploadSession {
        client_id: Snowflake(client),
        filename: "film.mkv".to_string(),
        part_path: "/v/9.mkv.part".to_string(),
        final_path: "/v/9.mkv".to_string(),
        bytes_received: 0,
        bytes_expected: 100,
        widget_id: Snowflake(77),
        last_activity,
    }
}

#[test]
fn chunks_are_checked_and_counted() {
    let mut s = UploadSessions::new();
    let up = Snowflake(9);
    let e = s.chunk_target(up, Snowflake(1)).err().unwrap();
    assert_eq!((e.status, e.message.as_str()), (404, "Upload session not found"));
    s.insert(up, session(1, 0));
    let t = s.chunk_target(up, Snowflake(1)).ok().unwrap();
    assert_eq!(t.part_path, "/v/9.mkv.part");
    assert_eq!(t.widget_id, Snowflake(77));
    assert_eq!(t.bytes_expected, 100);
    let e = s.chunk_target(up, Snowflake(2)).err().unwrap();
    assert_eq!((e.status, e.message.as_str()), (403, "Upload belongs to a different client"));
    assert_eq!(s.record_chunk(up, 40, 10).ok(), Some(40));
    assert_eq!(s.record_chunk(up, 70, 20).ok(), Some(110));
    let e = s.record_chunk(Snowflake(10), 1, 1).err().unwrap();
    assert_eq!((e.status, e.message.as_str()), (404, "Upload session disappeared mid-chunk"));
}

#[test]
fn finalizing_takes_the_session() {
    let mut s = UploadSessions::new();
    let up = Snowflake(9);
    s.insert(up, session(1, 0));
    let e = s.take_for_finalize(up, Snowflake(2)).err().unwrap();
    assert_eq!(e.status, 403);
    assert!(s.chunk_target(up, Snowflake(1)).is_ok());
    let taken = s.take_for_finalize(up, Snowflake(1)).ok().unwrap();
    assert_eq!(taken.final_path, "/v/9.mkv");
    let e = s.take_for_finalize(up, Snowflake(1)).err().unwrap();
    assert_eq!(e.status, 404);
}

#[test]
fn reaper_drops_idle_sessions_only() {
    let mut s = UploadSessions::new();
    s.insert(Snowflake(1), session(1, 0));
    s.insert(Snowflake(2), session(1, 1000));
    s.insert(Snowflake(3), session(1, UPLOAD_TTL_MS + 5000));
    let now = UPLOAD_TTL_MS + 500;
    let stale = s.reap(now);
    let ids: Vec<Snowflake> = stale.iter().map(|(id, _)| *id).collect();
    assert_eq!(ids, vec![Snowflake(1)]);
    assert!(s.chunk_target(Snowflake(1), Snowflake(1)).is_err());
    assert!(s.chunk_target(Snowflake(2), Snowflake(1)).is_ok());
    assert!(s.chunk_target(Snowflake(3), Snowflake(1)).is_ok());
    assert!(s.reap(now).is_empty());
    let stale = s.reap(UPLOAD_TTL_MS + 1001);
    assert_eq!(stale.len(), 1);
    assert_eq!(stale[0].0, Snowflake(2));
}

#[test]
fn reaper_hands_back_each_stale_session_once() {
    let mut s = UploadSessions::new();
    for id in 1..=4 {
        s.insert(Snowflake(id), session(1, 0));
    }
    s.insert(Snowflake(5), session(1, UPLOAD_TTL_MS));
    s.insert(Snowflake(2), session(1, 0));
    let mut ids: Vec<Snowflake> = s.reap(UPLOAD_TTL_MS + 1).iter().map(|(id, _)| *id).collect();
    ids.sort();
    assert_eq!(ids, vec![Snowflake(1), Snowflake(2), Snowflake(3), Snowflake(4)]);
    assert!(s.chunk_target(Snowflake(5), Snowflake(1)).is_ok());
}

#[test]
fn received_bytes_follow_chunks() {
    let mut s = UploadSessions::new();
    assert_eq!(s.bytes_received(Snowflake(4)), None);
    s.insert(Snowflake(4), session(1, 0));
    assert_eq!(s.bytes_received(Snowflake(4)), Some(0));
    assert_eq!(s.record_chunk(Snowflake(4), 30, 10).ok(), Some(30));
    assert_eq!(s.record_chunk(Snowflake(4), 12, 20).ok(), Some(42));
    assert_eq!(s.bytes_received(Snowflake(4)), Some(42));
}

fn upload_fields(w: WidgetState) -> (Snowflake, String, Snowflake, u64, u64) {
    match w {
        WidgetState::Upload { uploader, filename, target, bytes_done, bytes_total } => {
            (uploader, filename, target, bytes_done, bytes_total)
        }
        _ => panic!("expected an upload widget"),
    }
}

#[test]
fn upload_widget_states() {
    assert_eq!(
        upload_fields(upload_widget(Snowflake(1), "a".to_string(), Snowflake(2), 50)),
        (Snowflake(1), "a".to_string(), Snowflake(2), 0, 50)
    );
    assert_eq!(
        upload_fields(chunk_widget(Snowflake(1), "a".to_string(), Snowflake(2), 60, 50)),
        (Snowflake(1), "a".to_string(), Snowflake(2), 60, 60)
    );
    assert_eq!(
        upload_fields(chunk_widget(Snowflake(1), "a".to_string(), Snowflake(2), 10, 50)).4,
        50
    );
    let mut s = session(1, 0);
    s.bytes_received = 30;
    assert_eq!(
        upload_fields(finalized_upload_widget(&s, Snowflake(1))),
        (Snowflake(1), "film.mkv".to_string(), Snowflake(1), 30, 30)
    );
    assert_eq!(
        upload_fields(reaped_upload_widget(&s, Snowflake(9), Snowflake(0))),
        (Snowflake(0), "film.mkv".to_string(), Snowflake(9), 30, 100)
    );
}

#[test]
fn internal_errors() {
    let e = internal_error("disk full");
    assert_eq!(e.status, 500);
    assert_eq!(e.message, "Internal error: disk full");
}
