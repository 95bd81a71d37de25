use local_w2g::downloads::{
    check_http_status, classify_dir_entry, join, widget_id_from_header, DirEntryInfo,
    DownloadOutcome, DownloadWidgets, FileEvent, FileManager, ProgressTracker, ScanAction,
};
use local_w2g::protocol::{ClientMessage, Snowflake};
use local_w2g::uploads::{
    check_allowed_extension, content_disposition, download_request_from, content_type, download_widget, part_path_for,
    plan_download, plan_upload, request_failure_message, upload_client, upload_chunks, upload_step,
    validate_upload_extension, CHUNK_SIZE,
};

fn entry(name: &str, is_file: bool) -> DirEntryInfo {
    let p = std::path::Path::new("/videos").join(name);
    DirEntryInfo {
        path: p.to_str().unwrap().as_bytes().to_vec(),
        is_file,
        stem: p.file_stem().and_then(|s| s.to_str()).map(|s| s.to_string()),
        extension: p.extension().and_then(|s| s.to_str()).map(|s| s.to_string()),
    }
}

fn entry_in(dir: &str, name: &str) -> DirEntryInfo {
    let p = std::path::Path::new(dir).join(name);
    DirEntryInfo {
        path: bytes(p.to_str().unwrap()),
        is_file: true,
        stem: p.file_stem().and_then(|s| s.to_str()).map(|s| s.to_string()),
        extension: p.extension().and_then(|s| s.to_str()).map(|s| s.to_string()),
    }
}

fn bytes(s: &str) -> Vec<u8> {
    s.as_bytes().to_vec()
}

#[test]
fn joins_like_pathbuf() {
    for (d, n) in [("/v", "1.mkv"), ("/v/", "1.mkv"), ("", "a"), ("/v", "/abs"), ("rel", "x/y")] {
        let expected = std::path::Path::new(d).join(n);
        assert_eq!(join(&bytes(d), &bytes(n)), bytes(expected.to_str().unwrap()));
    }
}

#[test]
fn directory_scan() {
    assert_eq!(classify_dir_entry(&entry("12.mkv", true)), ScanAction::Record(Snowflake(12)));
    assert_eq!(classify_dir_entry(&entry("12.mkv.partial", true)), ScanAction::DeletePartial);
    assert_eq!(classify_dir_entry(&entry("notes.txt", true)), ScanAction::Ignore);
    assert_eq!(classify_dir_entry(&entry("12.mkv", false)), ScanAction::Ignore);
    let no_stem = DirEntryInfo { path: bytes("/videos/.."), is_file: true, stem: None, extension: None };
    assert_eq!(classify_dir_entry(&no_stem), ScanAction::Ignore);

    let entries = vec![
        entry("5.mp4", true),
        entry("6.mkv.partial", true),
        entry("junk", true),
        entry("5.mkv", true),
        entry("7.webm", true),
    ];
    let (fm, partials) = FileManager::new(bytes("/videos"), &entries);
    assert_eq!(partials, vec![bytes("/videos/6.mkv.partial")]);
    assert!(fm.is_on_device(Snowflake(5)));
    assert_eq!(fm.local_path(Snowflake(5)), Some(bytes("/videos/5.mkv")));
    assert_eq!(fm.local_path(Snowflake(7)), Some(bytes("/videos/7.webm")));
    assert!(!fm.is_on_device(Snowflake(6)));
    let mut ids = fm.on_device_set();
    ids.sort();
    assert_eq!(ids, vec![Snowflake(5), Snowflake(7)]);
}

#[test]
fn scan_reads_stem_and_extension_apart() {
    // "123.<0xff>": the stem is UTF-8, the extension is not.
    let odd = DirEntryInfo { path: b"/v/123.\xff".to_vec(), is_file: true, stem: Some("123".to_string()), extension: None };
    assert_eq!(classify_dir_entry(&odd), ScanAction::Record(Snowflake(123)));
    // "<0xff>.partial": a leftover whatever its stem.
    let part = DirEntryInfo { path: b"/v/\xff.partial".to_vec(), is_file: true, stem: None, extension: Some("partial".to_string()) };
    assert_eq!(classify_dir_entry(&part), ScanAction::DeletePartial);
    let (fm, partials) = FileManager::new(bytes("/v"), &vec![odd, part]);
    assert_eq!(partials, vec![b"/v/\xff.partial".to_vec()]);
    assert_eq!(fm.local_path(Snowflake(123)), Some(b"/v/123.\xff".to_vec()));
}

#[test]
fn download_lifecycle() {
    let (mut fm, _) = FileManager::new(bytes("/v"), &vec![entry_in("/v", "1.mkv")]);
    assert!(fm.start_download(Snowflake(1), "mkv").is_none());
    let t = fm.start_download(Snowflake(2), "mp4").unwrap();
    assert_eq!(t.final_path, bytes("/v/2.mp4"));
    assert_eq!(t.partial_path, bytes("/v/2.mp4.partial"));
    assert!(fm.is_downloading(Snowflake(2)));
    assert!(!fm.is_on_device(Snowflake(2)));
    assert!(fm.cancel_download(Snowflake(2)));
    assert!(fm.start_download(Snowflake(2), "mp4").is_none());

    let ev = fm.finish_download(Snowflake(2), t.final_path.clone(), DownloadOutcome::Completed);
    assert!(matches!(ev, Some(FileEvent::Completed { video_id: Snowflake(2) })));
    assert!(!fm.is_downloading(Snowflake(2)));
    assert_eq!(fm.local_path(Snowflake(2)), Some(bytes("/v/2.mp4")));

    let t3 = fm.start_download(Snowflake(3), "mkv").unwrap();
    let ev = fm.finish_download(Snowflake(3), t3.final_path, DownloadOutcome::Failed("boom".to_string()));
    match ev {
        Some(FileEvent::Failed { video_id, reason }) => {
            assert_eq!(video_id, Snowflake(3));
            assert_eq!(reason, "boom");
        }
        _ => panic!("expected a failure"),
    }
    assert!(!fm.is_on_device(Snowflake(3)));
    let t3 = fm.start_download(Snowflake(3), "mkv").unwrap();
    assert!(fm.finish_download(Snowflake(3), t3.final_path, DownloadOutcome::Cancelled).is_none());
    assert!(!fm.is_downloading(Snowflake(3)));
    assert!(!fm.cancel_download(Snowflake(3)));

    match fm.delete(Snowflake(1)) {
        Some((path, FileEvent::Removed { video_id })) => {
            assert_eq!(path, bytes("/v/1.mkv"));
            assert_eq!(video_id, Snowflake(1));
        }
        _ => panic!("expected a removal"),
    }
    assert!(!fm.is_on_device(Snowflake(1)));
    assert!(fm.delete(Snowflake(1)).is_none());
}

#[test]
fn http_status_and_widget_header() {
    assert!(check_http_status(true, "200 OK").is_ok());
    assert_eq!(check_http_status(false, "404 Not Found"), Err("HTTP 404 Not Found".to_string()));
    assert_eq!(widget_id_from_header(&Some(Some("77".to_string()))), Ok(Snowflake(77)));
    assert_eq!(
        widget_id_from_header(&Some(Some("x".to_string()))),
        Err("invalid X-Widget-Id header".to_string())
    );
    assert_eq!(
        widget_id_from_header(&None),
        Err("missing or non-ascii X-Widget-Id header".to_string())
    );
    assert_eq!(
        widget_id_from_header(&Some(None)),
        Err("missing or non-ascii X-Widget-Id header".to_string())
    );
}

fn progress(ev: Option<FileEvent>) -> Option<(u64, u64)> {
    match ev {
        Some(FileEvent::Progress { bytes_done, bytes_total, .. }) => Some((bytes_done, bytes_total)),
        None => None,
        _ => panic!("expected progress"),
    }
}

#[test]
fn progress_is_throttled() {
    let (mut t, first) = ProgressTracker::start(Snowflake(1), 1000, 0);
    assert_eq!(progress(Some(first)), Some((0, 1000)));
    assert_eq!(progress(t.on_chunk(5, 10)), None);
    assert_eq!(progress(t.on_chunk(5, 20)), Some((10, 1000)));
    assert_eq!(progress(t.on_chunk(1, 30)), None);
    assert_eq!(progress(t.on_chunk(1, 270)), Some((12, 1000)));
    let (mut u, _) = ProgressTracker::start(Snowflake(2), 0, 0);
    assert_eq!(progress(u.on_chunk(100, 100)), None);
    assert_eq!(progress(u.on_chunk(100, 250)), Some((200, 0)));
}

#[test]
fn download_widgets_route_events() {
    let mut w = DownloadWidgets::new();
    let v = Snowflake(4);
    assert!(w.on_event(&FileEvent::Started { video_id: v, widget_id: Snowflake(40) }).is_empty());
    let m = w.on_event(&FileEvent::Progress { video_id: v, bytes_done: 9, bytes_total: 10 });
    assert!(matches!(
        m[..],
        [ClientMessage::DownloadProgress { widget_id: Snowflake(40), bytes_done: 9 }]
    ));
    let m = w.on_event(&FileEvent::Completed { video_id: v });
    assert!(matches!(
        m[..],
        [
            ClientMessage::DownloadDone { widget_id: Snowflake(40) },
            ClientMessage::AssertReady { video_id: Snowflake(4), on_device: true }
        ]
    ));
    let m = w.on_event(&FileEvent::Progress { video_id: v, bytes_done: 10, bytes_total: 10 });
    assert!(m.is_empty());
    let m = w.on_event(&FileEvent::Removed { video_id: v });
    assert!(matches!(m[..], [ClientMessage::AssertReady { on_device: false, .. }]));
    w.on_event(&FileEvent::Started { video_id: v, widget_id: Snowflake(41) });
    assert!(w
        .on_event(&FileEvent::Failed { video_id: v, reason: "x".to_string() })
        .is_empty());
    assert!(w
        .on_event(&FileEvent::Progress { video_id: v, bytes_done: 1, bytes_total: 2 })
        .is_empty());
}

#[test]
fn upload_chunk_sizes() {
    assert_eq!(upload_chunks(0), Vec::<u64>::new());
    assert_eq!(upload_chunks(10), vec![10]);
    assert_eq!(upload_chunks(CHUNK_SIZE), vec![CHUNK_SIZE]);
    assert_eq!(upload_chunks(2 * CHUNK_SIZE + 3), vec![CHUNK_SIZE, CHUNK_SIZE, 3]);
    for size in [1u64, CHUNK_SIZE - 1, CHUNK_SIZE + 1, 7 * CHUNK_SIZE + 12345] {
        let c = upload_chunks(size);
        assert_eq!(c.iter().sum::<u64>(), size);
        assert!(c.iter().all(|&x| x > 0 && x <= CHUNK_SIZE));
    }
}

#[test]
fn upload_and_download_requests() {
    assert_eq!(upload_client(Some(Snowflake(5))), Ok(Snowflake(5)));
    let p = plan_upload("host:1", Snowflake(5), "/home/a/movie.mkv").ok().unwrap();
    assert_eq!(p.filename, "movie.mkv");
    assert_eq!(p.init_url, "http://host:1/api/v1/upload/init?client_id=5");
    assert_eq!(upload_client(None).err(), Some("Not connected".to_string()));
    assert_eq!(plan_upload("h", Snowflake(1), "/").err(), Some("Invalid filename".to_string()));
    assert_eq!(
        upload_step("https://h", "chunk", Snowflake(5), Snowflake(-6)),
        "https://h/api/v1/upload/chunk?client_id=5&upload_id=-6"
    );
    assert_eq!(request_failure_message("init", "500", "oops"), "init failed (500): oops");
    let d = plan_download("h:1", Some(Snowflake(2)), Snowflake(9), "Film.MKV").ok().unwrap();
    assert_eq!(d.url, "http://h:1/api/v1/videos/9?client_id=2");
    assert_eq!(d.extension, "MKV");
    assert_eq!(
        plan_download("h", Some(Snowflake(2)), Snowflake(9), "noext").err(),
        Some("display name has no extension".to_string())
    );
    assert_eq!(
        plan_download("h", None, Snowflake(9), "a.mp4").err(),
        Some("client id not set".to_string())
    );
}

#[test]
fn serving_headers() {
    assert_eq!(content_type("/v/1.mp4"), "video/mp4");
    assert_eq!(content_type("/v/1.mkv"), "video/x-matroska");
    assert_eq!(content_type("/v/1.webm"), "video/webm");
    assert_eq!(content_type("/v/1.mov"), "video/quicktime");
    assert_eq!(content_type("/v/1.MP4"), "application/octet-stream");
    assert_eq!(content_type("/v/1"), "application/octet-stream");
    assert_eq!(content_disposition("a b.mkv"), "attachment; filename=\"a b.mkv\"");
    assert_eq!(part_path_for("/v/1.mkv", "mkv"), "/v/1.mkv.part");
    assert!(matches!(
        download_widget(Snowflake(1), "x".to_string(), 10),
        local_w2g::protocol::WidgetState::Download { bytes_done: 0, bytes_total: 10, .. }
    ));
}

#[test]
fn upload_extension_checks() {
    let allowed = vec!["mkv".to_string(), "mp4".to_string()];
    assert_eq!(validate_upload_extension("A.MKV", &allowed, "mkv, mp4").ok(), Some("mkv".to_string()));
    let e = validate_upload_extension("noext", &allowed, "mkv, mp4").err().unwrap();
    assert_eq!((e.status, e.message.as_str()), (400, "File has no extension"));
    let e = validate_upload_extension("a.avi", &allowed, "mkv, mp4").err().unwrap();
    assert_eq!(e.status, 400);
    assert_eq!(e.message, "Unsupported extension: .avi. Allowed: mkv, mp4");
    let e = validate_upload_extension("a.ÄVI", &allowed, "x").err().unwrap();
    assert_eq!(e.message, "Unsupported extension: .ävi. Allowed: x");
    assert_eq!(check_allowed_extension("mp4".to_string(), &allowed, "").ok(), Some("mp4".to_string()));
}

#[test]
fn download_urls_go_through_the_parser() {
    let expected = url::Url::parse("http://h:99999/api/v1/videos/9?client_id=2").unwrap_err();
    assert_eq!(
        plan_download("h:99999", Some(Snowflake(2)), Snowflake(9), "a.mp4").err(),
        Some(format!("Error building url: {expected}"))
    );
    let d = plan_download("Example.COM:80", Some(Snowflake(2)), Snowflake(9), "a.mp4").ok().unwrap();
    assert_eq!(d.url, "http://example.com/api/v1/videos/9?client_id=2");
    let d = download_request_from(Ok("http://x/".to_string()), "mkv".to_string()).ok().unwrap();
    assert_eq!((d.url.as_str(), d.extension.as_str()), ("http://x/", "mkv"));
    assert_eq!(
        download_request_from(Err("bad".to_string()), "mkv".to_string()).err(),
        Some("Error building url: bad".to_string())
    );
}
