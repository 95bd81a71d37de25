use std::path::{Path, PathBuf};

use local_w2g::config::{ensure_http_scheme, format_url, Config};
use local_w2g::media::{
    assemble_probe, choose_prober, order_by_track_id, probe_failure_message,
    probe_ffprobe_streams, probe_mkv_tracks, probe_mp4_tracks, settle_probe, simplify_mkv_codec,
    FfprobeStream, MediaProbe, MkvTrack, Mp4Track, NativeProber, ProbedTrack, TrackKind,
};
use local_w2g::paths::{path_extension, path_file_name, path_file_stem, path_with_extension};
use local_w2g::server_config::{
    check_access_key, default_host, default_max_file_size, default_port, default_video_dir,
    Config as ServerConfig,
};

const PATHS: &[&str] = &[
    "", "/", "a", "a.b", "a.b.c", ".hidden", ".hidden.txt", "dir/file.mp4", "dir/file.", "dir/",
    "dir/.", "dir/..", "..", ".", "/x/y/z.tar.gz", "a//b", "a/./", "..a", "a..", "a/b/..", "./c",
    "x/.y", "movie.MKV", "/videos/123.partial", "é.txt", "a/b/./.",
];

#[test]
fn paths_match_std() {
    for p in PATHS {
        let path = Path::new(p);
        assert_eq!(
            path_file_name(p),
            path.file_name().map(|s| s.to_str().unwrap().to_string()),
            "file_name {:?}",
            p
        );
        assert_eq!(
            path_file_stem(p),
            path.file_stem().map(|s| s.to_str().unwrap().to_string()),
            "file_stem {:?}",
            p
        );
        assert_eq!(
            path_extension(p),
            path.extension().map(|s| s.to_str().unwrap().to_string()),
            "extension {:?}",
            p
        );
        for ext in ["mp4", "", "partial"] {
            let expected = PathBuf::from(p).with_extension(ext);
            assert_eq!(
                path_with_extension(p, ext),
                expected.to_str().unwrap(),
                "with_extension {:?} {:?}",
                p,
                ext
            );
        }
    }
}

#[test]
fn ws_url_forms() {
    assert_eq!(format_url("ws://h:1/x/".to_string()), "ws://h:1/x/");
    assert_eq!(format_url("wss://h".to_string()), "wss://h");
    assert_eq!(format_url("https://host:8080/".to_string()), "wss://host:8080/ws");
    assert_eq!(format_url("http://host//".to_string()), "ws://host/ws");
    assert_eq!(format_url("localhost:3000".to_string()), "ws://localhost:3000/ws");
    assert_eq!(
        format_url("http://a/http://b".to_string()),
        "ws://a/ws://b/ws"
    );
}

#[test]
fn ws_url_twice_is_once() {
    for base in ["https://h:1/", "http://x", "host", "ws://y", "wss://z/", "a/b//"] {
        let once = format_url(base.to_string());
        assert_eq!(format_url(once.clone()), once, "base {:?}", base);
    }
    // An address whose scheme is eaten by trimming is the exception.
    let once = format_url("https://".to_string());
    assert_eq!(once, "https:/ws");
    assert_ne!(format_url(once.clone()), once);
}

#[test]
fn http_scheme_is_added_once() {
    assert_eq!(ensure_http_scheme("host:1"), "http://host:1");
    assert_eq!(ensure_http_scheme("http://h"), "http://h");
    assert_eq!(ensure_http_scheme("https://h"), "https://h");
}

#[test]
fn client_config_defaults_and_cleaning() {
    let c = Config::default();
    assert_eq!(c.mpv_binary_path, "mpv");
    assert_eq!(c.videos_directory, "");
    assert_eq!(c.username, "Guest");
    assert_eq!(c.server_url, "http://localhost:8080");

    let mut c = Config {
        mpv_binary_path: "mpv".to_string(),
        videos_directory: "/v".to_string(),
        username: "  ann \n".to_string(),
        server_url: "  example.com:9000/ ".to_string(),
    };
    assert_eq!(c.sanitize_and_validate(), Ok(()));
    assert_eq!(c.server_url, "http://example.com:9000");
    assert_eq!(c.username, "ann");

    let mut c = Config {
        mpv_binary_path: "mpv".to_string(),
        videos_directory: "/v".to_string(),
        username: " bob ".to_string(),
        server_url: "http://[::1".to_string(),
    };
    let err = c.sanitize_and_validate().unwrap_err();
    assert_eq!(err, format!("Invalid Server URL: {}", url::Url::parse("http://[::1").unwrap_err()));
    assert_eq!(c.username, " bob ");
    assert_eq!(c.server_url, "http://[::1");
}

#[test]
fn server_url_candidate_and_parsed_result() {
    assert_eq!(Config::server_url_candidate(" h:1 "), "http://h:1");
    let mut c = Config::default();
    c.username = " x ".to_string();
    assert_eq!(c.apply_parsed_server_url(Ok("http://a/b//".to_string())), Ok(()));
    assert_eq!(c.server_url, "http://a/b");
    assert_eq!(c.username, "x");
    assert_eq!(
        c.apply_parsed_server_url(Err("bad".to_string())),
        Err("Invalid Server URL: bad".to_string())
    );
    assert_eq!(c.server_url, "http://a/b");
}

#[test]
fn server_config_defaults() {
    assert_eq!(default_host(), "127.0.0.1");
    assert_eq!(default_port(), 3000);
    assert_eq!(default_max_file_size(), 2048);
    assert_eq!(ServerConfig::default().max_file_size_mb, 2048);
    assert_eq!(default_video_dir(), "./videos");
    let c = ServerConfig::default();
    assert_eq!(c.host, "127.0.0.1");
    assert_eq!(c.port, 3000);
    assert_eq!(c.video_storage_dir, "./videos");
}

#[test]
fn access_key_gate() {
    assert_eq!(check_access_key(&None, "pw"), Err(401));
    assert_eq!(check_access_key(&Some(Some("pw".to_string())), "pw"), Ok(()));
    assert_eq!(check_access_key(&Some(Some("PW".to_string())), "pw"), Err(403));
    assert_eq!(check_access_key(&Some(None), "pw"), Err(403));
    assert_eq!(check_access_key(&Some(None), ""), Ok(()));
}

#[test]
fn mkv_codec_names() {
    assert_eq!(simplify_mkv_codec("A_AAC"), "aac");
    assert_eq!(simplify_mkv_codec("S_TEXT/ASS"), "ass");
    assert_eq!(simplify_mkv_codec("A_OPUS"), "opus");
    assert_eq!(simplify_mkv_codec("V_MPEG4/ISO/AVC"), "mpeg4/iso/avc");
    assert_eq!(simplify_mkv_codec("TEXT/UTF8"), "utf8");
    assert_eq!(simplify_mkv_codec("X_Ä"), "x_ä");
}

#[test]
fn mkv_codec_names_settle() {
    for id in ["A_AAC", "S_TEXT/ASS", "V_MPEG4/ISO/AVC", "TEXT/UTF8", "S_TEXT/A_X", "A_V_OPUS"] {
        let once = simplify_mkv_codec(id);
        assert_eq!(simplify_mkv_codec(&once), once);
        assert_eq!(once.to_lowercase(), once);
    }
}

fn names(p: &MediaProbe) -> (Vec<(i32, String, bool)>, Vec<(i32, String, bool)>) {
    (
        p.audio_tracks.iter().map(|t| (t.index, t.codec.clone(), t.is_default)).collect(),
        p.subtitle_tracks.iter().map(|t| (t.index, t.codec.clone(), t.is_default)).collect(),
    )
}

fn track(kind: TrackKind, codec: &str, default: bool) -> ProbedTrack {
    ProbedTrack {
        kind,
        codec: codec.to_string(),
        language: None,
        title: None,
        is_default: default,
    }
}

#[test]
fn probe_assembly() {
    let tracks = vec![
        track(TrackKind::Other, "h264", true),
        track(TrackKind::Audio, "aac", false),
        track(TrackKind::Subtitle, "ass", false),
        track(TrackKind::Audio, "opus", true),
    ];
    let p = assemble_probe(&tracks, false);
    let (a, s) = names(&p);
    assert_eq!(a, vec![(0, "aac".to_string(), false), (1, "opus".to_string(), true)]);
    assert_eq!(s, vec![(0, "ass".to_string(), false)]);
    let p = assemble_probe(&tracks, true);
    let (a, s) = names(&p);
    assert_eq!(a, vec![(0, "aac".to_string(), true), (1, "opus".to_string(), false)]);
    assert_eq!(s, vec![(0, "ass".to_string(), true)]);
}

#[test]
fn matroska_probe() {
    let tracks = vec![
        MkvTrack {
            is_audio: true,
            is_subtitle: false,
            codec_name: None,
            codec_id: "A_AAC".to_string(),
            language: Some("eng".to_string()),
            name: Some("Main".to_string()),
            default: true,
        },
        MkvTrack {
            is_audio: false,
            is_subtitle: true,
            codec_name: Some("SubRip".to_string()),
            codec_id: "S_TEXT/UTF8".to_string(),
            language: None,
            name: None,
            default: false,
        },
    ];
    let p = probe_mkv_tracks(&tracks);
    assert_eq!(p.audio_tracks.len(), 1);
    assert_eq!(p.audio_tracks[0].codec, "aac");
    assert_eq!(p.audio_tracks[0].language.as_deref(), Some("eng"));
    assert_eq!(p.audio_tracks[0].title.as_deref(), Some("Main"));
    assert!(p.audio_tracks[0].is_default);
    assert_eq!(p.subtitle_tracks[0].codec, "SubRip");
}

#[test]
fn mp4_probe_orders_by_track_id() {
    let tracks = vec![
        Mp4Track {
            track_id: 3,
            kind: Some(TrackKind::Audio),
            codec: Some("mp4a".to_string()),
            language: "und".to_string(),
        },
        Mp4Track {
            track_id: 1,
            kind: Some(TrackKind::Other),
            codec: Some("avc1".to_string()),
            language: "eng".to_string(),
        },
        Mp4Track {
            track_id: 2,
            kind: Some(TrackKind::Audio),
            codec: None,
            language: "jpn".to_string(),
        },
        Mp4Track { track_id: 4, kind: None, codec: None, language: String::new() },
    ];
    assert_eq!(order_by_track_id(&tracks), vec![1, 2, 0, 3]);
    let p = probe_mp4_tracks(&tracks);
    let (a, s) = names(&p);
    assert_eq!(a, vec![(0, "unknown".to_string(), true), (1, "mp4a".to_string(), false)]);
    assert!(s.is_empty());
    assert_eq!(p.audio_tracks[0].language.as_deref(), Some("jpn"));
    assert_eq!(p.audio_tracks[1].language, None);
}

#[test]
fn ffprobe_probe() {
    let streams = vec![
        FfprobeStream {
            codec_type: "video".to_string(),
            codec_name: Some("h264".to_string()),
            disposition: vec![("default".to_string(), 1)],
            tags: vec![],
        },
        FfprobeStream {
            codec_type: "audio".to_string(),
            codec_name: None,
            disposition: vec![("dub".to_string(), 1), ("default".to_string(), 0)],
            tags: vec![("language".to_string(), "ger".to_string())],
        },
        FfprobeStream {
            codec_type: "subtitle".to_string(),
            codec_name: Some("subrip".to_string()),
            disposition: vec![("default".to_string(), 1)],
            tags: vec![("title".to_string(), "Forced".to_string())],
        },
    ];
    let p = probe_ffprobe_streams(&streams);
    let (a, s) = names(&p);
    assert_eq!(a, vec![(0, "unknown".to_string(), false)]);
    assert_eq!(s, vec![(0, "subrip".to_string(), true)]);
    assert_eq!(p.audio_tracks[0].language.as_deref(), Some("ger"));
    assert_eq!(p.subtitle_tracks[0].title.as_deref(), Some("Forced"));
}

#[test]
fn prober_choice_and_failure() {
    assert_eq!(choose_prober("MKV"), Ok(NativeProber::Matroska));
    assert_eq!(choose_prober("webm"), Ok(NativeProber::Matroska));
    assert_eq!(choose_prober("Mov"), Ok(NativeProber::Mp4));
    assert_eq!(choose_prober("AVI"), Err("no native prober for .avi".to_string()));
    assert_eq!(
        probe_failure_message("bad box", "not found"),
        "could not probe file (native: bad box; ffprobe: not found)"
    );
    let empty = || MediaProbe { audio_tracks: vec![], subtitle_tracks: vec![] };
    assert!(settle_probe(Ok(empty()), None).is_ok());
    assert!(settle_probe(Err("n".to_string()), Some(Ok(empty()))).is_ok());
    match settle_probe(Err("n".to_string()), Some(Err("f".to_string()))) {
        Err(m) => assert_eq!(m, "could not probe file (native: n; ffprobe: f)"),
        Ok(_) => panic!("expected an error"),
    }
}
