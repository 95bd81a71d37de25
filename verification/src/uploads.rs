//! Chunked uploads and video downloads over HTTP: the client's request plan and the
//! server's bookkeeping of upload sessions.

use vstd::prelude::*;

use std::collections::HashMap;
use vstd::std_specs::iter::IteratorSpec;

use crate::config::{ensure_http_scheme_chars, parse_url, url_parse, with_http_scheme};
use crate::paths::{extension_of, file_name, path_extension, path_file_name, path_with_extension, with_extension};
use crate::protocol::{Snowflake, WidgetState};
use crate::text::{chars_of, dec_int, push_all, string_of};

verus! {

broadcast use vstd::std_specs::hash::group_hash_axioms;

// ---------------------------------------------------------------------------
// Client: request plan
// ---------------------------------------------------------------------------

/// Size of one upload chunk: 50 MiB (stays well under proxies' 100 MB request limits).
pub const CHUNK_SIZE: u64 = 50 * 1024 * 1024;

/// The sizes of the chunks a file of `size` bytes is sent in: full chunks, then the rest.
pub open spec fn chunk_plan(size: nat) -> Seq<nat>
    decreases size,
{
    if size == 0 {
        Seq::empty()
    } else if size <= CHUNK_SIZE {
        seq![size]
    } else {
        seq![CHUNK_SIZE as nat] + chunk_plan((size - CHUNK_SIZE) as nat)
    }
}

/// The sizes of the chunks in which a file of `file_size` bytes is uploaded, in order.
pub fn upload_chunks(file_size: u64) -> (r: Vec<u64>)
    ensures
        r@.map_values(|c: u64| c as nat) == chunk_plan(file_size as nat),
{
    let mut r: Vec<u64> = Vec::new();
    let mut sent: u64 = 0;
    while sent < file_size
        invariant
            sent <= file_size,
            r@.map_values(|c: u64| c as nat) + chunk_plan((file_size - sent) as nat) == chunk_plan(file_size as nat),
        decreases file_size - sent,
    {
        let remaining = file_size - sent;
        let this_chunk = if remaining < CHUNK_SIZE {
            remaining
        } else {
            CHUNK_SIZE
        };
        let ghost before = r@.map_values(|c: u64| c as nat);
        r.push(this_chunk);
        assert(r@.map_values(|c: u64| c as nat) == before.push(this_chunk as nat));
        if remaining <= CHUNK_SIZE {
            assert(chunk_plan((remaining - this_chunk) as nat) =~= Seq::<nat>::empty());
            assert(before + chunk_plan(remaining as nat) == before.push(this_chunk as nat) + chunk_plan(
                (remaining - this_chunk) as nat,
            ));
        } else {
            assert(before + chunk_plan(remaining as nat) =~= before.push(this_chunk as nat) + chunk_plan(
                (remaining - this_chunk) as nat,
            ));
        }
        sent = sent + this_chunk;
    }
    assert(chunk_plan(0) =~= Seq::<nat>::empty());
    assert(r@.map_values(|c: u64| c as nat) + Seq::<nat>::empty() == r@.map_values(|c: u64| c as nat));
    r
}

/// The sum of a sequence of sizes.
pub open spec fn total(s: Seq<nat>) -> nat
    decreases s.len(),
{
    if s.len() == 0 {
        0
    } else {
        s[0] + total(s.drop_first())
    }
}

/// The chunks of a file add up to its size, and none is larger than `CHUNK_SIZE` or empty.
pub proof fn lemma_chunk_plan(size: nat)
    ensures
        total(chunk_plan(size)) == size,
        forall|i: int| 0 <= i < chunk_plan(size).len() ==> 0 < #[trigger] chunk_plan(size)[i] <= CHUNK_SIZE,
    decreases size,
{
    if size > CHUNK_SIZE {
        lemma_chunk_plan((size - CHUNK_SIZE) as nat);
        let rest = chunk_plan((size - CHUNK_SIZE) as nat);
        let whole = chunk_plan(size);
        assert(whole == seq![CHUNK_SIZE as nat] + rest);
        assert(whole.drop_first() == rest);
        assert forall|i: int| 0 <= i < whole.len() implies 0 < #[trigger] whole[i] <= CHUNK_SIZE by {
            if i > 0 {
                assert(whole[i] == rest[i - 1]);
            }
        }
    } else if size > 0 {
        let whole = chunk_plan(size);
        assert(whole == seq![size]);
        assert(whole.drop_first() =~= Seq::<nat>::empty());
        assert(total(whole.drop_first()) == 0);
    }
}

/// `{server}/api/v1/upload/init?client_id={client}`.
pub open spec fn init_url(server: Seq<char>, client: Snowflake) -> Seq<char> {
    server + seq![
        '/', 'a', 'p', 'i', '/', 'v', '1', '/', 'u', 'p', 'l', 'o', 'a', 'd', '/', 'i', 'n', 'i',
        't', '?', 'c', 'l', 'i', 'e', 'n', 't', '_', 'i', 'd', '='
    ] + dec_int(client.0 as int)
}

/// `{server}/api/v1/upload/{step}?client_id={client}&upload_id={upload}`.
pub open spec fn upload_step_url(server: Seq<char>, step: Seq<char>, client: Snowflake, upload: Snowflake) -> Seq<char> {
    server + seq!['/', 'a', 'p', 'i', '/', 'v', '1', '/', 'u', 'p', 'l', 'o', 'a', 'd', '/']
        + step + seq!['?', 'c', 'l', 'i', 'e', 'n', 't', '_', 'i', 'd', '='] + dec_int(
        client.0 as int,
    ) + seq!['&', 'u', 'p', 'l', 'o', 'a', 'd', '_', 'i', 'd', '='] + dec_int(upload.0 as int)
}

/// `{server}/api/v1/videos/{video}?client_id={client}`.
pub open spec fn video_url(server: Seq<char>, video: Snowflake, client: Snowflake) -> Seq<char> {
    server + seq!['/', 'a', 'p', 'i', '/', 'v', '1', '/', 'v', 'i', 'd', 'e', 'o', 's', '/']
        + dec_int(video.0 as int) + seq!['?', 'c', 'l', 'i', 'e', 'n', 't', '_', 'i', 'd', '=']
        + dec_int(client.0 as int)
}

/// The endpoints of one upload, for a server URL with its scheme.
pub struct UploadPlan {
    pub filename: String,
    pub init_url: String,
}

/// `"Not connected"`.
pub open spec fn lit_not_connected() -> Seq<char> {
    seq!['N', 'o', 't', ' ', 'c', 'o', 'n', 'n', 'e', 'c', 't', 'e', 'd']
}

/// `"Invalid filename"`.
pub open spec fn lit_invalid_filename() -> Seq<char> {
    seq!['I', 'n', 'v', 'a', 'l', 'i', 'd', ' ', 'f', 'i', 'l', 'e', 'n', 'a', 'm', 'e']
}

/// The client id an upload is made under: `Not connected` when the client has none yet.
pub fn upload_client(client_id: Option<Snowflake>) -> (r: Result<Snowflake, String>)
    ensures
        match client_id {
            None => r matches Err(m) && m@ == lit_not_connected(),
            Some(c) => r == Ok::<Snowflake, String>(c),
        },
{
    match client_id {
        Some(c) => Ok(c),
        None => {
            let m = vec!['N', 'o', 't', ' ', 'c', 'o', 'n', 'n', 'e', 'c', 't', 'e', 'd'];
            Err(string_of(&m))
        },
    }
}

/// Prepares the upload by `client` of the file at `file_path` (once the file is open): the
/// file name sent to the server and the init endpoint. Fails with `Invalid filename` when
/// the path has no final component.
pub fn plan_upload(server_url: &str, client: Snowflake, file_path: &str) -> (r: Result<UploadPlan, String>)
    ensures
        match file_name(file_path@) {
            None => r matches Err(m) && m@ == lit_invalid_filename(),
            Some(n) => r matches Ok(p) && p.filename@ == n && p.init_url@ == init_url(
                with_http_scheme(server_url@),
                client,
            ),
        },
{
    let filename = match path_file_name(file_path) {
        Some(n) => n,
        None => {
            let m = vec!['I', 'n', 'v', 'a', 'l', 'i', 'd', ' ', 'f', 'i', 'l', 'e', 'n', 'a', 'm', 'e'];
            return Err(string_of(&m));
        },
    };
    let raw = chars_of(server_url);
    let mut url = ensure_http_scheme_chars(&raw);
    let path = vec![
        '/', 'a', 'p', 'i', '/', 'v', '1', '/', 'u', 'p', 'l', 'o', 'a', 'd', '/', 'i', 'n', 'i',
        't', '?', 'c', 'l', 'i', 'e', 'n', 't', '_', 'i', 'd', '='
    ];
    push_all(&mut url, &path);
    let id = client.to_chars();
    push_all(&mut url, &id);
    Ok(UploadPlan { filename, init_url: string_of(&url) })
}

/// The URL of an upload step (`chunk` or `finalize`) for a server URL (given its scheme
/// here), a client and an upload id.
pub fn upload_step(server_url: &str, step: &str, client: Snowflake, upload: Snowflake) -> (r: String)
    ensures
        r@ == upload_step_url(with_http_scheme(server_url@), step@, client, upload),
{
    let raw = chars_of(server_url);
    let mut url = ensure_http_scheme_chars(&raw);
    let path = vec!['/', 'a', 'p', 'i', '/', 'v', '1', '/', 'u', 'p', 'l', 'o', 'a', 'd', '/'];
    push_all(&mut url, &path);
    let st = chars_of(step);
    push_all(&mut url, &st);
    let q1 = vec!['?', 'c', 'l', 'i', 'e', 'n', 't', '_', 'i', 'd', '='];
    push_all(&mut url, &q1);
    let c = client.to_chars();
    push_all(&mut url, &c);
    let q2 = vec!['&', 'u', 'p', 'l', 'o', 'a', 'd', '_', 'i', 'd', '='];
    push_all(&mut url, &q2);
    let u = upload.to_chars();
    push_all(&mut url, &u);
    string_of(&url)
}

/// The text of a failed upload request: `{ctx} failed ({status}): {text}`.
pub open spec fn request_failure_text(ctx: Seq<char>, status: Seq<char>, text: Seq<char>) -> Seq<char> {
    ctx + seq![' ', 'f', 'a', 'i', 'l', 'e', 'd', ' ', '('] + status + seq![')', ':', ' '] + text
}

/// Builds the text of `request_failure_text`.
pub fn request_failure_message(ctx: &str, status: &str, text: &str) -> (r: String)
    ensures
        r@ == request_failure_text(ctx@, status@, text@),
{
    let mut m = chars_of(ctx);
    let a = vec![' ', 'f', 'a', 'i', 'l', 'e', 'd', ' ', '('];
    push_all(&mut m, &a);
    let s = chars_of(status);
    push_all(&mut m, &s);
    let b = vec![')', ':', ' '];
    push_all(&mut m, &b);
    let t = chars_of(text);
    push_all(&mut m, &t);
    string_of(&m)
}

/// A download to start: the URL (unparsed) and the file extension to save under.
pub struct DownloadRequest {
    pub url: String,
    pub extension: String,
}

/// `"display name has no extension"`.
pub open spec fn lit_no_extension() -> Seq<char> {
    seq![
        'd', 'i', 's', 'p', 'l', 'a', 'y', ' ', 'n', 'a', 'm', 'e', ' ', 'h', 'a', 's', ' ', 'n',
        'o', ' ', 'e', 'x', 't', 'e', 'n', 's', 'i', 'o', 'n'
    ]
}

/// `"client id not set"`.
pub open spec fn lit_no_client_id() -> Seq<char> {
    seq!['c', 'l', 'i', 'e', 'n', 't', ' ', 'i', 'd', ' ', 'n', 'o', 't', ' ', 's', 'e', 't']
}

/// `"Error building url: "`.
pub open spec fn lit_bad_url() -> Seq<char> {
    seq![
        'E', 'r', 'r', 'o', 'r', ' ', 'b', 'u', 'i', 'l', 'd', 'i', 'n', 'g', ' ', 'u', 'r', 'l',
        ':', ' '
    ]
}

/// Finishes a download request, given what the URL parser made of the video's URL: the
/// parsed URL's serialization with the extension, or `Error building url: {error}`.
pub fn download_request_from(parsed: Result<String, String>, extension: String) -> (r: Result<DownloadRequest, String>)
    ensures
        match parsed {
            Ok(u) => r matches Ok(d) && d.url@ == u@ && d.extension@ == extension@,
            Err(e) => r matches Err(m) && m@ == lit_bad_url() + e@,
        },
{
    match parsed {
        Ok(url) => Ok(DownloadRequest { url, extension }),
        Err(e) => {
            let mut m = vec![
                'E', 'r', 'r', 'o', 'r', ' ', 'b', 'u', 'i', 'l', 'd', 'i', 'n', 'g', ' ', 'u', 'r',
                'l', ':', ' '
            ];
            assert(m@ == lit_bad_url());
            push_all(&mut m, &chars_of(e.as_str()));
            Err(string_of(&m))
        },
    }
}

/// What a client needs to download video `video_id` named `display_name`: the extension of
/// the display name (`display name has no extension` without one) and, once the client
/// has an id (`client id not set` before), the video's URL on the server as the URL parser
/// reads it (`Error building url: {error}` when it does not parse).
pub fn plan_download(server_url: &str, client_id: Option<Snowflake>, video_id: Snowflake, display_name: &str) -> (r: Result<DownloadRequest, String>)
    ensures
        match extension_of(display_name@) {
            None => r matches Err(m) && m@ == lit_no_extension(),
            Some(ext) => match client_id {
                None => r matches Err(m) && m@ == lit_no_client_id(),
                Some(c) => match url_parse(video_url(with_http_scheme(server_url@), video_id, c)) {
                    Ok(u) => r matches Ok(d) && d.extension@ == ext && d.url@ == u,
                    Err(e) => r matches Err(m) && m@ == lit_bad_url() + e,
                },
            },
        },
{
    let extension = match path_extension(display_name) {
        Some(e) => e,
        None => {
            let m = vec![
                'd', 'i', 's', 'p', 'l', 'a', 'y', ' ', 'n', 'a', 'm', 'e', ' ', 'h', 'a', 's', ' ',
                'n', 'o', ' ', 'e', 'x', 't', 'e', 'n', 's', 'i', 'o', 'n'
            ];
            return Err(string_of(&m));
        },
    };
    let client = match client_id {
        Some(c) => c,
        None => {
            let m = vec!['c', 'l', 'i', 'e', 'n', 't', ' ', 'i', 'd', ' ', 'n', 'o', 't', ' ', 's', 'e', 't'];
            return Err(string_of(&m));
        },
    };
    let raw = chars_of(server_url);
    let mut url = ensure_http_scheme_chars(&raw);
    let path = vec!['/', 'a', 'p', 'i', '/', 'v', '1', '/', 'v', 'i', 'd', 'e', 'o', 's', '/'];
    push_all(&mut url, &path);
    let v = video_id.to_chars();
    push_all(&mut url, &v);
    let q = vec!['?', 'c', 'l', 'i', 'e', 'n', 't', '_', 'i', 'd', '='];
    push_all(&mut url, &q);
    let c = client.to_chars();
    push_all(&mut url, &c);
    let text = string_of(&url);
    let parsed = parse_url(text.as_str());
    download_request_from(parsed, extension)
}

// ---------------------------------------------------------------------------
// Server: serving a video
// ---------------------------------------------------------------------------

/// The `Content-Type` of a video file by its extension.
pub open spec fn content_type_for(ext: Option<Seq<char>>) -> Seq<char> {
    match ext {
        Some(e) => if e == seq!['m', 'p', '4'] {
            seq!['v', 'i', 'd', 'e', 'o', '/', 'm', 'p', '4']
        } else if e == seq!['m', 'k', 'v'] {
            seq!['v', 'i', 'd', 'e', 'o', '/', 'x', '-', 'm', 'a', 't', 'r', 'o', 's', 'k', 'a']
        } else if e == seq!['w', 'e', 'b', 'm'] {
            seq!['v', 'i', 'd', 'e', 'o', '/', 'w', 'e', 'b', 'm']
        } else if e == seq!['m', 'o', 'v'] {
            seq!['v', 'i', 'd', 'e', 'o', '/', 'q', 'u', 'i', 'c', 'k', 't', 'i', 'm', 'e']
        } else {
            seq![
                'a', 'p', 'p', 'l', 'i', 'c', 'a', 't', 'i', 'o', 'n', '/', 'o', 'c', 't', 'e', 't',
                '-', 's', 't', 'r', 'e', 'a', 'm'
            ]
        },
        None => seq![
            'a', 'p', 'p', 'l', 'i', 'c', 'a', 't', 'i', 'o', 'n', '/', 'o', 'c', 't', 'e', 't', '-',
            's', 't', 'r', 'e', 'a', 'm'
        ],
    }
}

/// The `Content-Type` of the video file at `path` (see `content_type_for`).
pub fn content_type(path: &str) -> (r: String)
    ensures
        r@ == content_type_for(extension_of(path@)),
{
    let ext = path_extension(path);
    let v = match ext {
        Some(e) => {
            let e = chars_of(e.as_str());
            if crate::text::chars_eq(&e, &vec!['m', 'p', '4']) {
                vec!['v', 'i', 'd', 'e', 'o', '/', 'm', 'p', '4']
            } else if crate::text::chars_eq(&e, &vec!['m', 'k', 'v']) {
                vec!['v', 'i', 'd', 'e', 'o', '/', 'x', '-', 'm', 'a', 't', 'r', 'o', 's', 'k', 'a']
            } else if crate::text::chars_eq(&e, &vec!['w', 'e', 'b', 'm']) {
                vec!['v', 'i', 'd', 'e', 'o', '/', 'w', 'e', 'b', 'm']
            } else if crate::text::chars_eq(&e, &vec!['m', 'o', 'v']) {
                vec!['v', 'i', 'd', 'e', 'o', '/', 'q', 'u', 'i', 'c', 'k', 't', 'i', 'm', 'e']
            } else {
                vec![
                    'a', 'p', 'p', 'l', 'i', 'c', 'a', 't', 'i', 'o', 'n', '/', 'o', 'c', 't', 'e',
                    't', '-', 's', 't', 'r', 'e', 'a', 'm'
                ]
            }
        },
        None => vec![
            'a', 'p', 'p', 'l', 'i', 'c', 'a', 't', 'i', 'o', 'n', '/', 'o', 'c', 't', 'e', 't', '-',
            's', 't', 'r', 'e', 'a', 'm'
        ],
    };
    string_of(&v)
}

/// `attachment; filename="{name}"`.
pub open spec fn disposition_text(name: Seq<char>) -> Seq<char> {
    seq![
        'a', 't', 't', 'a', 'c', 'h', 'm', 'e', 'n', 't', ';', ' ', 'f', 'i', 'l', 'e', 'n', 'a',
        'm', 'e', '=', '"'
    ] + name + seq!['"']
}

/// The `Content-Disposition` of a video download named `name`.
pub fn content_disposition(name: &str) -> (r: String)
    ensures
        r@ == disposition_text(name@),
{
    let mut v = vec![
        'a', 't', 't', 'a', 'c', 'h', 'm', 'e', 'n', 't', ';', ' ', 'f', 'i', 'l', 'e', 'n', 'a',
        'm', 'e', '=', '"'
    ];
    let n = chars_of(name);
    push_all(&mut v, &n);
    v.push('"');
    string_of(&v)
}

/// The widget announced when a client starts downloading a video of `size` bytes.
pub fn download_widget(client_id: Snowflake, display_name: String, size: u64) -> (w: WidgetState)
    ensures
        w == (WidgetState::Download { reporter: client_id, filename: display_name, bytes_done: 0, bytes_total: size }),
{
    WidgetState::Download { reporter: client_id, filename: display_name, bytes_done: 0, bytes_total: size }
}

// ---------------------------------------------------------------------------
// Server: upload sessions
// ---------------------------------------------------------------------------

/// An HTTP error: status code and message.
pub struct HttpError {
    pub status: u16,
    pub message: String,
}

/// `"Internal error: "`.
pub open spec fn lit_internal_error() -> Seq<char> {
    seq!['I', 'n', 't', 'e', 'r', 'n', 'a', 'l', ' ', 'e', 'r', 'r', 'o', 'r', ':', ' ']
}

/// The error a request ends in when the server itself fails: 500, `Internal error: {e}`.
pub fn internal_error(e: &str) -> (r: HttpError)
    ensures
        r.status == 500,
        r.message@ == lit_internal_error() + e@,
{
    let mut m = vec!['I', 'n', 't', 'e', 'r', 'n', 'a', 'l', ' ', 'e', 'r', 'r', 'o', 'r', ':', ' '];
    assert(m@ == lit_internal_error());
    push_all(&mut m, &chars_of(e));
    HttpError { status: 500, message: string_of(&m) }
}

/// Per-upload session, kept for the duration of a chunked upload.
pub struct UploadSession {
    pub client_id: Snowflake,
    pub filename: String,
    pub part_path: String,
    pub final_path: String,
    pub bytes_received: u64,
    pub bytes_expected: u64,
    pub widget_id: Snowflake,
    /// Milliseconds on the server's monotonic clock.
    pub last_activity: u64,
}

/// `"File has no extension"`.
pub open spec fn lit_file_no_extension() -> Seq<char> {
    seq!['F', 'i', 'l', 'e', ' ', 'h', 'a', 's', ' ', 'n', 'o', ' ', 'e', 'x', 't', 'e', 'n', 's', 'i', 'o', 'n']
}

/// `"Unsupported extension: ."`.
pub open spec fn lit_unsupported() -> Seq<char> {
    seq![
        'U', 'n', 's', 'u', 'p', 'p', 'o', 'r', 't', 'e', 'd', ' ', 'e', 'x', 't', 'e', 'n', 's', 'i',
        'o', 'n', ':', ' ', '.'
    ]
}

/// `". Allowed: "`.
pub open spec fn lit_allowed() -> Seq<char> {
    seq!['.', ' ', 'A', 'l', 'l', 'o', 'w', 'e', 'd', ':', ' ']
}

/// Whether `ext` is one of `allowed`.
pub open spec fn ext_allowed(allowed: Seq<String>, ext: Seq<char>) -> bool {
    exists|i: int| 0 <= i < allowed.len() && #[trigger] allowed[i]@ == ext
}

/// Checks a lowercased upload extension against `allowed`: the extension itself when it
/// is one of them, otherwise 400 with `Unsupported extension: .{ext}. Allowed:
/// {allowed_text}` (where `allowed_text` lists the allowed extensions as the server
/// prints them).
pub fn check_allowed_extension(lower: String, allowed: &Vec<String>, allowed_text: &str) -> (r: Result<String, HttpError>)
    ensures
        ext_allowed(allowed@, lower@) ==> r == Ok::<String, HttpError>(lower),
        !ext_allowed(allowed@, lower@) ==> (r matches Err(e) && e.status == 400 && e.message@
            == lit_unsupported() + lower@ + lit_allowed() + allowed_text@),
{
    let lv = chars_of(lower.as_str());
    let mut i: usize = 0;
    while i < allowed.len()
        invariant
            i <= allowed.len(),
            lv@ == lower@,
            forall|j: int| 0 <= j < i ==> #[trigger] allowed@[j]@ != lower@,
        decreases allowed.len() - i,
    {
        let a = chars_of(allowed[i].as_str());
        if crate::text::chars_eq(&a, &lv) {
            assert(allowed@[i as int]@ == lower@);
            assert(ext_allowed(allowed@, lower@));
            return Ok(lower);
        }
        i = i + 1;
    }
    let mut m = vec![
        'U', 'n', 's', 'u', 'p', 'p', 'o', 'r', 't', 'e', 'd', ' ', 'e', 'x', 't', 'e', 'n', 's', 'i',
        'o', 'n', ':', ' ', '.'
    ];
    push_all(&mut m, &lv);
    let al = vec!['.', ' ', 'A', 'l', 'l', 'o', 'w', 'e', 'd', ':', ' '];
    push_all(&mut m, &al);
    let at = chars_of(allowed_text);
    push_all(&mut m, &at);
    Err(HttpError { status: 400, message: string_of(&m) })
}

/// The lowercased extension of an uploaded file name, if it is one of `allowed`: 400 with
/// `File has no extension`, or the error of `check_allowed_extension` for the extension
/// as `str::to_lowercase` gives it.
pub fn validate_upload_extension(filename: &str, allowed: &Vec<String>, allowed_text: &str) -> (r: Result<String, HttpError>)
    ensures
        match extension_of(filename@) {
            None => r matches Err(e) && e.status == 400 && e.message@ == lit_file_no_extension(),
            Some(ext) => {
                let lower = crate::media::unicode_lowercase(ext);
                if ext_allowed(allowed@, lower) {
                    r matches Ok(x) && x@ == lower
                } else {
                    r matches Err(e) && e.status == 400 && e.message@ == lit_unsupported() + lower
                        + lit_allowed() + allowed_text@
                }
            },
        },
{
    let ext = match path_extension(filename) {
        Some(e) => e,
        None => {
            let m = vec!['F', 'i', 'l', 'e', ' ', 'h', 'a', 's', ' ', 'n', 'o', ' ', 'e', 'x', 't', 'e', 'n', 's', 'i', 'o', 'n'];
            return Err(HttpError { status: 400, message: string_of(&m) });
        },
    };
    let lower = crate::media::lowercase(ext.as_str());
    check_allowed_extension(lower, allowed, allowed_text)
}

/// The `.part` path an upload is written to: the final path with `{ext}.part` as extension.
pub fn part_path_for(final_path: &str, ext: &str) -> (r: String)
    ensures
        r@ == with_extension(final_path@, ext@ + seq!['.', 'p', 'a', 'r', 't']),
{
    let mut e = chars_of(ext);
    let part = vec!['.', 'p', 'a', 'r', 't'];
    push_all(&mut e, &part);
    let es = string_of(&e);
    path_with_extension(final_path, es.as_str())
}

/// The widget announced when an upload starts.
pub fn upload_widget(uploader: Snowflake, filename: String, target: Snowflake, total_size: u64) -> (w: WidgetState)
    ensures
        w == (WidgetState::Upload { uploader, filename, target, bytes_done: 0, bytes_total: total_size }),
{
    WidgetState::Upload { uploader, filename, target, bytes_done: 0, bytes_total: total_size }
}

/// What a chunk upload needs from its session.
pub struct ChunkTarget {
    pub part_path: String,
    pub filename: String,
    pub widget_id: Snowflake,
    pub bytes_expected: u64,
}

/// `"Upload session not found"`.
pub open spec fn lit_session_not_found() -> Seq<char> {
    seq![
        'U', 'p', 'l', 'o', 'a', 'd', ' ', 's', 'e', 's', 's', 'i', 'o', 'n', ' ', 'n', 'o', 't', ' ',
        'f', 'o', 'u', 'n', 'd'
    ]
}

/// `"Upload belongs to a different client"`.
pub open spec fn lit_other_client() -> Seq<char> {
    seq![
        'U', 'p', 'l', 'o', 'a', 'd', ' ', 'b', 'e', 'l', 'o', 'n', 'g', 's', ' ', 't', 'o', ' ', 'a',
        ' ', 'd', 'i', 'f', 'f', 'e', 'r', 'e', 'n', 't', ' ', 'c', 'l', 'i', 'e', 'n', 't'
    ]
}

/// `"Upload session disappeared mid-chunk"`.
pub open spec fn lit_session_gone() -> Seq<char> {
    seq![
        'U', 'p', 'l', 'o', 'a', 'd', ' ', 's', 'e', 's', 's', 'i', 'o', 'n', ' ', 'd', 'i', 's', 'a',
        'p', 'p', 'e', 'a', 'r', 'e', 'd', ' ', 'm', 'i', 'd', '-', 'c', 'h', 'u', 'n', 'k'
    ]
}

fn not_found() -> (e: HttpError)
    ensures
        e.status == 404 && e.message@ == lit_session_not_found(),
{
    let m = vec![
        'U', 'p', 'l', 'o', 'a', 'd', ' ', 's', 'e', 's', 's', 'i', 'o', 'n', ' ', 'n', 'o', 't', ' ',
        'f', 'o', 'u', 'n', 'd'
    ];
    HttpError { status: 404, message: string_of(&m) }
}

fn other_client() -> (e: HttpError)
    ensures
        e.status == 403 && e.message@ == lit_other_client(),
{
    let m = vec![
        'U', 'p', 'l', 'o', 'a', 'd', ' ', 'b', 'e', 'l', 'o', 'n', 'g', 's', ' ', 't', 'o', ' ', 'a',
        ' ', 'd', 'i', 'f', 'f', 'e', 'r', 'e', 'n', 't', ' ', 'c', 'l', 'i', 'e', 'n', 't'
    ];
    HttpError { status: 403, message: string_of(&m) }
}

/// Idle time after which an upload session is dropped: 30 minutes.
pub const UPLOAD_TTL_MS: u64 = 30 * 60 * 1000;

/// The upload sessions in progress, keyed by upload id.
pub struct UploadSessions {
    sessions: HashMap<i64, UploadSession>,
}

impl UploadSessions {
    /// The session of `upload`, if any.
    pub closed spec fn session(&self, upload: Snowflake) -> Option<UploadSession> {
        if self.sessions@.contains_key(upload.0) {
            Some(self.sessions@[upload.0])
        } else {
            None
        }
    }

    /// No sessions.
    pub fn new() -> (r: UploadSessions)
        ensures
            forall|u: Snowflake| #[trigger] r.session(u) is None,
    {
        UploadSessions { sessions: HashMap::new() }
    }

    /// Opens (or replaces) the session of `upload`.
    pub fn insert(&mut self, upload: Snowflake, session: UploadSession)
        ensures
            final(self).session(upload) == Some(session),
            forall|u: Snowflake| u != upload ==> #[trigger] final(self).session(u) == old(self).session(u),
    {
        self.sessions.insert(upload.0, session);
    }

    /// What a chunk of `upload` sent by `client` is written to: 404 when there is no such
    /// session, 403 when it belongs to another client.
    pub fn chunk_target(&self, upload: Snowflake, client: Snowflake) -> (r: Result<ChunkTarget, HttpError>)
        ensures
            match self.session(upload) {
                None => r matches Err(e) && e.status == 404 && e.message@ == lit_session_not_found(),
                Some(s) => if s.client_id != client {
                    r matches Err(e) && e.status == 403 && e.message@ == lit_other_client()
                } else {
                    r matches Ok(t) && t.part_path@ == s.part_path@ && t.filename@ == s.filename@
                        && t.widget_id == s.widget_id && t.bytes_expected == s.bytes_expected
                },
            },
    {
        match self.sessions.get(&upload.0) {
            None => Err(not_found()),
            Some(s) => {
                if s.client_id != client {
                    Err(other_client())
                } else {
                    Ok(
                        ChunkTarget {
                            part_path: s.part_path.clone(),
                            filename: s.filename.clone(),
                            widget_id: s.widget_id,
                            bytes_expected: s.bytes_expected,
                        },
                    )
                }
            },
        }
    }

    /// The bytes received so far for `upload`, if it has a session.
    pub fn bytes_received(&self, upload: Snowflake) -> (r: Option<u64>)
        ensures
            r == match self.session(upload) {
                Some(s) => Some(s.bytes_received),
                None => None::<u64>,
            },
    {
        match self.sessions.get(&upload.0) {
            Some(s) => Some(s.bytes_received),
            None => None,
        }
    }

    /// Counts `chunk_bytes` more bytes received for `upload` at time `now`: the new total,
    /// or 404 when the session is gone.
    pub fn record_chunk(&mut self, upload: Snowflake, chunk_bytes: u64, now: u64) -> (r: Result<u64, HttpError>)
        requires
            old(self).session(upload) matches Some(s) ==> s.bytes_received + chunk_bytes <= u64::MAX,
        ensures
            forall|u: Snowflake| u != upload ==> #[trigger] final(self).session(u) == old(self).session(u),
            match old(self).session(upload) {
                None => {
                    &&& r matches Err(e) && e.status == 404 && e.message@ == lit_session_gone()
                    &&& final(self).session(upload) is None
                },
                Some(s) => {
                    &&& r == Ok::<u64, HttpError>((s.bytes_received + chunk_bytes) as u64)
                    &&& final(self).session(upload) == Some(UploadSession {
                        bytes_received: (s.bytes_received + chunk_bytes) as u64,
                        last_activity: now,
                        ..s
                    })
                },
            },
    {
        match self.sessions.remove(&upload.0) {
            None => {
                let m = vec![
                    'U', 'p', 'l', 'o', 'a', 'd', ' ', 's', 'e', 's', 's', 'i', 'o', 'n', ' ', 'd', 'i',
                    's', 'a', 'p', 'p', 'e', 'a', 'r', 'e', 'd', ' ', 'm', 'i', 'd', '-', 'c', 'h', 'u',
                    'n', 'k'
                ];
                Err(HttpError { status: 404, message: string_of(&m) })
            },
            Some(s) => {
                let total = s.bytes_received + chunk_bytes;
                let updated = UploadSession { bytes_received: total, last_activity: now, ..s };
                self.sessions.insert(upload.0, updated);
                Ok(total)
            },
        }
    }

    /// Closes the session of `upload` for `client`, handing it back: 404 when there is no
    /// such session, 403 (and the session stays) when it belongs to another client.
    pub fn take_for_finalize(&mut self, upload: Snowflake, client: Snowflake) -> (r: Result<UploadSession, HttpError>)
        ensures
            forall|u: Snowflake| u != upload ==> #[trigger] final(self).session(u) == old(self).session(u),
            match old(self).session(upload) {
                None => r matches Err(e) && e.status == 404 && e.message@ == lit_session_not_found()
                    && final(self).session(upload) is None,
                Some(s) => if s.client_id != client {
                    r matches Err(e) && e.status == 403 && e.message@ == lit_other_client()
                        && final(self).session(upload) == Some(s)
                } else {
                    r == Ok::<UploadSession, HttpError>(s) && final(self).session(upload) is None
                },
            },
    {
        let owner = match self.sessions.get(&upload.0) {
            None => {
                return Err(not_found());
            },
            Some(s) => s.client_id,
        };
        if owner != client {
            return Err(other_client());
        }
        match self.sessions.remove(&upload.0) {
            Some(s) => Ok(s),
            None => Err(not_found()),
        }
    }

    /// Removes the sessions idle for more than 30 minutes at time `now` (the clock does not
    /// go backwards; an activity time after `now` counts as no idle time), handing them back
    /// with their ids, each once.
    pub fn reap(&mut self, now: u64) -> (stale: Vec<(Snowflake, UploadSession)>)
        ensures
            forall|u: Snowflake| #[trigger] final(self).session(u) == match old(self).session(u) {
                Some(s) => if is_stale(s, now) {
                    None
                } else {
                    Some(s)
                },
                None => None,
            },
            distinct_keys(stale@),
            forall|i: int| 0 <= i < stale@.len() ==> old(self).session(#[trigger] stale@[i].0) == Some(stale@[i].1) && is_stale(stale@[i].1, now),
            forall|u: Snowflake| #[trigger] old(self).session(u) matches Some(s) && is_stale(s, now) ==> exists|i: int| 0 <= i < stale@.len() && stale@[i].0 == u,
    {
        let ghost m0 = self.sessions@;
        let ids = self.stale_ids(now);
        assert forall|k: i64| #[trigger] m0.contains_key(k) && is_stale(m0[k], now) implies ids@.contains(k) by {
            assert(self.sessions@.contains_key(k));
        }
        assert forall|t: int| 0 <= t < ids.len() implies #[trigger] m0.contains_key(ids@[t]) && is_stale(m0[ids@[t]], now) by {
            assert(self.sessions@.contains_key(ids@[t]));
        }
        let mut stale: Vec<(Snowflake, UploadSession)> = Vec::new();
        let mut j: usize = 0;
        while j < ids.len()
            invariant
                j <= ids.len(),
                ids@.no_duplicates(),
                forall|t: int| 0 <= t < ids.len() ==> #[trigger] m0.contains_key(ids@[t]) && is_stale(m0[ids@[t]], now),
                forall|k: i64| #[trigger] self.sessions@.contains_key(k) == (m0.contains_key(k) && !ids@.take(j as int).contains(k)),
                forall|k: i64| #[trigger] self.sessions@.contains_key(k) ==> self.sessions@[k] == m0[k],
                stale@.len() == j,
                forall|t: int| 0 <= t < j ==> #[trigger] stale@[t] == (Snowflake(ids@[t]), m0[ids@[t]]),
            decreases ids.len() - j,
        {
            let id = ids[j];
            assert(!ids@.take(j as int).contains(id)) by {
                if ids@.take(j as int).contains(id) {
                    let t = choose|t: int| 0 <= t < j && ids@.take(j as int)[t] == id;
                    assert(ids@[t] == ids@[j as int]);
                }
            }
            assert(m0.contains_key(ids@[j as int]));
            let ghost before = self.sessions@;
            assert(ids@.take(j + 1) == ids@.take(j as int).push(id));
            proof {
                let t1 = ids@.take(j + 1);
                let t0 = ids@.take(j as int);
                assert forall|k: i64| #[trigger] t1.contains(k) == (t0.contains(k) || k == id) by {
                    if t1.contains(k) && k != id {
                        let t = choose|t: int| 0 <= t < t1.len() && t1[t] == k;
                        assert(t0[t] == k);
                    }
                    if t0.contains(k) {
                        let t = choose|t: int| 0 <= t < t0.len() && t0[t] == k;
                        assert(t1[t] == k);
                    }
                    if k == id {
                        assert(t1[j as int] == k);
                    }
                }
            }
            match self.sessions.remove(&id) {
                Some(s) => {
                    stale.push((Snowflake(id), s));
                },
                None => {},
            }
            assert(self.sessions@ == before.remove(id));
            j = j + 1;
        }
        proof {
            assert(ids@.take(ids.len() as int) == ids@);
            assert(distinct_keys(stale@)) by {
                assert forall|a: int, b: int| 0 <= a < b < stale@.len() implies #[trigger] stale@[a].0 != #[trigger] stale@[b].0 by {
                    assert(ids@[a] != ids@[b]);
                }
            }
            assert forall|u: Snowflake| #[trigger] old(self).session(u) matches Some(s) && is_stale(s, now) implies exists|i: int| 0 <= i < stale@.len() && stale@[i].0 == u by {
                assert(ids@.contains(u.0));
                let i = choose|i: int| 0 <= i < ids.len() && ids@[i] == u.0;
                assert(stale@[i].0 == u);
            }
        }
        stale
    }

    /// The ids of the sessions stale at time `now`, each once.
    fn stale_ids(&self, now: u64) -> (ids: Vec<i64>)
        ensures
            ids@.no_duplicates(),
            forall|t: int| 0 <= t < ids.len() ==> #[trigger] self.sessions@.contains_key(ids@[t]) && is_stale(self.sessions@[ids@[t]], now),
            forall|k: i64| #[trigger] self.sessions@.contains_key(k) && is_stale(self.sessions@[k], now) ==> ids@.contains(k),
    {
        let all = self.upload_ids();
        let mut ids: Vec<i64> = Vec::new();
        let mut j: usize = 0;
        while j < all.len()
            invariant
                j <= all.len(),
                all@.no_duplicates(),
                forall|k: i64| all@.contains(k) <==> #[trigger] self.sessions@.contains_key(k),
                ids@.no_duplicates(),
                forall|t: int| 0 <= t < ids.len() ==> #[trigger] self.sessions@.contains_key(ids@[t]) && is_stale(self.sessions@[ids@[t]], now),
                forall|t: int| 0 <= t < ids.len() ==> #[trigger] all@.take(j as int).contains(ids@[t]),
                forall|t: int| 0 <= t < j && is_stale(self.sessions@[all@[t]], now) ==> #[trigger] ids@.contains(all@[t]),
            decreases all.len() - j,
        {
            let k = all[j];
            assert(self.sessions@.contains_key(k)) by {
                assert(all@.contains(k));
            }
            assert(all@.take(j + 1) == all@.take(j as int).push(k));
            proof {
                let a0 = all@.take(j as int);
                let a1 = all@.take(j + 1);
                assert forall|t: int| 0 <= t < ids.len() implies #[trigger] a1.contains(ids@[t]) by {
                    assert(a0.contains(ids@[t]));
                    let u = choose|u: int| 0 <= u < a0.len() && a0[u] == ids@[t];
                    assert(a1[u] == ids@[t]);
                }
            }
            match self.sessions.get(&k) {
                Some(s) => {
                    if now >= s.last_activity && now - s.last_activity > UPLOAD_TTL_MS {
                        assert(!ids@.contains(k)) by {
                            if ids@.contains(k) {
                                let t = choose|t: int| 0 <= t < ids.len() && ids@[t] == k;
                                assert(all@.take(j as int).contains(ids@[t]));
                                let u = choose|u: int| 0 <= u < j && all@.take(j as int)[u] == k;
                                assert(all@[u] == all@[j as int]);
                            }
                        }
                        let ghost before = ids@;
                        ids.push(k);
                        assert forall|t: int| 0 <= t < j + 1 && is_stale(self.sessions@[all@[t]], now) implies #[trigger] ids@.contains(all@[t]) by {
                            if t == j {
                                assert(ids@[ids.len() - 1] == k);
                            } else {
                                assert(before.contains(all@[t]));
                                let v = choose|v: int| 0 <= v < before.len() && before[v] == all@[t];
                                assert(ids@[v] == all@[t]);
                            }
                        }
                        assert forall|t: int| 0 <= t < ids.len() implies #[trigger] all@.take(j + 1).contains(ids@[t]) by {
                            if t == ids.len() - 1 {
                                assert(all@.take(j + 1)[j as int] == k);
                            } else {
                                assert(ids@[t] == before[t]);
                            }
                        }
                    }
                },
                None => {},
            }
            j = j + 1;
        }
        proof {
            assert forall|k: i64| #[trigger] self.sessions@.contains_key(k) && is_stale(self.sessions@[k], now) implies ids@.contains(k) by {
                assert(all@.contains(k));
                let t = choose|t: int| 0 <= t < all.len() && all@[t] == k;
                assert(ids@.contains(all@[t]));
            }
        }
        ids
    }

    /// The upload ids of all sessions, each once.
    fn upload_ids(&self) -> (r: Vec<i64>)
        ensures
            r@.no_duplicates(),
            forall|k: i64| r@.contains(k) <==> #[trigger] self.sessions@.contains_key(k),
    {
        let mut r: Vec<i64> = Vec::new();
        let ghost ks = IteratorSpec::remaining(&vstd::std_specs::hash::spec_keys_iter(&self.sessions));
        for k in it: self.sessions.keys()
            invariant
                it.seq() == ks,
                r@ == ks.take(it.index()).unref(),
        {
            r.push(*k);
            assert(ks.take(it.index() + 1).unref() =~= r@);
        }
        proof {
            assert(r@.len() == ks.len());
            assert(ks.take(ks.len() as int) == ks);
            assert(r@ == ks.unref());
            assert(ks.unref().to_set() == self.sessions@.dom());
            assert forall|k: i64| r@.contains(k) <==> #[trigger] self.sessions@.contains_key(k) by {
                assert(r@.to_set().contains(k) == r@.contains(k));
            }
            assert(r@.no_duplicates()) by {
                assert forall|a: int, b: int| 0 <= a < r@.len() && 0 <= b < r@.len() && a != b implies r@[a] != r@[b] by {
                    assert(ks[a] != ks[b]);
                }
            }
        }
        r
    }
}

/// No two pairs of `s` share a key.
pub open spec fn distinct_keys<T>(s: Seq<(Snowflake, T)>) -> bool {
    forall|i: int, j: int| 0 <= i < j < s.len() ==> #[trigger] s[i].0 != #[trigger] s[j].0
}

/// A session is stale when it has been idle for more than 30 minutes at time `now`.
pub open spec fn is_stale(s: UploadSession, now: u64) -> bool {
    now >= s.last_activity && now - s.last_activity > UPLOAD_TTL_MS
}

/// The widget state an upload ends with when its session is finalized: the received byte
/// count as both done and total; the target is the uploading client's id, not the
/// upload's.
pub fn finalized_upload_widget(session: &UploadSession, client: Snowflake) -> (w: WidgetState)
    ensures
        w matches WidgetState::Upload { uploader, filename, target, bytes_done, bytes_total } && uploader == client
            && filename@ == session.filename@ && target == client && bytes_done == session.bytes_received
            && bytes_total == session.bytes_received,
{
    WidgetState::Upload {
        uploader: client,
        filename: session.filename.clone(),
        target: client,
        bytes_done: session.bytes_received,
        bytes_total: session.bytes_received,
    }
}

/// The widget state of an upload after a chunk: the new total done, out of the larger of
/// the expected size and the total.
pub fn chunk_widget(client: Snowflake, filename: String, upload: Snowflake, new_total: u64, expected: u64) -> (w: WidgetState)
    ensures
        w == (WidgetState::Upload {
            uploader: client,
            filename,
            target: upload,
            bytes_done: new_total,
            bytes_total: if expected >= new_total {
                expected
            } else {
                new_total
            },
        }),
{
    WidgetState::Upload {
        uploader: client,
        filename,
        target: upload,
        bytes_done: new_total,
        bytes_total: if expected >= new_total {
            expected
        } else {
            new_total
        },
    }
}

/// The widget state an abandoned upload is closed with by the reaper, reported by the
/// system user `system`: received bytes out of the larger of expected and received.
pub fn reaped_upload_widget(session: &UploadSession, upload: Snowflake, system: Snowflake) -> (w: WidgetState)
    ensures
        w matches WidgetState::Upload { uploader, filename, target, bytes_done, bytes_total } && uploader == system
            && filename@ == session.filename@ && target == upload && bytes_done == session.bytes_received
            && bytes_total == (if session.bytes_expected >= session.bytes_received {
                session.bytes_expected
            } else {
                session.bytes_received
            }),
{
    WidgetState::Upload {
        uploader: system,
        filename: session.filename.clone(),
        target: upload,
        bytes_done: session.bytes_received,
        bytes_total: if session.bytes_expected >= session.bytes_received {
            session.bytes_expected
        } else {
            session.bytes_received
        },
    }
}

/// The reply to a finalized upload.
pub struct FinalizeResponse {
    pub video_id: Snowflake,
    pub filename: String,
    pub size_bytes: u64,
}

/// The reply to an upload init.
pub struct UploadInitResponse {
    pub upload_id: Snowflake,
}

} // verus!
