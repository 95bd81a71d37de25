//! Client and server configuration values, and the server URL forms derived from them.

use vstd::prelude::*;

use crate::text::{
    chars_of, concat, has_prefix, push_all, replace, replace_all, starts_with, string_of, trim,
    trim_end_char, trim_end_matches_char, trim_ws,
};

verus! {

// ---------------------------------------------------------------------------
// Literal prefixes
// ---------------------------------------------------------------------------

/// `"http://"`.
pub open spec fn lit_http() -> Seq<char> {
    seq!['h', 't', 't', 'p', ':', '/', '/']
}

/// `"https://"`.
pub open spec fn lit_https() -> Seq<char> {
    seq!['h', 't', 't', 'p', 's', ':', '/', '/']
}

/// `"ws://"`.
pub open spec fn lit_ws() -> Seq<char> {
    seq!['w', 's', ':', '/', '/']
}

/// `"wss://"`.
pub open spec fn lit_wss() -> Seq<char> {
    seq!['w', 's', 's', ':', '/', '/']
}

/// `"/ws"`.
pub open spec fn lit_ws_path() -> Seq<char> {
    seq!['/', 'w', 's']
}

fn http_chars() -> (r: Vec<char>)
    ensures
        r@ == lit_http(),
{
    vec!['h', 't', 't', 'p', ':', '/', '/']
}

fn https_chars() -> (r: Vec<char>)
    ensures
        r@ == lit_https(),
{
    vec!['h', 't', 't', 'p', 's', ':', '/', '/']
}

fn ws_chars() -> (r: Vec<char>)
    ensures
        r@ == lit_ws(),
{
    vec!['w', 's', ':', '/', '/']
}

fn wss_chars() -> (r: Vec<char>)
    ensures
        r@ == lit_wss(),
{
    vec!['w', 's', 's', ':', '/', '/']
}

fn ws_path_chars() -> (r: Vec<char>)
    ensures
        r@ == lit_ws_path(),
{
    vec!['/', 'w', 's']
}

// ---------------------------------------------------------------------------
// Server URL forms
// ---------------------------------------------------------------------------

/// The websocket endpoint for a server base URL: `ws://` and `wss://` URLs are kept as
/// they are; otherwise trailing slashes are dropped, `https://` becomes `wss://` and
/// `http://` becomes `ws://` (every occurrence, as `str::replace` does), a bare host
/// gets `ws://` in front, and `/ws` is appended.
pub open spec fn ws_url(base: Seq<char>) -> Seq<char> {
    if has_prefix(base, lit_ws()) || has_prefix(base, lit_wss()) {
        base
    } else {
        let b = trim_end_char(base, '/');
        if has_prefix(base, lit_https()) {
            replace_all(b, lit_https(), lit_wss()) + lit_ws_path()
        } else if has_prefix(base, lit_http()) {
            replace_all(b, lit_http(), lit_ws()) + lit_ws_path()
        } else {
            lit_ws() + b + lit_ws_path()
        }
    }
}

/// The websocket URL for a server base URL (see `ws_url`).
pub fn format_url(base_url: String) -> (r: String)
    ensures
        r@ == ws_url(base_url@),
{
    let base = chars_of(base_url.as_str());
    let ws = ws_chars();
    let wss = wss_chars();
    if starts_with(&base, &ws) || starts_with(&base, &wss) {
        return base_url;
    }
    let trimmed = trim_end_matches_char(&base, '/');
    let https = https_chars();
    let http = http_chars();
    let path = ws_path_chars();
    let out = if starts_with(&base, &https) {
        let r = replace(&trimmed, &https, &wss);
        concat(&r, &path)
    } else if starts_with(&base, &http) {
        let r = replace(&trimmed, &http, &ws);
        concat(&r, &path)
    } else {
        let mut r = ws;
        push_all(&mut r, &trimmed);
        push_all(&mut r, &path);
        r
    };
    string_of(&out)
}

/// A websocket URL is its own websocket URL: turning a server address into its websocket
/// URL twice gives what turning it once gives. This holds for every address except an
/// `http://` or `https://` address whose scheme is eaten by dropping trailing slashes
/// (such as `https://` alone).
pub proof fn lemma_ws_url_idempotent(base: Seq<char>)
    requires
        has_prefix(base, lit_https()) ==> has_prefix(trim_end_char(base, '/'), lit_https()),
        has_prefix(base, lit_http()) ==> has_prefix(trim_end_char(base, '/'), lit_http()),
    ensures
        ws_url(ws_url(base)) == ws_url(base),
{
    let r = ws_url(base);
    if has_prefix(base, lit_ws()) || has_prefix(base, lit_wss()) {
    } else {
        let b = trim_end_char(base, '/');
        if has_prefix(base, lit_https()) {
            let rest = replace_all(b.skip(8), lit_https(), lit_wss());
            assert(replace_all(b, lit_https(), lit_wss()) == lit_wss() + rest);
            assert(r == lit_wss() + rest + lit_ws_path());
            assert(r.take(6) =~= lit_wss());
        } else if has_prefix(base, lit_http()) {
            let rest = replace_all(b.skip(7), lit_http(), lit_ws());
            assert(replace_all(b, lit_http(), lit_ws()) == lit_ws() + rest);
            assert(r == lit_ws() + rest + lit_ws_path());
            assert(r.take(5) =~= lit_ws());
        } else {
            assert(r.take(5) =~= lit_ws());
        }
    }
}

/// A server URL with `http://` in front unless it already starts with `http://` or `https://`.
pub open spec fn with_http_scheme(raw: Seq<char>) -> Seq<char> {
    if has_prefix(raw, lit_http()) || has_prefix(raw, lit_https()) {
        raw
    } else {
        lit_http() + raw
    }
}

/// Exec form of `with_http_scheme` on characters.
pub fn ensure_http_scheme_chars(raw: &Vec<char>) -> (r: Vec<char>)
    ensures
        r@ == with_http_scheme(raw@),
{
    let http = http_chars();
    let https = https_chars();
    if starts_with(raw, &http) || starts_with(raw, &https) {
        raw.clone()
    } else {
        concat(&http, raw)
    }
}

/// The server URL used for HTTP requests: `http://` is put in front unless it already
/// starts with `http://` or `https://`.
pub fn ensure_http_scheme(raw: &str) -> (r: String)
    ensures
        r@ == with_http_scheme(raw@),
{
    let v = chars_of(raw);
    let r = ensure_http_scheme_chars(&v);
    string_of(&r)
}

// ---------------------------------------------------------------------------
// URL parsing (the `url` crate)
// ---------------------------------------------------------------------------

/// What `url::Url::parse` makes of `input`: the URL's serialization, or the text of the
/// parse error.
pub uninterp spec fn url_parse(input: Seq<char>) -> Result<Seq<char>, Seq<char>>;

/// Calls `url::Url::parse` and hands back the parsed URL's serialization
/// (`String::from(Url)`) or the error's `Display` text. The contract only names the
/// result: `url_parse` applied to the input; what the WHATWG parser does is not stated.
#[verifier::external_body]
pub(crate) fn parse_url(input: &str) -> (r: Result<String, String>)
    ensures
        match r {
            Ok(s) => url_parse(input@) == Ok::<Seq<char>, Seq<char>>(s@),
            Err(e) => url_parse(input@) == Err::<Seq<char>, Seq<char>>(e@),
        },
{
    url::Url::parse(input).map(String::from).map_err(|e| e.to_string())
}

// ---------------------------------------------------------------------------
// Client configuration
// ---------------------------------------------------------------------------

/// The client's persisted settings.
pub struct Config {
    pub mpv_binary_path: String,
    pub videos_directory: String,
    pub username: String,
    pub server_url: String,
}

/// `"Invalid Server URL: "`.
pub open spec fn lit_invalid_url() -> Seq<char> {
    seq![
        'I', 'n', 'v', 'a', 'l', 'i', 'd', ' ', 'S', 'e', 'r', 'v', 'e', 'r', ' ', 'U', 'R', 'L',
        ':', ' '
    ]
}

/// The server URL a configuration is given after loading, or the error text: the raw URL
/// is trimmed, given `http://` when it has no HTTP scheme, parsed, and its serialization
/// kept without trailing slashes.
pub open spec fn sanitized_server_url(raw: Seq<char>) -> Result<Seq<char>, Seq<char>> {
    match url_parse(with_http_scheme(trim(raw))) {
        Ok(s) => Ok(trim_end_char(s, '/')),
        Err(e) => Err(lit_invalid_url() + e),
    }
}

impl Config {
    /// The settings written on first start.
    pub fn default() -> (c: Config)
        ensures
            c.mpv_binary_path@ == seq!['m', 'p', 'v'],
            c.videos_directory@ == Seq::<char>::empty(),
            c.username@ == seq!['G', 'u', 'e', 's', 't'],
            c.server_url@ == seq![
                'h', 't', 't', 'p', ':', '/', '/', 'l', 'o', 'c', 'a', 'l', 'h', 'o', 's', 't', ':',
                '8', '0', '8', '0'
            ],
    {
        let mpv = vec!['m', 'p', 'v'];
        let guest = vec!['G', 'u', 'e', 's', 't'];
        let url = vec![
            'h', 't', 't', 'p', ':', '/', '/', 'l', 'o', 'c', 'a', 'l', 'h', 'o', 's', 't', ':',
            '8', '0', '8', '0'
        ];
        let empty: Vec<char> = Vec::new();
        Config {
            mpv_binary_path: string_of(&mpv),
            videos_directory: string_of(&empty),
            username: string_of(&guest),
            server_url: string_of(&url),
        }
    }

    /// The text handed to the URL parser for a raw server URL: trimmed, with `http://` in
    /// front when it has no HTTP scheme.
    pub fn server_url_candidate(raw: &str) -> (r: String)
        ensures
            r@ == with_http_scheme(trim(raw@)),
    {
        let chars = chars_of(raw);
        let trimmed = trim_ws(&chars);
        let with_scheme = ensure_http_scheme_chars(&trimmed);
        string_of(&with_scheme)
    }

    /// Finishes cleaning a configuration, given what the URL parser made of its server
    /// URL's candidate: a parsed URL's serialization is kept without trailing slashes
    /// and the username is trimmed; a parse error gives `"Invalid Server URL: "` and the
    /// error's text, and nothing is changed.
    pub fn apply_parsed_server_url(&mut self, parsed: Result<String, String>) -> (r: Result<(), String>)
        ensures
            match parsed {
                Ok(url) => {
                    &&& r is Ok
                    &&& final(self).server_url@ == trim_end_char(url@, '/')
                    &&& final(self).username@ == trim(old(self).username@)
                    &&& final(self).mpv_binary_path == old(self).mpv_binary_path
                    &&& final(self).videos_directory == old(self).videos_directory
                },
                Err(e) => {
                    &&& r matches Err(msg) && msg@ == lit_invalid_url() + e@
                    &&& *final(self) == *old(self)
                },
            },
    {
        match parsed {
            Ok(serialized) => {
                let s = chars_of(serialized.as_str());
                let cleaned = trim_end_matches_char(&s, '/');
                self.server_url = string_of(&cleaned);
                let name = chars_of(self.username.as_str());
                let name_trimmed = trim_ws(&name);
                self.username = string_of(&name_trimmed);
                Ok(())
            },
            Err(e) => {
                let mut msg = vec![
                    'I', 'n', 'v', 'a', 'l', 'i', 'd', ' ', 'S', 'e', 'r', 'v', 'e', 'r', ' ', 'U',
                    'R', 'L', ':', ' '
                ];
                let ev = chars_of(e.as_str());
                push_all(&mut msg, &ev);
                Err(string_of(&msg))
            },
        }
    }

    /// Cleans a configuration after loading: normalizes the server URL (see
    /// `sanitized_server_url`) and trims the username. When the URL does not parse, the
    /// error text is returned and nothing is changed.
    pub fn sanitize_and_validate(&mut self) -> (r: Result<(), String>)
        ensures
            match sanitized_server_url(old(self).server_url@) {
                Ok(url) => {
                    &&& r is Ok
                    &&& final(self).server_url@ == url
                    &&& final(self).username@ == trim(old(self).username@)
                    &&& final(self).mpv_binary_path == old(self).mpv_binary_path
                    &&& final(self).videos_directory == old(self).videos_directory
                },
                Err(e) => {
                    &&& r matches Err(msg) && msg@ == e
                    &&& *final(self) == *old(self)
                },
            },
    {
        let candidate = Config::server_url_candidate(self.server_url.as_str());
        let parsed = parse_url(candidate.as_str());
        self.apply_parsed_server_url(parsed)
    }
}

} // verus!
