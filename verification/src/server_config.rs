//! The server's settings and their defaults.

use vstd::prelude::*;

use crate::text::{chars_eq, chars_of, string_of};

verus! {

// ---------------------------------------------------------------------------
// Server configuration
// ---------------------------------------------------------------------------

/// The server's settings (`config.yaml`).
pub struct Config {
    pub host: String,
    pub port: u16,
    pub max_file_size_mb: u64,
    pub video_storage_dir: String,
}

/// Default listen host: `127.0.0.1`.
pub fn default_host() -> (s: String)
    ensures
        s@ == seq!['1', '2', '7', '.', '0', '.', '0', '.', '1'],
{
    let v = vec!['1', '2', '7', '.', '0', '.', '0', '.', '1'];
    string_of(&v)
}

/// Default listen port: 3000.
pub fn default_port() -> (p: u16)
    ensures
        p == 3000,
{
    3000
}

/// Default upload size limit, in megabytes: 2048 (2 GB).
pub fn default_max_file_size() -> (n: u64)
    ensures
        n == 2048,
{
    2048
}

/// Default video directory: `./videos`.
pub fn default_video_dir() -> (s: String)
    ensures
        s@ == seq!['.', '/', 'v', 'i', 'd', 'e', 'o', 's'],
{
    let v = vec!['.', '/', 'v', 'i', 'd', 'e', 'o', 's'];
    string_of(&v)
}

impl Config {
    /// The settings used when `config.yaml` is missing or does not parse; also the value
    /// of each field missing from the file.
    pub fn default() -> (c: Config)
        ensures
            c.host@ == seq!['1', '2', '7', '.', '0', '.', '0', '.', '1'],
            c.port == 3000,
            c.max_file_size_mb == 2048,
            c.video_storage_dir@ == seq!['.', '/', 'v', 'i', 'd', 'e', 'o', 's'],
    {
        Config {
            host: default_host(),
            port: default_port(),
            max_file_size_mb: default_max_file_size(),
            video_storage_dir: default_video_dir(),
        }
    }
}

// ---------------------------------------------------------------------------
// The access key
// ---------------------------------------------------------------------------

/// The text the `X-Access-Key` header offers: nothing when the header is missing, and the
/// empty text when its value is not visible ASCII.
pub open spec fn offered_key(header: Option<Option<String>>) -> Option<Seq<char>> {
    match header {
        None => None,
        Some(None) => Some(Seq::<char>::empty()),
        Some(Some(v)) => Some(v@),
    }
}

/// Admits a request to the API: without an `X-Access-Key` header it is refused with 401,
/// with a key other than the server's password with 403.
pub fn check_access_key(header: &Option<Option<String>>, password: &str) -> (r: Result<(), u16>)
    ensures
        match offered_key(*header) {
            None => r == Err::<(), u16>(401),
            Some(k) => if k == password@ {
                r is Ok
            } else {
                r == Err::<(), u16>(403)
            },
        },
{
    let offered = match header {
        None => {
            return Err(401);
        },
        Some(None) => Vec::new(),
        Some(Some(v)) => chars_of(v.as_str()),
    };
    if chars_eq(&offered, &chars_of(password)) {
        Ok(())
    } else {
        Err(403)
    }
}

} // verus!
