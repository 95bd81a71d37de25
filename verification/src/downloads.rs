//! Local file manager for downloaded videos: which video ids are on the device or being
//! downloaded, the file names used, download progress reporting, and how download events
//! are reported to the server.

use std::collections::{HashMap, HashSet};
use vstd::prelude::*;

use crate::protocol::{parse_snowflake, ClientMessage, ParseIdError, Snowflake};
use crate::text::{chars_of, dec_int, push_all, string_of};
use vstd::std_specs::iter::IteratorSpec;
use vstd::utf8::encode_utf8;

verus! {

broadcast use vstd::std_specs::hash::group_hash_axioms;

/// What the file manager reports about downloads and local files.
pub enum FileEvent {
    /// Emitted once per download, immediately after the HTTP response arrives and the
    /// `X-Widget-Id` header is parsed: the chat widget that tracks this download.
    Started { video_id: Snowflake, widget_id: Snowflake },
    Progress { video_id: Snowflake, bytes_done: u64, bytes_total: u64 },
    Completed { video_id: Snowflake },
    Failed { video_id: Snowflake, reason: String },
    Removed { video_id: Snowflake },
}

// ---------------------------------------------------------------------------
// Paths and file names
// ---------------------------------------------------------------------------

/// Paths are kept as the bytes of their OS text (on Unix, any bytes but zero), so that a
/// file whose name is not UTF-8 can still be named.
/// `PathBuf::join` of a directory and a relative or absolute path: an absolute `name`
/// replaces the directory; otherwise a `/` is put between them unless the directory is
/// empty or already ends in `/`.
pub open spec fn join_path(dir: Seq<u8>, name: Seq<u8>) -> Seq<u8> {
    if name.len() > 0 && name[0] == 0x2Fu8 {
        name
    } else if dir.len() > 0 && dir.last() != 0x2Fu8 {
        dir + seq![0x2Fu8] + name
    } else {
        dir + name
    }
}

/// Exec form of `join_path`.
pub fn join(dir: &Vec<u8>, name: &Vec<u8>) -> (r: Vec<u8>)
    ensures
        r@ == join_path(dir@, name@),
{
    if name.len() > 0 && name[0] == 0x2Fu8 {
        return copy_bytes(name);
    }
    let mut out = copy_bytes(dir);
    if dir.len() > 0 && dir[dir.len() - 1] != 0x2Fu8 {
        out.push(0x2Fu8);
    }
    let mut i: usize = 0;
    let ghost start = out@;
    while i < name.len()
        invariant
            i <= name.len(),
            out@ == start + name@.take(i as int),
        decreases name.len() - i,
    {
        out.push(name[i]);
        i = i + 1;
        assert(name@.take(i as int) == name@.take(i - 1).push(name@[i - 1]));
    }
    assert(name@.take(name.len() as int) == name@);
    out
}

/// A copy of some bytes.
pub fn copy_bytes(v: &Vec<u8>) -> (r: Vec<u8>)
    ensures
        r@ == v@,
{
    vstd::slice::slice_to_vec(v.as_slice())
}

/// The UTF-8 bytes of a text.
pub fn utf8_bytes(s: &str) -> (r: Vec<u8>)
    ensures
        r@ == encode_utf8(s@),
{
    vstd::slice::slice_to_vec(s.as_bytes())
}

/// `{id}.{extension}`: the name of a downloaded video.
pub open spec fn download_file_name(id: Snowflake, ext: Seq<char>) -> Seq<char> {
    dec_int(id.0 as int) + seq!['.'] + ext
}

/// `{id}.{extension}.partial`: the name of a download in progress.
pub open spec fn partial_file_name(id: Snowflake, ext: Seq<char>) -> Seq<char> {
    download_file_name(id, ext) + seq!['.', 'p', 'a', 'r', 't', 'i', 'a', 'l']
}

/// Where a download is written while in progress and where it ends up.
pub struct DownloadTarget {
    pub final_path: Vec<u8>,
    pub partial_path: Vec<u8>,
}

// ---------------------------------------------------------------------------
// Directory scan
// ---------------------------------------------------------------------------

/// One entry of the download directory.
pub struct DirEntryInfo {
    /// The entry's path.
    pub path: Vec<u8>,
    pub is_file: bool,
    /// `Path::file_stem` of the entry, or `None` when it has none or it is not UTF-8.
    pub stem: Option<String>,
    /// `Path::extension` of the entry, or `None` when it has none or it is not UTF-8.
    pub extension: Option<String>,
}

/// What the scan at start-up does with a directory entry.
#[derive(Clone, Copy, PartialEq, Eq, Structural, Debug)]
pub enum ScanAction {
    /// Not a regular file, or not named `{snowflake}.{ext}`.
    Ignore,
    /// A `*.partial` leftover: deleted (downloads are not resumed).
    DeletePartial,
    /// A downloaded video.
    Record(Snowflake),
}

/// The scan's decision for an entry: a regular file whose extension is `partial` is a
/// leftover download; one whose stem reads as a snowflake is a downloaded video.
pub open spec fn scan_action(e: DirEntryInfo) -> ScanAction {
    if !e.is_file {
        ScanAction::Ignore
    } else if e.extension matches Some(x) && x@ == seq!['p', 'a', 'r', 't', 'i', 'a', 'l'] {
        ScanAction::DeletePartial
    } else {
        match e.stem {
            Some(stem) => match parse_snowflake(stem@) {
                Ok(id) => ScanAction::Record(id),
                Err(_) => ScanAction::Ignore,
            },
            None => ScanAction::Ignore,
        }
    }
}

/// Decides what the start-up scan does with a directory entry (see `scan_action`).
pub fn classify_dir_entry(e: &DirEntryInfo) -> (r: ScanAction)
    ensures
        r == scan_action(*e),
{
    if !e.is_file {
        return ScanAction::Ignore;
    }
    let partial = vec!['p', 'a', 'r', 't', 'i', 'a', 'l'];
    let is_partial = match &e.extension {
        Some(x) => crate::text::str_is(x.as_str(), &partial),
        None => false,
    };
    if is_partial {
        return ScanAction::DeletePartial;
    }
    match &e.stem {
        Some(stem) => match Snowflake::parse(stem.as_str()) {
            Ok(id) => ScanAction::Record(id),
            Err(_) => ScanAction::Ignore,
        },
        None => ScanAction::Ignore,
    }
}

/// The path recorded for `id` by scanning the first `n` entries: that of the last entry
/// named after `id` (a later entry replaces an earlier one).
pub open spec fn scanned_path(entries: Seq<DirEntryInfo>, id: Snowflake, n: int) -> Option<Seq<u8>>
    decreases n,
{
    if n <= 0 {
        None
    } else if scan_action(entries[n - 1]) == ScanAction::Record(id) {
        Some(entries[n - 1].path@)
    } else {
        scanned_path(entries, id, n - 1)
    }
}

/// The leftover partial files among the first `n` entries, in order, as paths.
pub open spec fn scanned_partials(entries: Seq<DirEntryInfo>, n: int) -> Seq<Seq<u8>>
    decreases n,
{
    if n <= 0 {
        Seq::empty()
    } else if scan_action(entries[n - 1]) == ScanAction::DeletePartial {
        scanned_partials(entries, n - 1).push(entries[n - 1].path@)
    } else {
        scanned_partials(entries, n - 1)
    }
}

// ---------------------------------------------------------------------------
// The file manager's state
// ---------------------------------------------------------------------------

/// The plain value of an optional path.
pub open spec fn opt_bytes(s: Option<Vec<u8>>) -> Option<Seq<u8>> {
    match s {
        Some(v) => Some(v@),
        None => None,
    }
}

/// Local file manager for downloaded videos: one directory of `{snowflake}.{ext}` files,
/// the ids on device with their paths, and the ids being downloaded.
pub struct FileManager {
    dir: Vec<u8>,
    on_device: HashMap<i64, Vec<u8>>,
    active: HashSet<i64>,
}

/// What became of a download.
pub enum DownloadOutcome {
    /// The file was written and renamed to its final path.
    Completed,
    /// The download was cancelled; the partial file is already removed.
    Cancelled,
    /// The download failed for the given reason.
    Failed(String),
}

impl FileManager {
    /// Internal consistency: a video being downloaded is not on device.
    pub closed spec fn wf(&self) -> bool {
        forall|k: i64| #[trigger] self.active@.contains(k) ==> !self.on_device@.contains_key(k)
    }

    /// The directory holding the files.
    pub closed spec fn dir_view(&self) -> Seq<u8> {
        self.dir@
    }

    /// The local path of `id`, when it is on device.
    pub closed spec fn path_of(&self, id: Snowflake) -> Option<Seq<u8>> {
        if self.on_device@.contains_key(id.0) {
            Some(self.on_device@[id.0]@)
        } else {
            None
        }
    }

    /// Whether a download of `id` is in flight.
    pub closed spec fn downloading(&self, id: Snowflake) -> bool {
        self.active@.contains(id.0)
    }

    /// A manager rooted at `dir`, given the directory's entries: `*.partial` files are to
    /// be deleted (their paths are returned, in order), and every regular file whose stem
    /// is a snowflake is recorded as on device (a later entry for the same id replaces an
    /// earlier one); other entries are ignored. Nothing is being downloaded.
    pub fn new(dir: Vec<u8>, entries: &Vec<DirEntryInfo>) -> (r: (FileManager, Vec<Vec<u8>>))
        ensures
            r.0.wf(),
            r.0.dir_view() == dir@,
            forall|id: Snowflake| #[trigger] r.0.path_of(id) == scanned_path(entries@, id, entries@.len() as int),
            forall|id: Snowflake| !#[trigger] r.0.downloading(id),
            r.1@.map_values(|p: Vec<u8>| p@) == scanned_partials(entries@, entries@.len() as int),
    {
        let ghost d = dir@;
        let mut fm = FileManager { dir, on_device: HashMap::new(), active: HashSet::new() };
        let mut partials: Vec<Vec<u8>> = Vec::new();
        let mut i: usize = 0;
        while i < entries.len()
            invariant
                i <= entries.len(),
                fm.dir@ == d,
                fm.wf(),
                fm.active@ == Set::<i64>::empty(),
                forall|id: Snowflake| #[trigger] fm.path_of(id) == scanned_path(entries@, id, i as int),
                partials@.map_values(|p: Vec<u8>| p@) == scanned_partials(entries@, i as int),
            decreases entries.len() - i,
        {
            let e = &entries[i];
            let action = classify_dir_entry(e);
            match action {
                ScanAction::Ignore => {},
                ScanAction::DeletePartial => {
                    partials.push(copy_bytes(&e.path));
                },
                ScanAction::Record(id) => {
                    fm.record(id, copy_bytes(&e.path));
                },
            }
            assert(partials@.map_values(|p: Vec<u8>| p@) =~= scanned_partials(entries@, i + 1));
            i = i + 1;
        }
        (fm, partials)
    }

    /// Records `id` as on device at `path`, replacing any earlier path.
    fn record(&mut self, id: Snowflake, path: Vec<u8>)
        requires
            old(self).wf(),
            !old(self).active@.contains(id.0),
        ensures
            final(self).wf(),
            final(self).dir == old(self).dir,
            final(self).active@ == old(self).active@,
            final(self).path_of(id) == Some(path@),
            forall|k: Snowflake| k != id ==> #[trigger] final(self).path_of(k) == old(self).path_of(k),
    {
        self.on_device.insert(id.0, path);
    }

    /// Whether `id` is on device.
    pub fn is_on_device(&self, id: Snowflake) -> (r: bool)
        ensures
            r == self.path_of(id) is Some,
    {
        self.on_device.contains_key(&id.0)
    }

    /// The local path of `id`, when it is on device.
    pub fn local_path(&self, id: Snowflake) -> (r: Option<Vec<u8>>)
        ensures
            opt_bytes(r) == self.path_of(id),
    {
        match self.on_device.get(&id.0) {
            Some(p) => Some(copy_bytes(p)),
            None => None,
        }
    }

    /// The ids on device, each once.
    pub fn on_device_set(&self) -> (r: Vec<Snowflake>)
        ensures
            r@.no_duplicates(),
            forall|id: Snowflake| r@.contains(id) <==> #[trigger] self.path_of(id) is Some,
    {
        let mut r: Vec<Snowflake> = Vec::new();
        let ghost ks = vstd::std_specs::hash::spec_keys_iter(&self.on_device).remaining();
        for k in it: self.on_device.keys()
            invariant
                it.seq() == ks,
                r@ == ks.take(it.index()).map_values(|k: &i64| Snowflake(*k)),
        {
            r.push(Snowflake(*k));
            assert(ks.take(it.index() + 1).map_values(|k: &i64| Snowflake(*k)) =~= r@);
        }
        proof {
            assert(r@.len() == ks.len());
            assert(ks.take(ks.len() as int) == ks);
            assert(ks.unref().to_set() == self.on_device@.dom());
            assert forall|id: Snowflake| r@.contains(id) <==> #[trigger] self.path_of(id) is Some by {
                if r@.contains(id) {
                    let j = choose|j: int| 0 <= j < r@.len() && r@[j] == id;
                    assert(*ks[j] == id.0);
                    assert(ks.unref()[j] == id.0);
                    assert(ks.unref().contains(id.0));
                    assert(ks.unref().to_set().contains(id.0));
                }
                if self.path_of(id) is Some {
                    assert(ks.unref().to_set().contains(id.0));
                    let j = choose|j: int| 0 <= j < ks.len() && ks.unref()[j] == id.0;
                    assert(r@[j] == id);
                }
            }
            assert(r@.no_duplicates()) by {
                assert forall|a: int, b: int| 0 <= a < r@.len() && 0 <= b < r@.len() && a != b implies r@[a] != r@[b] by {
                    assert(ks[a] != ks[b]);
                }
            }
        }
        r
    }

    /// Begins a download of `id` into `{id}.{extension}`: `None` (nothing to do) when it is
    /// already on device or already downloading; otherwise `id` is marked as downloading
    /// and the partial and final paths are returned.
    pub fn start_download(&mut self, id: Snowflake, extension: &str) -> (r: Option<DownloadTarget>)
        requires
            old(self).wf(),
        ensures
            final(self).wf(),
            final(self).dir_view() == old(self).dir_view(),
            forall|k: Snowflake| #[trigger] final(self).path_of(k) == old(self).path_of(k),
            (old(self).path_of(id) is Some || old(self).downloading(id)) ==> {
                &&& r is None
                &&& forall|k: Snowflake| #[trigger] final(self).downloading(k) == old(self).downloading(k)
            },
            !(old(self).path_of(id) is Some || old(self).downloading(id)) ==> {
                &&& r matches Some(t) && t.final_path@ == join_path(
                    old(self).dir_view(),
                    encode_utf8(download_file_name(id, extension@)),
                ) && t.partial_path@ == join_path(
                    old(self).dir_view(),
                    encode_utf8(partial_file_name(id, extension@)),
                )
                &&& forall|k: Snowflake| #[trigger] final(self).downloading(k) == (k == id || old(self).downloading(k))
            },
    {
        if self.is_on_device(id) || self.is_downloading(id) {
            return None;
        }
        self.active.insert(id.0);
        let mut name = id.to_chars();
        name.push('.');
        let ext = chars_of(extension);
        push_all(&mut name, &ext);
        assert(name@ == download_file_name(id, extension@));
        let final_name = string_of(&name);
        let mut pname = name.clone();
        let suffix = vec!['.', 'p', 'a', 'r', 't', 'i', 'a', 'l'];
        push_all(&mut pname, &suffix);
        assert(pname@ == partial_file_name(id, extension@));
        let partial_name = string_of(&pname);
        Some(
            DownloadTarget {
                final_path: join(&self.dir, &utf8_bytes(final_name.as_str())),
                partial_path: join(&self.dir, &utf8_bytes(partial_name.as_str())),
            },
        )
    }

    /// Whether a download of `id` is in flight.
    pub fn is_downloading(&self, id: Snowflake) -> (r: bool)
        ensures
            r == self.downloading(id),
    {
        self.active.contains(&id.0)
    }

    /// Cancels an in-flight download: whether there was one to signal. The state is left
    /// as it is; the download task reports its end through `finish_download`.
    pub fn cancel_download(&self, id: Snowflake) -> (r: bool)
        ensures
            r == self.downloading(id),
    {
        self.is_downloading(id)
    }

    /// Ends the download of `id`: it is no longer downloading; when it completed, the file
    /// at `final_path` is on device and `Completed` is reported; when it failed, `Failed`
    /// with the reason is reported; a cancelled download reports nothing.
    pub fn finish_download(&mut self, id: Snowflake, final_path: Vec<u8>, outcome: DownloadOutcome) -> (r: Option<FileEvent>)
        requires
            old(self).wf(),
        ensures
            final(self).wf(),
            final(self).dir_view() == old(self).dir_view(),
            !final(self).downloading(id),
            forall|k: Snowflake| k != id ==> #[trigger] final(self).downloading(k) == old(self).downloading(k),
            match outcome {
                DownloadOutcome::Completed => {
                    &&& r == Some(FileEvent::Completed { video_id: id })
                    &&& final(self).path_of(id) == Some(final_path@)
                    &&& forall|k: Snowflake| k != id ==> #[trigger] final(self).path_of(k) == old(self).path_of(k)
                },
                DownloadOutcome::Cancelled => {
                    &&& r is None
                    &&& forall|k: Snowflake| #[trigger] final(self).path_of(k) == old(self).path_of(k)
                },
                DownloadOutcome::Failed(reason) => {
                    &&& r == Some(FileEvent::Failed { video_id: id, reason })
                    &&& forall|k: Snowflake| #[trigger] final(self).path_of(k) == old(self).path_of(k)
                },
            },
    {
        self.stop_tracking(id);
        let ghost mid = *self;
        let ghost mid_active = self.active@;
        match outcome {
            DownloadOutcome::Completed => {
                self.record(id, final_path);
                assert(self.active@ == mid_active);
                assert forall|k: Snowflake| k != id implies #[trigger] self.downloading(k) == old(self).downloading(k) by {
                    assert(self.downloading(k) == mid.downloading(k));
                }
                Some(FileEvent::Completed { video_id: id })
            },
            DownloadOutcome::Cancelled => None,
            DownloadOutcome::Failed(reason) => Some(FileEvent::Failed { video_id: id, reason }),
        }
    }

    /// Drops `id` from the downloads in flight.
    fn stop_tracking(&mut self, id: Snowflake)
        requires
            old(self).wf(),
        ensures
            final(self).wf(),
            final(self).dir == old(self).dir,
            final(self).on_device@ == old(self).on_device@,
            !final(self).downloading(id),
            forall|k: Snowflake| k != id ==> #[trigger] final(self).downloading(k) == old(self).downloading(k),
    {
        self.active.remove(&id.0);
    }

    /// Forgets an on-device file: its path and the `Removed` event, or `None` when `id` is
    /// not on device. An active download is not cancelled.
    pub fn delete(&mut self, id: Snowflake) -> (r: Option<(Vec<u8>, FileEvent)>)
        requires
            old(self).wf(),
        ensures
            final(self).wf(),
            final(self).dir_view() == old(self).dir_view(),
            final(self).path_of(id) is None,
            forall|k: Snowflake| k != id ==> #[trigger] final(self).path_of(k) == old(self).path_of(k),
            forall|k: Snowflake| #[trigger] final(self).downloading(k) == old(self).downloading(k),
            match r {
                Some((p, e)) => old(self).path_of(id) == Some(p@) && e == FileEvent::Removed { video_id: id },
                None => old(self).path_of(id) is None,
            },
    {
        match self.on_device.remove(&id.0) {
            Some(path) => Some((path, FileEvent::Removed { video_id: id })),
            None => None,
        }
    }
}

// ---------------------------------------------------------------------------
// Reading a download response
// ---------------------------------------------------------------------------

/// A video is never on the device and being downloaded at once: a download starts only
/// for a video that is not on the device, and a finished download stops being tracked
/// when its file is recorded.
pub proof fn lemma_downloading_not_on_device(fm: FileManager, id: Snowflake)
    requires
        fm.wf(),
    ensures
        fm.downloading(id) ==> fm.path_of(id) is None,
{
}

/// The text of a failed download response: `HTTP {status}`.
pub open spec fn http_failure_text(status: Seq<char>) -> Seq<char> {
    seq!['H', 'T', 'T', 'P', ' '] + status
}

/// Accepts a successful HTTP status; otherwise the failure text (see `http_failure_text`).
pub fn check_http_status(success: bool, status: &str) -> (r: Result<(), String>)
    ensures
        success ==> r is Ok,
        !success ==> (r matches Err(m) && m@ == http_failure_text(status@)),
{
    if success {
        Ok(())
    } else {
        let mut m = vec!['H', 'T', 'T', 'P', ' '];
        let st = chars_of(status);
        push_all(&mut m, &st);
        Err(string_of(&m))
    }
}

/// `"missing or non-ascii X-Widget-Id header"`.
pub open spec fn lit_missing_widget_header() -> Seq<char> {
    seq![
        'm', 'i', 's', 's', 'i', 'n', 'g', ' ', 'o', 'r', ' ', 'n', 'o', 'n', '-', 'a', 's', 'c',
        'i', 'i', ' ', 'X', '-', 'W', 'i', 'd', 'g', 'e', 't', '-', 'I', 'd', ' ', 'h', 'e', 'a',
        'd', 'e', 'r'
    ]
}

/// `"invalid X-Widget-Id header"`.
pub open spec fn lit_invalid_widget_header() -> Seq<char> {
    seq![
        'i', 'n', 'v', 'a', 'l', 'i', 'd', ' ', 'X', '-', 'W', 'i', 'd', 'g', 'e', 't', '-', 'I',
        'd', ' ', 'h', 'e', 'a', 'd', 'e', 'r'
    ]
}

/// The chat widget id a download response names in its `X-Widget-Id` header. `header` is
/// `None` when the header is absent and `Some(None)` when its value is not visible ASCII.
pub fn widget_id_from_header(header: &Option<Option<String>>) -> (r: Result<Snowflake, String>)
    ensures
        match header {
            Some(Some(v)) => match parse_snowflake(v@) {
                Ok(id) => r == Ok::<Snowflake, String>(id),
                Err(_) => r matches Err(m) && m@ == lit_invalid_widget_header(),
            },
            _ => r matches Err(m) && m@ == lit_missing_widget_header(),
        },
{
    match header {
        Some(Some(v)) => match Snowflake::parse(v.as_str()) {
            Ok(id) => Ok(id),
            Err(_) => {
                let m = vec![
                    'i', 'n', 'v', 'a', 'l', 'i', 'd', ' ', 'X', '-', 'W', 'i', 'd', 'g', 'e', 't',
                    '-', 'I', 'd', ' ', 'h', 'e', 'a', 'd', 'e', 'r'
                ];
                Err(string_of(&m))
            },
        },
        _ => {
            let m = vec![
                'm', 'i', 's', 's', 'i', 'n', 'g', ' ', 'o', 'r', ' ', 'n', 'o', 'n', '-', 'a',
                's', 'c', 'i', 'i', ' ', 'X', '-', 'W', 'i', 'd', 'g', 'e', 't', '-', 'I', 'd', ' ',
                'h', 'e', 'a', 'd', 'e', 'r'
            ];
            Err(string_of(&m))
        },
    }
}

// ---------------------------------------------------------------------------
// Progress reporting
// ---------------------------------------------------------------------------

/// Minimum time between two progress reports, unless a full percent was gained.
pub const PROGRESS_THROTTLE_MS: u64 = 250;

/// Percentage gain that is always reported.
pub const PROGRESS_THROTTLE_PCT: u32 = 1;

/// The whole percentage of `done` out of `total` (0 when the total is unknown), cut to
/// 32 bits as `as u32` does.
pub open spec fn percent(done: u64, total: u64) -> u32 {
    if total > 0 {
        (((done * 100) as int / total as int) as u64) as u32
    } else {
        0
    }
}

/// Progress of one download and the last report made.
pub struct ProgressTracker {
    pub video_id: Snowflake,
    pub bytes_total: u64,
    pub bytes_done: u64,
    pub last_emit_ms: u64,
    pub last_pct: u32,
}

impl ProgressTracker {
    /// Starts tracking at time `now_ms`, with the initial 0% report (so the UI shows a bar
    /// immediately).
    pub fn start(video_id: Snowflake, bytes_total: u64, now_ms: u64) -> (r: (ProgressTracker, FileEvent))
        ensures
            r.0 == (ProgressTracker { video_id, bytes_total, bytes_done: 0, last_emit_ms: now_ms, last_pct: 0 }),
            r.1 == (FileEvent::Progress { video_id, bytes_done: 0, bytes_total }),
    {
        (
            ProgressTracker { video_id, bytes_total, bytes_done: 0, last_emit_ms: now_ms, last_pct: 0 },
            FileEvent::Progress { video_id, bytes_done: 0, bytes_total },
        )
    }

    /// Counts a received chunk of `len` bytes at time `now_ms` and reports progress when at
    /// least 250 ms passed since the last report or at least one percent was gained.
    pub fn on_chunk(&mut self, len: u64, now_ms: u64) -> (r: Option<FileEvent>)
        requires
            old(self).bytes_done + len <= u64::MAX,
            old(self).bytes_total > 0 ==> (old(self).bytes_done + len) * 100 <= u64::MAX,
        ensures
            final(self).video_id == old(self).video_id,
            final(self).bytes_total == old(self).bytes_total,
            final(self).bytes_done == old(self).bytes_done + len,
            ({
                let pct = percent(final(self).bytes_done, final(self).bytes_total);
                let elapsed = if now_ms >= old(self).last_emit_ms {
                    now_ms - old(self).last_emit_ms
                } else {
                    0
                };
                let gained = if pct >= old(self).last_pct {
                    pct - old(self).last_pct
                } else {
                    0
                };
                if elapsed >= PROGRESS_THROTTLE_MS || gained >= PROGRESS_THROTTLE_PCT {
                    &&& r == Some(FileEvent::Progress {
                        video_id: old(self).video_id,
                        bytes_done: final(self).bytes_done,
                        bytes_total: old(self).bytes_total,
                    })
                    &&& final(self).last_emit_ms == now_ms
                    &&& final(self).last_pct == pct
                } else {
                    &&& r is None
                    &&& final(self).last_emit_ms == old(self).last_emit_ms
                    &&& final(self).last_pct == old(self).last_pct
                }
            }),
    {
        self.bytes_done = self.bytes_done + len;
        let pct: u32 = if self.bytes_total > 0 {
            #[verifier::truncate]
            ((self.bytes_done * 100 / self.bytes_total) as u32)
        } else {
            0
        };
        let elapsed = now_ms.saturating_sub(self.last_emit_ms);
        if elapsed >= PROGRESS_THROTTLE_MS || pct.saturating_sub(self.last_pct) >= PROGRESS_THROTTLE_PCT {
            self.last_emit_ms = now_ms;
            self.last_pct = pct;
            Some(
                FileEvent::Progress {
                    video_id: self.video_id,
                    bytes_done: self.bytes_done,
                    bytes_total: self.bytes_total,
                },
            )
        } else {
            None
        }
    }
}

// ---------------------------------------------------------------------------
// Reporting downloads to the server
// ---------------------------------------------------------------------------

/// The chat widget of each download in flight, keyed by video id.
pub struct DownloadWidgets {
    widgets: HashMap<i64, Snowflake>,
}

impl DownloadWidgets {
    /// The widget of `video`'s download, when one was announced.
    pub closed spec fn widget_of(&self, video: Snowflake) -> Option<Snowflake> {
        if self.widgets@.contains_key(video.0) {
            Some(self.widgets@[video.0])
        } else {
            None
        }
    }

    /// No download announced yet.
    pub fn new() -> (r: DownloadWidgets)
        ensures
            forall|v: Snowflake| #[trigger] r.widget_of(v) is None,
    {
        DownloadWidgets { widgets: HashMap::new() }
    }

    /// What the client tells the server about a file event: a download's widget is
    /// remembered when it starts; progress is reported to that widget; a completed download
    /// closes its widget and asserts the video is ready on device; a failed download
    /// forgets its widget; a removed file asserts the video is no longer on device.
    pub fn on_event(&mut self, event: &FileEvent) -> (msgs: Vec<ClientMessage>)
        ensures
            match *event {
                FileEvent::Started { video_id, widget_id } => {
                    &&& msgs@.len() == 0
                    &&& final(self).widget_of(video_id) == Some(widget_id)
                    &&& forall|v: Snowflake| v != video_id ==> #[trigger] final(self).widget_of(v) == old(self).widget_of(v)
                },
                FileEvent::Progress { video_id, bytes_done, .. } => {
                    &&& forall|v: Snowflake| #[trigger] final(self).widget_of(v) == old(self).widget_of(v)
                    &&& msgs@ == match old(self).widget_of(video_id) {
                        Some(w) => seq![ClientMessage::DownloadProgress { widget_id: w, bytes_done }],
                        None => Seq::<ClientMessage>::empty(),
                    }
                },
                FileEvent::Completed { video_id } => {
                    &&& final(self).widget_of(video_id) is None
                    &&& forall|v: Snowflake| v != video_id ==> #[trigger] final(self).widget_of(v) == old(self).widget_of(v)
                    &&& msgs@ == match old(self).widget_of(video_id) {
                        Some(w) => seq![
                            ClientMessage::DownloadDone { widget_id: w },
                            ClientMessage::AssertReady { video_id, on_device: true },
                        ],
                        None => seq![ClientMessage::AssertReady { video_id, on_device: true }],
                    }
                },
                FileEvent::Failed { video_id, .. } => {
                    &&& msgs@.len() == 0
                    &&& final(self).widget_of(video_id) is None
                    &&& forall|v: Snowflake| v != video_id ==> #[trigger] final(self).widget_of(v) == old(self).widget_of(v)
                },
                FileEvent::Removed { video_id } => {
                    &&& forall|v: Snowflake| #[trigger] final(self).widget_of(v) == old(self).widget_of(v)
                    &&& msgs@ == seq![ClientMessage::AssertReady { video_id, on_device: false }]
                },
            },
    {
        let mut msgs: Vec<ClientMessage> = Vec::new();
        match event {
            FileEvent::Started { video_id, widget_id } => {
                self.widgets.insert(video_id.0, *widget_id);
            },
            FileEvent::Progress { video_id, bytes_done, .. } => {
                match self.widgets.get(&video_id.0) {
                    Some(w) => {
                        msgs.push(ClientMessage::DownloadProgress { widget_id: *w, bytes_done: *bytes_done });
                    },
                    None => {},
                }
            },
            FileEvent::Completed { video_id } => {
                match self.widgets.remove(&video_id.0) {
                    Some(w) => msgs.push(ClientMessage::DownloadDone { widget_id: w }),
                    None => {},
                }
                msgs.push(ClientMessage::AssertReady { video_id: *video_id, on_device: true });
            },
            FileEvent::Failed { video_id, .. } => {
                self.widgets.remove(&video_id.0);
            },
            FileEvent::Removed { video_id } => {
                msgs.push(ClientMessage::AssertReady { video_id: *video_id, on_device: false });
            },
        }
        msgs
    }
}

} // verus!
