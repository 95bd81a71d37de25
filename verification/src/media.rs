//! Audio and subtitle track listings of local media files.

use vstd::prelude::*;

use crate::text::{
    all_ascii, ascii_lower, ascii_lowercase, chars_of, concat, has_prefix, push_all, slice_from, starts_with,
    string_of, to_ascii_lowercase,
};

verus! {

/// One audio or subtitle track as offered to the user.
pub struct TrackInfo {
    /// Position among the tracks of its kind, counting from 0.
    pub index: i32,
    pub codec: String,
    pub language: Option<String>,
    pub title: Option<String>,
    pub is_default: bool,
}

/// The audio and subtitle tracks of a file, each in file order.
pub struct MediaProbe {
    pub audio_tracks: Vec<TrackInfo>,
    pub subtitle_tracks: Vec<TrackInfo>,
}

/// What kind of stream a track carries.
#[derive(Clone, Copy, PartialEq, Eq, Structural, Debug)]
pub enum TrackKind {
    Audio,
    Subtitle,
    Other,
}

// ---------------------------------------------------------------------------
// Lowercasing (std)
// ---------------------------------------------------------------------------

/// What `str::to_lowercase` gives for `s`.
pub uninterp spec fn unicode_lowercase(s: Seq<char>) -> Seq<char>;

/// Calls `str::to_lowercase`. The contract names the result; of it, it states only that an
/// all-ASCII string is lowercased letter by letter (`A`-`Z` to `a`-`z`, everything else
/// kept): `to_ascii_lowercase` is documented to do so, and to differ from `to_lowercase`
/// only on non-ASCII characters. What happens to those is not stated.
#[verifier::external_body]
pub(crate) fn lowercase(s: &str) -> (r: String)
    ensures
        r@ == unicode_lowercase(s@),
        all_ascii(s@) ==> r@ == ascii_lowercase(s@),
{
    s.to_lowercase()
}

// ---------------------------------------------------------------------------
// Matroska codec identifiers
// ---------------------------------------------------------------------------

/// `codec_id` without one leading `A_`, `V_` or `S_` (the first that matches).
pub open spec fn strip_type_prefix(id: Seq<char>) -> Seq<char> {
    if has_prefix(id, seq!['A', '_']) || has_prefix(id, seq!['V', '_']) || has_prefix(
        id,
        seq!['S', '_'],
    ) {
        id.skip(2)
    } else {
        id
    }
}

/// `s` without a leading `TEXT/`.
pub open spec fn strip_text_prefix(s: Seq<char>) -> Seq<char> {
    if has_prefix(s, seq!['T', 'E', 'X', 'T', '/']) {
        s.skip(5)
    } else {
        s
    }
}

/// The readable codec name of a Matroska codec id: type prefix and `TEXT/` stripped,
/// lowercased.
pub open spec fn mkv_codec_name(id: Seq<char>) -> Seq<char> {
    unicode_lowercase(strip_text_prefix(strip_type_prefix(id)))
}

/// MKV codec IDs are like "A_AAC", "S_TEXT/ASS", "A_OPUS".
/// Strip the type prefix and `TEXT/` for readable display.
pub fn simplify_mkv_codec(codec_id: &str) -> (r: String)
    ensures
        r@ == mkv_codec_name(codec_id@),
        all_ascii(strip_text_prefix(strip_type_prefix(codec_id@))) ==> r@ == ascii_lowercase(
            strip_text_prefix(strip_type_prefix(codec_id@)),
        ),
{
    let id = chars_of(codec_id);
    let a = vec!['A', '_'];
    let v = vec!['V', '_'];
    let s = vec!['S', '_'];
    let stripped = if starts_with(&id, &a) || starts_with(&id, &v) || starts_with(&id, &s) {
        slice_from(&id, 2)
    } else {
        id
    };
    let text = vec!['T', 'E', 'X', 'T', '/'];
    let inner = if starts_with(&stripped, &text) {
        slice_from(&stripped, 5)
    } else {
        stripped
    };
    let inner_str = string_of(&inner);
    lowercase(inner_str.as_str())
}

/// Shortening a codec name settles at once: for an id whose name part is ASCII, the
/// shortened name is ASCII, starts with no prefix that would be stripped, and is its own
/// lowercase, so `simplify_mkv_codec` gives it back unchanged.
pub proof fn lemma_codec_name_settles(codec_id: Seq<char>)
    requires
        all_ascii(strip_text_prefix(strip_type_prefix(codec_id))),
    ensures
        ({
            let r = ascii_lowercase(strip_text_prefix(strip_type_prefix(codec_id)));
            &&& all_ascii(r)
            &&& strip_text_prefix(strip_type_prefix(r)) == r
            &&& ascii_lowercase(r) == r
        }),
{
    let x = strip_text_prefix(strip_type_prefix(codec_id));
    let r = ascii_lowercase(x);
    assert forall|i: int| 0 <= i < r.len() implies (r[i] as u32) < 128 && !('A' <= r[i]
        && r[i] <= 'Z') && ascii_lower(r[i]) == r[i] by {
        assert(r[i] == ascii_lower(x[i]));
    }
    if r.len() > 0 {
        assert(r[0] != 'A' && r[0] != 'V' && r[0] != 'S' && r[0] != 'T');
        assert(!has_prefix(r, seq!['A', '_'])) by {
            if has_prefix(r, seq!['A', '_']) {
                assert(r.take(2)[0] == r[0]);
            }
        }
        assert(!has_prefix(r, seq!['V', '_'])) by {
            if has_prefix(r, seq!['V', '_']) {
                assert(r.take(2)[0] == r[0]);
            }
        }
        assert(!has_prefix(r, seq!['S', '_'])) by {
            if has_prefix(r, seq!['S', '_']) {
                assert(r.take(2)[0] == r[0]);
            }
        }
        assert(!has_prefix(r, seq!['T', 'E', 'X', 'T', '/'])) by {
            if has_prefix(r, seq!['T', 'E', 'X', 'T', '/']) {
                assert(r.take(5)[0] == r[0]);
            }
        }
    }
    assert(ascii_lowercase(r) =~= r);
}

// ---------------------------------------------------------------------------
// Assembling a probe from tracks
// ---------------------------------------------------------------------------

/// One track of a file, as read from its container.
pub struct ProbedTrack {
    pub kind: TrackKind,
    pub codec: String,
    pub language: Option<String>,
    pub title: Option<String>,
    pub is_default: bool,
}

/// The plain values of a track.
pub struct TrackView {
    pub kind: TrackKind,
    pub codec: Seq<char>,
    pub language: Option<Seq<char>>,
    pub title: Option<Seq<char>>,
    pub is_default: bool,
}

/// The plain value of an optional string.
pub open spec fn opt_view(s: Option<String>) -> Option<Seq<char>> {
    match s {
        Some(v) => Some(v@),
        None => None,
    }
}

impl View for ProbedTrack {
    type V = TrackView;

    open spec fn view(&self) -> TrackView {
        TrackView {
            kind: self.kind,
            codec: self.codec@,
            language: opt_view(self.language),
            title: opt_view(self.title),
            is_default: self.is_default,
        }
    }
}

/// The number of tracks of `kind` among the first `n` of `tracks`.
pub open spec fn count_kind(tracks: Seq<TrackView>, kind: TrackKind, n: int) -> nat
    decreases n,
{
    if n <= 0 {
        0
    } else {
        count_kind(tracks, kind, n - 1) + if tracks[n - 1].kind == kind {
            1nat
        } else {
            0nat
        }
    }
}

/// `info` describes `track` at position `index` among its kind, with `is_default` as the
/// default flag.
pub open spec fn describes(info: TrackInfo, track: TrackView, index: int, is_default: bool) -> bool {
    &&& info.index == index
    &&& info.codec@ == track.codec
    &&& opt_view(info.language) == track.language
    &&& opt_view(info.title) == track.title
    &&& info.is_default == is_default
}

/// The tracks of `kind` among `tracks`, in order, each numbered among its kind.
pub open spec fn lists_kind(out: Seq<TrackInfo>, tracks: Seq<TrackView>, kind: TrackKind) -> bool {
    &&& out.len() == count_kind(tracks, kind, tracks.len() as int)
    &&& forall|i: int|
        0 <= i < tracks.len() && tracks[i].kind == kind ==> {
            let j = count_kind(tracks, kind, i) as int;
            describes(out[j], tracks[i], j, tracks[i].is_default)
        }
}

proof fn lemma_count_kind_le(tracks: Seq<TrackView>, kind: TrackKind, n: int)
    requires
        0 <= n <= tracks.len(),
    ensures
        count_kind(tracks, kind, n) <= n,
    decreases n,
{
    if n > 0 {
        lemma_count_kind_le(tracks, kind, n - 1);
    }
}

proof fn lemma_count_kind_lt(tracks: Seq<TrackView>, kind: TrackKind, i: int)
    requires
        0 <= i < tracks.len(),
        tracks[i].kind == kind,
    ensures
        count_kind(tracks, kind, i) < count_kind(tracks, kind, tracks.len() as int),
{
    lemma_count_kind_mono(tracks, kind, i + 1, tracks.len() as int);
}

proof fn lemma_count_kind_mono(tracks: Seq<TrackView>, kind: TrackKind, m: int, n: int)
    requires
        0 <= m <= n <= tracks.len(),
    ensures
        count_kind(tracks, kind, m) <= count_kind(tracks, kind, n),
    decreases n - m,
{
    if m < n {
        lemma_count_kind_mono(tracks, kind, m, n - 1);
    }
}

fn copy_opt(s: &Option<String>) -> (r: Option<String>)
    ensures
        opt_view(r) == opt_view(*s),
{
    match s {
        Some(v) => Some(v.clone()),
        None => None,
    }
}

fn describe(track: &ProbedTrack, index: i32, is_default: bool) -> (r: TrackInfo)
    ensures
        describes(r, track@, index as int, is_default),
{
    TrackInfo {
        index,
        codec: track.codec.clone(),
        language: copy_opt(&track.language),
        title: copy_opt(&track.title),
        is_default,
    }
}

/// Splits tracks into audio and subtitle lists, numbering each kind from 0 in file order.
/// When `first_is_default` is set, the first track of each kind is marked default and the
/// others are not (MP4 has no default flag); otherwise each keeps its own flag.
/// The plain values of a list of tracks.
pub open spec fn track_views(tracks: Seq<ProbedTrack>) -> Seq<TrackView> {
    tracks.map_values(|t: ProbedTrack| t@)
}

#[verifier::rlimit(40)]
pub fn assemble_probe(tracks: &Vec<ProbedTrack>, first_is_default: bool) -> (p: MediaProbe)
    requires
        tracks.len() < 0x8000_0000,
    ensures
        first_is_default ==> {
            &&& lists_kind_first(p.audio_tracks@, track_views(tracks@), TrackKind::Audio)
            &&& lists_kind_first(p.subtitle_tracks@, track_views(tracks@), TrackKind::Subtitle)
        },
        !first_is_default ==> {
            &&& lists_kind(p.audio_tracks@, track_views(tracks@), TrackKind::Audio)
            &&& lists_kind(p.subtitle_tracks@, track_views(tracks@), TrackKind::Subtitle)
        },
{
    let ghost views = track_views(tracks@);
    let mut audio: Vec<TrackInfo> = Vec::new();
    let mut subs: Vec<TrackInfo> = Vec::new();
    let mut i: usize = 0;
    while i < tracks.len()
        invariant
            i <= tracks.len() < 0x8000_0000,
            views == track_views(tracks@),
            audio@.len() == count_kind(views, TrackKind::Audio, i as int),
            subs@.len() == count_kind(views, TrackKind::Subtitle, i as int),
            forall|k: int|
                0 <= k < i && views[k].kind == TrackKind::Audio ==> {
                    let j = count_kind(views, TrackKind::Audio, k) as int;
                    describes(
                        audio@[j],
                        views[k],
                        j,
                        if first_is_default {
                            j == 0
                        } else {
                            views[k].is_default
                        },
                    )
                },
            forall|k: int|
                0 <= k < i && views[k].kind == TrackKind::Subtitle ==> {
                    let j = count_kind(views, TrackKind::Subtitle, k) as int;
                    describes(
                        subs@[j],
                        views[k],
                        j,
                        if first_is_default {
                            j == 0
                        } else {
                            views[k].is_default
                        },
                    )
                },
        decreases tracks.len() - i,
    {
        proof {
            lemma_count_kind_le(views, TrackKind::Audio, i as int);
            lemma_count_kind_le(views, TrackKind::Subtitle, i as int);
        }
        let t = &tracks[i];
        assert(views[i as int] == t@);
        match t.kind {
            TrackKind::Audio => {
                let j = audio.len() as i32;
                let d = if first_is_default {
                    j == 0
                } else {
                    t.is_default
                };
                audio.push(describe(t, j, d));
            },
            TrackKind::Subtitle => {
                let j = subs.len() as i32;
                let d = if first_is_default {
                    j == 0
                } else {
                    t.is_default
                };
                subs.push(describe(t, j, d));
            },
            TrackKind::Other => {},
        }
        proof {
            assert forall|k: int|
                0 <= k < i + 1 && views[k].kind == TrackKind::Audio implies {
                    let j = count_kind(views, TrackKind::Audio, k) as int;
                    describes(
                        audio@[j],
                        views[k],
                        j,
                        if first_is_default {
                            j == 0
                        } else {
                            views[k].is_default
                        },
                    )
                } by {
                if k < i {
                    lemma_count_kind_mono(views, TrackKind::Audio, k + 1, i as int);
                }
            }
            assert forall|k: int|
                0 <= k < i + 1 && views[k].kind == TrackKind::Subtitle implies {
                    let j = count_kind(views, TrackKind::Subtitle, k) as int;
                    describes(
                        subs@[j],
                        views[k],
                        j,
                        if first_is_default {
                            j == 0
                        } else {
                            views[k].is_default
                        },
                    )
                } by {
                if k < i {
                    lemma_count_kind_mono(views, TrackKind::Subtitle, k + 1, i as int);
                }
            }
        }
        i = i + 1;
    }
    MediaProbe { audio_tracks: audio, subtitle_tracks: subs }
}

/// Like `lists_kind`, but the first track of the kind is the default and no other is.
pub open spec fn lists_kind_first(out: Seq<TrackInfo>, tracks: Seq<TrackView>, kind: TrackKind) -> bool {
    &&& out.len() == count_kind(tracks, kind, tracks.len() as int)
    &&& forall|i: int|
        0 <= i < tracks.len() && tracks[i].kind == kind ==> {
            let j = count_kind(tracks, kind, i) as int;
            describes(out[j], tracks[i], j, j == 0)
        }
}

// ---------------------------------------------------------------------------
// Matroska / WebM
// ---------------------------------------------------------------------------

/// A Matroska track as the container describes it.
pub struct MkvTrack {
    pub is_audio: bool,
    pub is_subtitle: bool,
    pub codec_name: Option<String>,
    pub codec_id: String,
    pub language: Option<String>,
    pub name: Option<String>,
    pub default: bool,
}

/// How a Matroska track is offered: audio or subtitle by its type; the codec name when the
/// file gives one, else the simplified codec id; its language, its name as title, and its
/// own default flag.
pub open spec fn mkv_view(t: MkvTrack) -> TrackView {
    TrackView {
        kind: if t.is_audio {
            TrackKind::Audio
        } else if t.is_subtitle {
            TrackKind::Subtitle
        } else {
            TrackKind::Other
        },
        codec: match t.codec_name {
            Some(n) => n@,
            None => mkv_codec_name(t.codec_id@),
        },
        language: opt_view(t.language),
        title: opt_view(t.name),
        is_default: t.default,
    }
}

/// `out` offers the Matroska tracks of `tracks` that `is_kind` picks, each at its position
/// among them: the listed entry carries that position as its index, the track's own
/// codec name (or its simplified codec id), language, name as title and default flag.
pub open spec fn offers_mkv(out: Seq<TrackInfo>, tracks: Seq<MkvTrack>, is_kind: spec_fn(MkvTrack) -> bool, kind: TrackKind) -> bool {
    forall|i: int| #![trigger tracks[i]] 0 <= i < tracks.len() && is_kind(tracks[i]) ==> {
        let j = count_kind(tracks.map_values(|t: MkvTrack| mkv_view(t)), kind, i) as int;
        &&& 0 <= j < out.len()
        &&& out[j].index == j
        &&& out[j].is_default == tracks[i].default
        &&& out[j].codec@ == match tracks[i].codec_name {
            Some(n) => n@,
            None => mkv_codec_name(tracks[i].codec_id@),
        }
        &&& opt_view(out[j].language) == opt_view(tracks[i].language)
        &&& opt_view(out[j].title) == opt_view(tracks[i].name)
    }
}

/// Listing Matroska tracks keeps what each track says of itself: every audio track, and
/// every subtitle track that is not also audio, is offered with its own default flag,
/// codec, language and name, at its position among the tracks of its kind.
pub proof fn lemma_mkv_tracks_keep_their_fields(tracks: Seq<MkvTrack>, audio: Seq<TrackInfo>, subs: Seq<TrackInfo>)
    requires
        lists_kind(audio, tracks.map_values(|t: MkvTrack| mkv_view(t)), TrackKind::Audio),
        lists_kind(subs, tracks.map_values(|t: MkvTrack| mkv_view(t)), TrackKind::Subtitle),
    ensures
        offers_mkv(audio, tracks, |t: MkvTrack| t.is_audio, TrackKind::Audio),
        offers_mkv(subs, tracks, |t: MkvTrack| !t.is_audio && t.is_subtitle, TrackKind::Subtitle),
{
    let views = tracks.map_values(|t: MkvTrack| mkv_view(t));
    assert forall|i: int| 0 <= i < tracks.len() && #[trigger] tracks[i].is_audio implies {
        let j = count_kind(views, TrackKind::Audio, i) as int;
        &&& 0 <= j < audio.len()
        &&& describes(audio[j], views[i], j, views[i].is_default)
    } by {
        assert(views[i] == mkv_view(tracks[i]));
        lemma_count_kind_lt(views, TrackKind::Audio, i);
    }
    assert forall|i: int| 0 <= i < tracks.len() && !tracks[i].is_audio && #[trigger] tracks[i].is_subtitle implies {
        let j = count_kind(views, TrackKind::Subtitle, i) as int;
        &&& 0 <= j < subs.len()
        &&& describes(subs[j], views[i], j, views[i].is_default)
    } by {
        assert(views[i] == mkv_view(tracks[i]));
        lemma_count_kind_lt(views, TrackKind::Subtitle, i);
    }
}

/// The probe of a Matroska/WebM file from its tracks: audio and subtitle tracks numbered
/// per kind in file order, each with its own default flag.
pub fn probe_mkv_tracks(tracks: &Vec<MkvTrack>) -> (p: MediaProbe)
    requires
        tracks.len() < 0x8000_0000,
    ensures
        lists_kind(p.audio_tracks@, tracks@.map_values(|t: MkvTrack| mkv_view(t)), TrackKind::Audio),
        lists_kind(
            p.subtitle_tracks@,
            tracks@.map_values(|t: MkvTrack| mkv_view(t)),
            TrackKind::Subtitle,
        ),
        offers_mkv(p.audio_tracks@, tracks@, |t: MkvTrack| t.is_audio, TrackKind::Audio),
        offers_mkv(p.subtitle_tracks@, tracks@, |t: MkvTrack| !t.is_audio && t.is_subtitle, TrackKind::Subtitle),
{
    let mut probed: Vec<ProbedTrack> = Vec::new();
    let mut i: usize = 0;
    while i < tracks.len()
        invariant
            i <= tracks.len(),
            probed@.len() == i,
            forall|k: int| 0 <= k < i ==> #[trigger] probed@[k]@ == mkv_view(tracks@[k]),
        decreases tracks.len() - i,
    {
        let t = &tracks[i];
        let kind = if t.is_audio {
            TrackKind::Audio
        } else if t.is_subtitle {
            TrackKind::Subtitle
        } else {
            TrackKind::Other
        };
        let codec = match &t.codec_name {
            Some(n) => n.clone(),
            None => simplify_mkv_codec(t.codec_id.as_str()),
        };
        let pt = ProbedTrack {
            kind,
            codec,
            language: copy_opt(&t.language),
            title: copy_opt(&t.name),
            is_default: t.default,
        };
        assert(pt@ == mkv_view(*t));
        probed.push(pt);
        i = i + 1;
    }
    assert(track_views(probed@) =~= tracks@.map_values(|t: MkvTrack| mkv_view(t)));
    let p = assemble_probe(&probed, false);
    proof {
        lemma_mkv_tracks_keep_their_fields(tracks@, p.audio_tracks@, p.subtitle_tracks@);
    }
    p
}

// ---------------------------------------------------------------------------
// MP4 / M4V / MOV
// ---------------------------------------------------------------------------

/// An MP4 track as the container describes it.
pub struct Mp4Track {
    pub track_id: u32,
    /// The track type, or `None` when the container's type could not be read.
    pub kind: Option<TrackKind>,
    /// The sample entry box type as text, or `None` when it could not be read.
    pub codec: Option<String>,
    /// The ISO-639 language code (`und` when undetermined).
    pub language: String,
}

/// How an MP4 track is offered: tracks without a readable type are skipped (as `Other`);
/// the codec is the box type or `unknown`; `und` and empty languages are dropped; there
/// is no title, and no default flag of its own.
pub open spec fn mp4_view(t: Mp4Track) -> TrackView {
    TrackView {
        kind: match t.kind {
            Some(k) => k,
            None => TrackKind::Other,
        },
        codec: match t.codec {
            Some(c) => c@,
            None => seq!['u', 'n', 'k', 'n', 'o', 'w', 'n'],
        },
        language: if t.language@ == seq!['u', 'n', 'd'] || t.language@.len() == 0 {
            None
        } else {
            Some(t.language@)
        },
        title: None,
        is_default: false,
    }
}

/// `order` lists every index of `tracks` once, by increasing track id.
pub open spec fn sorted_by_track_id(order: Seq<int>, tracks: Seq<Mp4Track>) -> bool {
    &&& order.len() == tracks.len()
    &&& forall|i: int| 0 <= i < order.len() ==> 0 <= #[trigger] order[i] < tracks.len()
    &&& forall|i: int, j: int|
        0 <= i < j < order.len() ==> #[trigger] tracks[order[i]].track_id
            < #[trigger] tracks[order[j]].track_id
}

/// No two tracks share an id (the tracks come from a map keyed by id).
pub open spec fn distinct_track_ids(tracks: Seq<Mp4Track>) -> bool {
    forall|i: int, j: int|
        0 <= i < tracks.len() && 0 <= j < tracks.len() && i != j ==> #[trigger] tracks[i].track_id
            != #[trigger] tracks[j].track_id
}

/// The indices of `tracks` ordered by increasing track id.
pub fn order_by_track_id(tracks: &Vec<Mp4Track>) -> (order: Vec<usize>)
    requires
        distinct_track_ids(tracks@),
    ensures
        sorted_by_track_id(order@.map_values(|k: usize| k as int), tracks@),
{
    let mut order: Vec<usize> = Vec::new();
    let mut i: usize = 0;
    while i < tracks.len()
        invariant
            i <= tracks.len(),
            distinct_track_ids(tracks@),
            order@.len() == i,
            forall|a: int| 0 <= a < order@.len() ==> #[trigger] order@[a] < i,
            forall|a: int, b: int|
                0 <= a < b < order@.len() ==> #[trigger] tracks@[order@[a] as int].track_id
                    < #[trigger] tracks@[order@[b] as int].track_id,
        decreases tracks.len() - i,
    {
        let id = tracks[i].track_id;
        let mut pos: usize = 0;
        while pos < order.len() && tracks[order[pos]].track_id < id
            invariant
                pos <= order@.len(),
                order@.len() == i,
                i < tracks.len(),
                id == tracks@[i as int].track_id,
                forall|a: int| 0 <= a < order@.len() ==> #[trigger] order@[a] < i,
                forall|a: int| 0 <= a < pos ==> #[trigger] tracks@[order@[a] as int].track_id < id,
            decreases order@.len() - pos,
        {
            pos = pos + 1;
        }
        proof {
            if pos < order@.len() {
                assert(tracks@[order@[pos as int] as int].track_id >= id);
                assert(order@[pos as int] < i);
                assert(tracks@[order@[pos as int] as int].track_id != id);
            }
        }
        let ghost old_order = order@;
        order.insert(pos, i);
        proof {
            assert(order@ == old_order.insert(pos as int, i));
            assert forall|a: int, b: int|
                0 <= a < b < order@.len() implies #[trigger] tracks@[order@[a] as int].track_id
                    < #[trigger] tracks@[order@[b] as int].track_id by {
                if b < pos {
                } else if b == pos {
                    assert(order@[a] == old_order[a]);
                } else if a < pos {
                    assert(order@[b] == old_order[b - 1]);
                    if pos < old_order.len() {
                        assert(tracks@[old_order[pos as int] as int].track_id > id);
                        if b - 1 > pos {
                            assert(tracks@[old_order[pos as int] as int].track_id < tracks@[old_order[b - 1] as int].track_id);
                        }
                    }
                } else if a == pos {
                    assert(order@[b] == old_order[b - 1]);
                    assert(tracks@[old_order[pos as int] as int].track_id != id);
                    if b - 1 > pos {
                        assert(tracks@[old_order[pos as int] as int].track_id < tracks@[old_order[b - 1] as int].track_id);
                    }
                } else {
                    assert(order@[a] == old_order[a - 1]);
                    assert(order@[b] == old_order[b - 1]);
                }
            }
        }
        i = i + 1;
    }
    proof {
        let m = order@.map_values(|k: usize| k as int);
        assert forall|a: int, b: int|
            0 <= a < b < m.len() implies #[trigger] tracks@[m[a]].track_id
                < #[trigger] tracks@[m[b]].track_id by {
            assert(tracks@[order@[a] as int].track_id < tracks@[order@[b] as int].track_id);
        }
    }
    order
}

/// The probe of an MP4 file from its tracks: tracks taken in increasing track-id order,
/// audio and subtitle tracks numbered per kind, and the first of each kind marked
/// default (MP4 has no default flag; most players take the first).
pub fn probe_mp4_tracks(tracks: &Vec<Mp4Track>) -> (p: MediaProbe)
    requires
        distinct_track_ids(tracks@),
        tracks.len() < 0x8000_0000,
    ensures
        exists|order: Seq<int>|
            {
                &&& sorted_by_track_id(order, tracks@)
                &&& lists_kind_first(
                    p.audio_tracks@,
                    order.map_values(|k: int| mp4_view(tracks@[k])),
                    TrackKind::Audio,
                )
                &&& lists_kind_first(
                    p.subtitle_tracks@,
                    order.map_values(|k: int| mp4_view(tracks@[k])),
                    TrackKind::Subtitle,
                )
            },
{
    let order = order_by_track_id(tracks);
    let ghost ord = order@.map_values(|k: usize| k as int);
    let mut probed: Vec<ProbedTrack> = Vec::new();
    let mut i: usize = 0;
    let und = vec!['u', 'n', 'd'];
    while i < order.len()
        invariant
            i <= order.len(),
            und@ == seq!['u', 'n', 'd'],
            ord == order@.map_values(|k: usize| k as int),
            sorted_by_track_id(ord, tracks@),
            probed@.len() == i,
            forall|k: int| 0 <= k < i ==> #[trigger] probed@[k]@ == mp4_view(tracks@[ord[k]]),
        decreases order.len() - i,
    {
        assert(ord[i as int] == order@[i as int] as int);
        let t = &tracks[order[i]];
        let kind = match t.kind {
            Some(k) => k,
            None => TrackKind::Other,
        };
        let codec = match &t.codec {
            Some(c) => c.clone(),
            None => {
                let u = vec!['u', 'n', 'k', 'n', 'o', 'w', 'n'];
                string_of(&u)
            },
        };
        let lang = chars_of(t.language.as_str());
        let language = if crate::text::chars_eq(&lang, &und) || lang.len() == 0 {
            None
        } else {
            Some(t.language.clone())
        };
        let pt = ProbedTrack { kind, codec, language, title: None, is_default: false };
        assert(pt@ == mp4_view(*t));
        probed.push(pt);
        i = i + 1;
    }
    assert(track_views(probed@) =~= ord.map_values(|k: int| mp4_view(tracks@[k])));
    assemble_probe(&probed, true)
}

// ---------------------------------------------------------------------------
// ffprobe output
// ---------------------------------------------------------------------------

/// One stream of ffprobe's JSON output.
pub struct FfprobeStream {
    pub codec_type: String,
    pub codec_name: Option<String>,
    /// The `disposition` object, one pair per key.
    pub disposition: Vec<(String, i32)>,
    /// The `tags` object, one pair per key.
    pub tags: Vec<(String, String)>,
}

/// The value of the first pair whose key is `key`.
pub open spec fn lookup_text(m: Seq<(String, String)>, key: Seq<char>) -> Option<Seq<char>>
    decreases m.len(),
{
    if m.len() == 0 {
        None
    } else if m[0].0@ == key {
        Some(m[0].1@)
    } else {
        lookup_text(m.drop_first(), key)
    }
}

/// The value of the first pair whose key is `key`.
pub open spec fn lookup_int(m: Seq<(String, i32)>, key: Seq<char>) -> Option<i32>
    decreases m.len(),
{
    if m.len() == 0 {
        None
    } else if m[0].0@ == key {
        Some(m[0].1)
    } else {
        lookup_int(m.drop_first(), key)
    }
}

fn find_text(m: &Vec<(String, String)>, key: &Vec<char>) -> (r: Option<String>)
    ensures
        opt_view(r) == lookup_text(m@, key@),
{
    let mut i: usize = 0;
    assert(m@.skip(0) == m@);
    while i < m.len()
        invariant
            i <= m.len(),
            lookup_text(m@.skip(i as int), key@) == lookup_text(m@, key@),
        decreases m.len() - i,
    {
        let k = chars_of(m[i].0.as_str());
        if crate::text::chars_eq(&k, key) {
            assert(m@.skip(i as int)[0] == m@[i as int]);
            return Some(m[i].1.clone());
        }
        assert(m@.skip(i as int).drop_first() == m@.skip(i + 1));
        i = i + 1;
    }
    None
}

fn find_int(m: &Vec<(String, i32)>, key: &Vec<char>) -> (r: Option<i32>)
    ensures
        r == lookup_int(m@, key@),
{
    let mut i: usize = 0;
    assert(m@.skip(0) == m@);
    while i < m.len()
        invariant
            i <= m.len(),
            lookup_int(m@.skip(i as int), key@) == lookup_int(m@, key@),
        decreases m.len() - i,
    {
        let k = chars_of(m[i].0.as_str());
        if crate::text::chars_eq(&k, key) {
            assert(m@.skip(i as int)[0] == m@[i as int]);
            return Some(m[i].1);
        }
        assert(m@.skip(i as int).drop_first() == m@.skip(i + 1));
        i = i + 1;
    }
    None
}

/// How an ffprobe stream is offered: `audio` and `subtitle` codec types only; the codec
/// name or `unknown`; the `language` and `title` tags; default when the `default`
/// disposition is 1.
pub open spec fn ffprobe_view(s: FfprobeStream) -> TrackView {
    TrackView {
        kind: if s.codec_type@ == seq!['a', 'u', 'd', 'i', 'o'] {
            TrackKind::Audio
        } else if s.codec_type@ == seq!['s', 'u', 'b', 't', 'i', 't', 'l', 'e'] {
            TrackKind::Subtitle
        } else {
            TrackKind::Other
        },
        codec: match s.codec_name {
            Some(c) => c@,
            None => seq!['u', 'n', 'k', 'n', 'o', 'w', 'n'],
        },
        language: lookup_text(s.tags@, seq!['l', 'a', 'n', 'g', 'u', 'a', 'g', 'e']),
        title: lookup_text(s.tags@, seq!['t', 'i', 't', 'l', 'e']),
        is_default: lookup_int(s.disposition@, seq!['d', 'e', 'f', 'a', 'u', 'l', 't']) == Some(
            1i32,
        ),
    }
}

/// `out` offers the ffprobe streams of `streams` whose codec type is `codec_type`, each at
/// its position among them: the listed entry carries that position as its index, the
/// stream's codec name (or `unknown`), its `language` and `title` tags, and is default
/// exactly when the stream's `default` disposition is 1.
pub open spec fn offers_ffprobe(out: Seq<TrackInfo>, streams: Seq<FfprobeStream>, codec_type: Seq<char>, kind: TrackKind) -> bool {
    forall|i: int| #![trigger streams[i]] 0 <= i < streams.len() && streams[i].codec_type@ == codec_type ==> {
        let j = count_kind(streams.map_values(|s: FfprobeStream| ffprobe_view(s)), kind, i) as int;
        &&& 0 <= j < out.len()
        &&& out[j].index == j
        &&& out[j].is_default == (lookup_int(streams[i].disposition@, seq!['d', 'e', 'f', 'a', 'u', 'l', 't']) == Some(1i32))
        &&& out[j].codec@ == match streams[i].codec_name {
            Some(c) => c@,
            None => seq!['u', 'n', 'k', 'n', 'o', 'w', 'n'],
        }
        &&& opt_view(out[j].language) == lookup_text(streams[i].tags@, seq!['l', 'a', 'n', 'g', 'u', 'a', 'g', 'e'])
        &&& opt_view(out[j].title) == lookup_text(streams[i].tags@, seq!['t', 'i', 't', 'l', 'e'])
    }
}

/// Listing ffprobe streams keeps what each stream says of itself: every `audio` and every
/// `subtitle` stream is offered with its own codec, language, title and default
/// disposition, at its position among the streams of its kind.
pub proof fn lemma_ffprobe_streams_keep_their_fields(streams: Seq<FfprobeStream>, audio: Seq<TrackInfo>, subs: Seq<TrackInfo>)
    requires
        lists_kind(audio, streams.map_values(|s: FfprobeStream| ffprobe_view(s)), TrackKind::Audio),
        lists_kind(subs, streams.map_values(|s: FfprobeStream| ffprobe_view(s)), TrackKind::Subtitle),
    ensures
        offers_ffprobe(audio, streams, seq!['a', 'u', 'd', 'i', 'o'], TrackKind::Audio),
        offers_ffprobe(subs, streams, seq!['s', 'u', 'b', 't', 'i', 't', 'l', 'e'], TrackKind::Subtitle),
{
    let views = streams.map_values(|s: FfprobeStream| ffprobe_view(s));
    let a = seq!['a', 'u', 'd', 'i', 'o'];
    let t = seq!['s', 'u', 'b', 't', 'i', 't', 'l', 'e'];
    assert(a != t) by {
        assert(a.len() != t.len());
    }
    assert forall|i: int| 0 <= i < streams.len() && #[trigger] streams[i].codec_type@ == a implies {
        let j = count_kind(views, TrackKind::Audio, i) as int;
        &&& 0 <= j < audio.len()
        &&& describes(audio[j], views[i], j, views[i].is_default)
    } by {
        assert(views[i] == ffprobe_view(streams[i]));
        lemma_count_kind_lt(views, TrackKind::Audio, i);
    }
    assert forall|i: int| 0 <= i < streams.len() && #[trigger] streams[i].codec_type@ == t implies {
        let j = count_kind(views, TrackKind::Subtitle, i) as int;
        &&& 0 <= j < subs.len()
        &&& describes(subs[j], views[i], j, views[i].is_default)
    } by {
        assert(views[i] == ffprobe_view(streams[i]));
        lemma_count_kind_lt(views, TrackKind::Subtitle, i);
    }
}

/// The probe of a file from ffprobe's streams: audio and subtitle streams numbered per
/// kind in stream order, each default when its `default` disposition is 1.
pub fn probe_ffprobe_streams(streams: &Vec<FfprobeStream>) -> (p: MediaProbe)
    requires
        streams.len() < 0x8000_0000,
    ensures
        lists_kind(
            p.audio_tracks@,
            streams@.map_values(|s: FfprobeStream| ffprobe_view(s)),
            TrackKind::Audio,
        ),
        lists_kind(
            p.subtitle_tracks@,
            streams@.map_values(|s: FfprobeStream| ffprobe_view(s)),
            TrackKind::Subtitle,
        ),
        offers_ffprobe(p.audio_tracks@, streams@, seq!['a', 'u', 'd', 'i', 'o'], TrackKind::Audio),
        offers_ffprobe(p.subtitle_tracks@, streams@, seq!['s', 'u', 'b', 't', 'i', 't', 'l', 'e'], TrackKind::Subtitle),
{
    let audio_lit = vec!['a', 'u', 'd', 'i', 'o'];
    let sub_lit = vec!['s', 'u', 'b', 't', 'i', 't', 'l', 'e'];
    let lang_key = vec!['l', 'a', 'n', 'g', 'u', 'a', 'g', 'e'];
    let title_key = vec!['t', 'i', 't', 'l', 'e'];
    let default_key = vec!['d', 'e', 'f', 'a', 'u', 'l', 't'];
    let mut probed: Vec<ProbedTrack> = Vec::new();
    let mut i: usize = 0;
    while i < streams.len()
        invariant
            i <= streams.len(),
            audio_lit@ == seq!['a', 'u', 'd', 'i', 'o'],
            sub_lit@ == seq!['s', 'u', 'b', 't', 'i', 't', 'l', 'e'],
            lang_key@ == seq!['l', 'a', 'n', 'g', 'u', 'a', 'g', 'e'],
            title_key@ == seq!['t', 'i', 't', 'l', 'e'],
            default_key@ == seq!['d', 'e', 'f', 'a', 'u', 'l', 't'],
            probed@.len() == i,
            forall|k: int| 0 <= k < i ==> #[trigger] probed@[k]@ == ffprobe_view(streams@[k]),
        decreases streams.len() - i,
    {
        let s = &streams[i];
        let ty = chars_of(s.codec_type.as_str());
        let kind = if crate::text::chars_eq(&ty, &audio_lit) {
            TrackKind::Audio
        } else if crate::text::chars_eq(&ty, &sub_lit) {
            TrackKind::Subtitle
        } else {
            TrackKind::Other
        };
        let codec = match &s.codec_name {
            Some(c) => c.clone(),
            None => {
                let u = vec!['u', 'n', 'k', 'n', 'o', 'w', 'n'];
                string_of(&u)
            },
        };
        let d = find_int(&s.disposition, &default_key);
        let is_default = match d {
            Some(v) => v == 1,
            None => false,
        };
        let pt = ProbedTrack {
            kind,
            codec,
            language: find_text(&s.tags, &lang_key),
            title: find_text(&s.tags, &title_key),
            is_default,
        };
        assert(pt@ == ffprobe_view(*s));
        probed.push(pt);
        i = i + 1;
    }
    assert(track_views(probed@) =~= streams@.map_values(|s: FfprobeStream| ffprobe_view(s)));
    let p = assemble_probe(&probed, false);
    proof {
        lemma_ffprobe_streams_keep_their_fields(streams@, p.audio_tracks@, p.subtitle_tracks@);
    }
    p
}

// ---------------------------------------------------------------------------
// Choosing a prober
// ---------------------------------------------------------------------------

/// The built-in container readers.
#[derive(Clone, Copy, PartialEq, Eq, Structural, Debug)]
pub enum NativeProber {
    /// `mkv` and `webm` files.
    Matroska,
    /// `mp4`, `m4v` and `mov` files.
    Mp4,
}

/// `"no native prober for ."`.
pub open spec fn lit_no_prober() -> Seq<char> {
    seq![
        'n', 'o', ' ', 'n', 'a', 't', 'i', 'v', 'e', ' ', 'p', 'r', 'o', 'b', 'e', 'r', ' ', 'f',
        'o', 'r', ' ', '.'
    ]
}

/// The reader for a file extension (compared ASCII-case-insensitively), or the error
/// text naming the lowercased extension.
pub open spec fn prober_for(ext: Seq<char>) -> Result<NativeProber, Seq<char>> {
    let e = ascii_lowercase(ext);
    if e == seq!['m', 'k', 'v'] || e == seq!['w', 'e', 'b', 'm'] {
        Ok(NativeProber::Matroska)
    } else if e == seq!['m', 'p', '4'] || e == seq!['m', '4', 'v'] || e == seq!['m', 'o', 'v'] {
        Ok(NativeProber::Mp4)
    } else {
        Err(lit_no_prober() + e)
    }
}

/// Picks the built-in reader for a file extension (see `prober_for`).
pub fn choose_prober(ext: &str) -> (r: Result<NativeProber, String>)
    ensures
        match (r, prober_for(ext@)) {
            (Ok(a), Ok(b)) => a == b,
            (Err(m), Err(t)) => m@ == t,
            _ => false,
        },
{
    let raw = chars_of(ext);
    let e = to_ascii_lowercase(&raw);
    if crate::text::chars_eq(&e, &vec!['m', 'k', 'v']) || crate::text::chars_eq(
        &e,
        &vec!['w', 'e', 'b', 'm'],
    ) {
        Ok(NativeProber::Matroska)
    } else if crate::text::chars_eq(&e, &vec!['m', 'p', '4']) || crate::text::chars_eq(
        &e,
        &vec!['m', '4', 'v'],
    ) || crate::text::chars_eq(&e, &vec!['m', 'o', 'v']) {
        Ok(NativeProber::Mp4)
    } else {
        let mut msg = vec![
            'n', 'o', ' ', 'n', 'a', 't', 'i', 'v', 'e', ' ', 'p', 'r', 'o', 'b', 'e', 'r', ' ',
            'f', 'o', 'r', ' ', '.'
        ];
        push_all(&mut msg, &e);
        Err(string_of(&msg))
    }
}

/// The error text when neither the built-in reader nor ffprobe could read a file:
/// `could not probe file (native: {native}; ffprobe: {ffprobe})`.
pub open spec fn probe_failure_text(native: Seq<char>, ffprobe: Seq<char>) -> Seq<char> {
    seq![
        'c', 'o', 'u', 'l', 'd', ' ', 'n', 'o', 't', ' ', 'p', 'r', 'o', 'b', 'e', ' ', 'f', 'i',
        'l', 'e', ' ', '(', 'n', 'a', 't', 'i', 'v', 'e', ':', ' '
    ] + native + seq![';', ' ', 'f', 'f', 'p', 'r', 'o', 'b', 'e', ':', ' '] + ffprobe + seq![')']
}

/// Builds the error text of `probe_failure_text`.
pub fn probe_failure_message(native: &str, ffprobe: &str) -> (r: String)
    ensures
        r@ == probe_failure_text(native@, ffprobe@),
{
    let mut msg = vec![
        'c', 'o', 'u', 'l', 'd', ' ', 'n', 'o', 't', ' ', 'p', 'r', 'o', 'b', 'e', ' ', 'f', 'i',
        'l', 'e', ' ', '(', 'n', 'a', 't', 'i', 'v', 'e', ':', ' '
    ];
    let n = chars_of(native);
    push_all(&mut msg, &n);
    let mid = vec![';', ' ', 'f', 'f', 'p', 'r', 'o', 'b', 'e', ':', ' '];
    push_all(&mut msg, &mid);
    let f = chars_of(ffprobe);
    push_all(&mut msg, &f);
    msg.push(')');
    string_of(&msg)
}

/// What a media probe ends in, given the outcome of the built-in reader and, when that
/// failed, of ffprobe: the first success, else the combined error text.
pub fn settle_probe(
    native: Result<MediaProbe, String>,
    ffprobe: Option<Result<MediaProbe, String>>,
) -> (r: Result<MediaProbe, String>)
    requires
        native is Err ==> ffprobe is Some,
    ensures
        native is Ok ==> r == native,
        native matches Err(ne) ==> match ffprobe {
            Some(Ok(p)) => r == Ok::<MediaProbe, String>(p),
            Some(Err(fe)) => r matches Err(m) && m@ == probe_failure_text(ne@, fe@),
            None => false,
        },
{
    match native {
        Ok(p) => Ok(p),
        Err(ne) => match ffprobe {
            Some(Ok(p)) => Ok(p),
            Some(Err(fe)) => Err(probe_failure_message(ne.as_str(), fe.as_str())),
            None => Err(ne),
        },
    }
}

} // verus!

