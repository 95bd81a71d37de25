//! File names, stems and extensions of `/`-separated paths (as `std::path::Path` reads them).

use vstd::prelude::*;

use crate::text::{chars_of, slice_from, slice_to, string_of};

verus! {

/// Index of the last occurrence of `c` in `s`, or -1.
pub open spec fn last_index_of(s: Seq<char>, c: char) -> int
    decreases s.len(),
{
    if s.len() == 0 {
        -1
    } else if s.last() == c {
        s.len() - 1
    } else {
        last_index_of(s.drop_last(), c)
    }
}

/// The final component of a path (`Path::file_name`): the last `/`-separated piece that is
/// neither empty nor `.`; `None` when there is none or it is `..`.
pub open spec fn file_name(p: Seq<char>) -> Option<Seq<char>>
    decreases p.len(),
{
    let k = last_index_of(p, '/');
    let piece = p.skip(k + 1);
    if piece.len() == 0 || piece == seq!['.'] {
        if k >= 0 {
            proof {
                lemma_last_index_bounds(p, '/');
            }
            file_name(p.take(k))
        } else {
            None
        }
    } else if piece == seq!['.', '.'] {
        None
    } else {
        Some(piece)
    }
}

/// Where the final component of a path starts (meaningful when `file_name` is `Some`).
pub open spec fn file_name_start(p: Seq<char>) -> int
    decreases p.len(),
{
    let k = last_index_of(p, '/');
    let piece = p.skip(k + 1);
    if piece.len() == 0 || piece == seq!['.'] {
        if k >= 0 {
            proof {
                lemma_last_index_bounds(p, '/');
            }
            file_name_start(p.take(k))
        } else {
            0
        }
    } else {
        k + 1
    }
}

/// `file_name` is the piece of the path that starts at `file_name_start`.
pub proof fn lemma_file_name_start(p: Seq<char>)
    ensures
        file_name(p) matches Some(n) ==> {
            &&& 0 <= file_name_start(p)
            &&& file_name_start(p) + n.len() <= p.len()
            &&& p.subrange(file_name_start(p), file_name_start(p) + n.len()) == n
        },
    decreases p.len(),
{
    lemma_last_index_bounds(p, '/');
    let k = last_index_of(p, '/');
    let piece = p.skip(k + 1);
    if piece.len() == 0 || piece == seq!['.'] {
        if k >= 0 {
            lemma_file_name_start(p.take(k));
            if file_name(p) is Some {
                let n = file_name(p)->0;
                assert(p.take(k).subrange(file_name_start(p), file_name_start(p) + n.len())
                    == p.subrange(file_name_start(p), file_name_start(p) + n.len()));
            }
        }
    } else if file_name(p) is Some {
        assert(p.subrange(k + 1, p.len() as int) == piece);
    }
}

/// `PathBuf::set_extension`: the path cut right after the final component's stem, then
/// `.` and the new extension (nothing when it is empty); unchanged when the path has no
/// final component.
pub open spec fn set_extension(p: Seq<char>, ext: Seq<char>) -> Seq<char> {
    match file_name(p) {
        None => p,
        Some(n) => p.take(file_name_start(p) + split_extension(n).0.len()) + if ext.len() > 0 {
            seq!['.'] + ext
        } else {
            Seq::empty()
        },
    }
}

/// `Path::with_extension`: as many characters as the old extension has are cut from the
/// end of the path (none when it has no extension), then `set_extension` applies.
pub open spec fn with_extension(p: Seq<char>, ext: Seq<char>) -> Seq<char> {
    match extension_of(p) {
        None => set_extension(p, ext),
        Some(old) => set_extension(p.take(p.len() - old.len()), ext),
    }
}

/// The stem and extension of a file name (`Path::file_stem` / `Path::extension`): split at
/// the last `.`, unless there is none or the only one is the first character.
pub open spec fn split_extension(name: Seq<char>) -> (Seq<char>, Option<Seq<char>>) {
    let i = last_index_of(name, '.');
    if i <= 0 {
        (name, None)
    } else {
        (name.take(i), Some(name.skip(i + 1)))
    }
}

/// `Path::extension` of a path.
pub open spec fn extension_of(p: Seq<char>) -> Option<Seq<char>> {
    match file_name(p) {
        Some(n) => split_extension(n).1,
        None => None,
    }
}

/// `Path::file_stem` of a path.
pub open spec fn stem_of(p: Seq<char>) -> Option<Seq<char>> {
    match file_name(p) {
        Some(n) => Some(split_extension(n).0),
        None => None,
    }
}

pub proof fn lemma_last_index_bounds(s: Seq<char>, c: char)
    ensures
        -1 <= last_index_of(s, c) < s.len(),
        last_index_of(s, c) >= 0 ==> s[last_index_of(s, c)] == c,
        forall|j: int| last_index_of(s, c) < j < s.len() ==> s[j] != c,
    decreases s.len(),
{
    if s.len() > 0 && s.last() != c {
        lemma_last_index_bounds(s.drop_last(), c);
        assert forall|j: int| last_index_of(s, c) < j < s.len() implies s[j] != c by {
            if j < s.len() - 1 {
                assert(s[j] == s.drop_last()[j]);
            }
        }
    }
}

/// Exec form of `last_index_of` on the first `n` characters: `None` for -1.
fn last_index(s: &Vec<char>, n: usize, c: char) -> (r: Option<usize>)
    requires
        n <= s.len(),
    ensures
        match r {
            Some(j) => j as int == last_index_of(s@.take(n as int), c),
            None => last_index_of(s@.take(n as int), c) == -1,
        },
{
    let mut j: usize = n;
    while j > 0 && s[j - 1] != c
        invariant
            j <= n <= s.len(),
            last_index_of(s@.take(j as int), c) == last_index_of(s@.take(n as int), c),
        decreases j,
    {
        assert(s@.take(j as int).drop_last() == s@.take(j - 1));
        j = j - 1;
    }
    if j == 0 {
        assert(s@.take(0) =~= Seq::<char>::empty());
        None
    } else {
        assert(s@.take(j as int).last() == c);
        Some(j - 1)
    }
}

/// Exec form of `file_name`.
pub fn file_name_chars(p: &Vec<char>) -> (r: Option<(Vec<char>, usize)>)
    ensures
        match r {
            Some((v, start)) => file_name(p@) == Some(v@) && start as int == file_name_start(p@),
            None => file_name(p@) is None,
        },
{
    let mut n: usize = p.len();
    assert(p@.take(n as int) == p@);
    loop
        invariant
            n <= p.len(),
            file_name(p@.take(n as int)) == file_name(p@),
            file_name_start(p@.take(n as int)) == file_name_start(p@),
        decreases n,
    {
        let ghost q = p@.take(n as int);
        let k = last_index(p, n, '/');
        proof {
            lemma_last_index_bounds(q, '/');
        }
        let start: usize = match k {
            Some(j) => j + 1,
            None => 0,
        };
        let prefix = slice_to(p, n);
        let piece = slice_from(&prefix, start);
        assert(piece@ == q.skip(last_index_of(q, '/') + 1));
        let dot = vec!['.'];
        let dotdot = vec!['.', '.'];
        assert(dot@ == seq!['.']);
        assert(dotdot@ == seq!['.', '.']);
        if piece.len() == 0 || crate::text::chars_eq(&piece, &dot) {
            match k {
                Some(j) => {
                    assert(q.take(j as int) == p@.take(j as int));
                    n = j;
                },
                None => {
                    assert(file_name(q) is None);
                    return None;
                },
            }
        } else if crate::text::chars_eq(&piece, &dotdot) {
            assert(file_name(q) is None);
            return None;
        } else {
            assert(file_name(q) == Some(piece@));
            return Some((piece, start));
        }
    }
}

/// Exec form of `split_extension`.
pub fn split_extension_chars(name: &Vec<char>) -> (r: (Vec<char>, Option<Vec<char>>))
    ensures
        r.0@ == split_extension(name@).0,
        match r.1 {
            Some(e) => split_extension(name@).1 == Some(e@),
            None => split_extension(name@).1 is None,
        },
{
    let i = last_index(name, name.len(), '.');
    assert(name@.take(name.len() as int) == name@);
    proof {
        lemma_last_index_bounds(name@, '.');
    }
    match i {
        Some(j) if j > 0 => {
            let stem = slice_to(name, j);
            let ext = slice_from(name, j + 1);
            (stem, Some(ext))
        },
        _ => (name.clone(), None),
    }
}

/// `Path::extension` of a path, as text.
pub fn path_extension(p: &str) -> (r: Option<String>)
    ensures
        match r {
            Some(e) => extension_of(p@) == Some(e@),
            None => extension_of(p@) is None,
        },
{
    let v = chars_of(p);
    match file_name_chars(&v) {
        Some((n, _)) => {
            let (_, e) = split_extension_chars(&n);
            match e {
                Some(e) => Some(string_of(&e)),
                None => None,
            }
        },
        None => None,
    }
}

/// `Path::file_stem` of a path, as text.
pub fn path_file_stem(p: &str) -> (r: Option<String>)
    ensures
        match r {
            Some(e) => stem_of(p@) == Some(e@),
            None => stem_of(p@) is None,
        },
{
    let v = chars_of(p);
    match file_name_chars(&v) {
        Some((n, _)) => {
            let (s, _) = split_extension_chars(&n);
            Some(string_of(&s))
        },
        None => None,
    }
}

/// `Path::file_name` of a path, as text.
pub fn path_file_name(p: &str) -> (r: Option<String>)
    ensures
        match r {
            Some(n) => file_name(p@) == Some(n@),
            None => file_name(p@) is None,
        },
{
    let v = chars_of(p);
    match file_name_chars(&v) {
        Some((n, _)) => Some(string_of(&n)),
        None => None,
    }
}

/// `PathBuf::set_extension` on characters (see `set_extension`).
fn set_extension_chars(v: Vec<char>, ext: &str) -> (r: String)
    ensures
        r@ == set_extension(v@, ext@),
{
    match file_name_chars(&v) {
        Some((n, start)) => {
            proof {
                lemma_file_name_start(v@);
            }
            assert(file_name(v@) == Some(n@));
            assert(start + n@.len() <= v@.len());
            let (stem, _) = split_extension_chars(&n);
            assert(stem@.len() <= n@.len()) by {
                lemma_last_index_bounds(n@, '.');
            }
            assert(start + stem@.len() <= v@.len());
            let sl = stem.len();
            let vl = v.len();
            assert(start + sl <= vl);
            let cut: usize = start + sl;
            let mut out = slice_to(&v, cut);
            let e = chars_of(ext);
            if e.len() > 0 {
                out.push('.');
                crate::text::push_all(&mut out, &e);
            } else {
                assert(out@ + Seq::<char>::empty() == out@);
            }
            string_of(&out)
        },
        None => string_of(&v),
    }
}

/// `Path::with_extension` (see `with_extension`).
pub fn path_with_extension(p: &str, ext: &str) -> (r: String)
    ensures
        r@ == with_extension(p@, ext@),
{
    let v = chars_of(p);
    match file_name_chars(&v) {
        Some((n, _)) => {
            proof {
                lemma_file_name_start(v@);
            }
            let (_, e) = split_extension_chars(&n);
            match e {
                Some(old) => {
                    proof {
                        lemma_last_index_bounds(n@, '.');
                    }
                    assert(old@.len() <= n@.len());
                    let cut: usize = v.len() - old.len();
                    let q = slice_to(&v, cut);
                    set_extension_chars(q, ext)
                },
                None => set_extension_chars(v, ext),
            }
        },
        None => set_extension_chars(v, ext),
    }
}

} // verus!
