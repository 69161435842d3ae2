//! The content-addressed wallpaper cache, as logic over file names.
//!
//! A wallpaper downloaded for digest `d` with extension `e` is stored under
//! the name `d.e`; a later cycle recognises it by its stem (the name up to
//! its last dot, dots at the very start not counting, as the platform's
//! `file_stem` reads names).  The driver lists the cache directory and
//! writes files; everything decided about the names happens here.

use vstd::prelude::*;

verus! {

/// The stem of a file name: the name up to its last `.`, where a dot at the
/// first position starts no extension (a name like `.png` is all stem).
pub open spec fn stem_of(s: Seq<char>) -> Seq<char>
    decreases s.len(),
{
    if s.len() <= 1 {
        s
    } else if s.last() == '.' {
        s.drop_last()
    } else {
        let t = stem_of(s.drop_last());
        if t == s.drop_last() {
            s
        } else {
            t
        }
    }
}

/// The file name a wallpaper for `digest` with extension `ext` is stored
/// under: `<digest>.<ext>`.
pub open spec fn cache_name(digest: Seq<char>, ext: Seq<char>) -> Seq<char> {
    digest + seq!['.'] + ext
}

/// A name whose characters after the first are no dots keeps its stem whole.
proof fn lemma_stem_no_late_dot(s: Seq<char>)
    requires
        forall|i: int| 1 <= i < s.len() ==> s[i] != '.',
    ensures
        stem_of(s) == s,
    decreases s.len(),
{
    if s.len() > 1 {
        lemma_stem_no_late_dot(s.drop_last());
    }
}

/// The stem cuts a name at its last dot, when that dot is not the first
/// character.
proof fn lemma_stem_at_last_dot(s: Seq<char>, j: int)
    requires
        1 <= j < s.len(),
        s[j] == '.',
        forall|i: int| j < i < s.len() ==> s[i] != '.',
    ensures
        stem_of(s) == s.subrange(0, j),
    decreases s.len(),
{
    if j == s.len() - 1 {
        assert(s.last() == '.');
        assert(s.drop_last() =~= s.subrange(0, j));
    } else {
        lemma_stem_at_last_dot(s.drop_last(), j);
        assert(stem_of(s.drop_last()) == s.drop_last().subrange(0, j));
        assert(s.drop_last().subrange(0, j) =~= s.subrange(0, j));
        assert(s.subrange(0, j).len() != s.drop_last().len());
    }
}

/// Law (cache round trip): a file stored for a nonempty digest under a
/// dot-free extension is found again under that digest — the stem of
/// `<digest>.<ext>` is the digest itself.  (An extension that itself holds a
/// dot, as in a `vnd.`-style subtype, moves the stem past the digest, so it
/// is left out here.)
pub proof fn lemma_cache_round_trip(digest: Seq<char>, ext: Seq<char>)
    requires
        digest.len() >= 1,
        forall|i: int| 0 <= i < ext.len() ==> ext[i] != '.',
    ensures
        stem_of(cache_name(digest, ext)) == digest,
    decreases ext.len(),
{
    let s = cache_name(digest, ext);
    if ext.len() == 0 {
        assert(s.last() == '.');
        assert(s.drop_last() =~= digest);
    } else {
        let shorter = ext.drop_last();
        lemma_cache_round_trip(digest, shorter);
        assert(s.drop_last() =~= cache_name(digest, shorter));
        assert(s.last() == ext.last());
        assert(s.last() != '.') by {
            assert(ext[ext.len() - 1] != '.');
        }
        assert(stem_of(s.drop_last()).len() != s.drop_last().len());
    }
}

/// Computes the stem of a file name, as `stem_of` describes it.
pub fn file_stem(name: &str) -> (r: &str)
    ensures
        r@ == stem_of(name@),
{
    let n = name.unicode_len();
    let mut dot_at: usize = 0;
    let mut i: usize = 1;
    while i < n
        invariant
            n == name@.len(),
            1 <= i || n == 0,
            i <= n || (n == 0 && i == 1),
            dot_at < i,
            dot_at >= 1 ==> name@[dot_at as int] == '.',
            forall|k: int| dot_at < k < i ==> name@[k] != '.',
            dot_at == 0 ==> forall|k: int| 1 <= k < i ==> name@[k] != '.',
        decreases n - i,
    {
        if name.get_char(i) == '.' {
            dot_at = i;
        }
        i = i + 1;
    }
    if dot_at == 0 {
        proof {
            lemma_stem_no_late_dot(name@);
        }
        name
    } else {
        proof {
            lemma_stem_at_last_dot(name@, dot_at as int);
        }
        name.substring_char(0, dot_at)
    }
}

/// Compares two strings character by character.
pub fn str_eq(a: &str, b: &str) -> (r: bool)
    ensures
        r == (a@ == b@),
{
    let n = a.unicode_len();
    if n != b.unicode_len() {
        return false;
    }
    let mut i: usize = 0;
    while i < n
        invariant
            n == a@.len() == b@.len(),
            i <= n,
            forall|k: int| 0 <= k < i ==> a@[k] == b@[k],
        decreases n - i,
    {
        if a.get_char(i) != b.get_char(i) {
            return false;
        }
        i = i + 1;
    }
    proof {
        assert(a@ =~= b@);
    }
    true
}

/// Looks a digest up in a cache directory listing: the position of the first
/// entry whose stem is the digest, if any entry's is.
pub fn find_wallpaper_path(entries: &Vec<String>, digest: &str) -> (r: Option<usize>)
    ensures
        match r {
            Some(i) => i < entries@.len() && stem_of(entries@[i as int]@) == digest@ && (forall|
                k: int,
            | 0 <= k < i ==> stem_of(entries@[k]@) != digest@),
            None => forall|k: int| 0 <= k < entries@.len() ==> stem_of(entries@[k]@) != digest@,
        },
{
    let n = entries.len();
    let mut i: usize = 0;
    while i < n
        invariant
            n == entries@.len(),
            i <= n,
            forall|k: int| 0 <= k < i ==> stem_of(entries@[k]@) != digest@,
        decreases n - i,
    {
        let stem = file_stem(entries[i].as_str());
        if str_eq(stem, digest) {
            return Some(i);
        }
        i = i + 1;
    }
    None
}

/// Builds the file name a wallpaper for `digest` with extension `ext` is
/// stored under.
pub fn wallpaper_file_name(digest: &str, ext: &str) -> (r: String)
    ensures
        r@ == cache_name(digest@, ext@),
{
    let mut name = digest.to_owned();
    name.append(".");
    name.append(ext);
    proof {
        reveal_strlit(".");
        assert(name@ =~= cache_name(digest@, ext@));
    }
    name
}

} // verus!
