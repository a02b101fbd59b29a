//! Path handling over plain strings.
//!
//! Paths are modelled as strings whose components are separated by `/`
//! or `\`.  The directory part of a path is everything up to and
//! including the last separator, so joining it back with a file name
//! never needs a new separator.

use vstd::prelude::*;

verus! {

/// A path separator: the usual `/`, or the `\` of Windows paths.
pub open spec fn is_sep(c: char) -> bool {
    c == '/' || c == '\\'
}

/// The index just after the last separator of `p`, or `0` when `p`
/// has none.
pub open spec fn split_idx(p: Seq<char>) -> int
    decreases p.len(),
{
    if p.len() == 0 {
        0
    } else if is_sep(p[p.len() - 1]) {
        p.len() as int
    } else {
        split_idx(p.drop_last())
    }
}

pub proof fn lemma_split_idx_bounds(p: Seq<char>)
    ensures
        0 <= split_idx(p) <= p.len(),
    decreases p.len(),
{
    if p.len() != 0 && !is_sep(p[p.len() - 1]) {
        lemma_split_idx_bounds(p.drop_last());
    }
}

/// The directory part of `p`: everything up to and including the last
/// separator; empty when `p` has no separator.
pub open spec fn dir_prefix_of(p: Seq<char>) -> Seq<char> {
    p.subrange(0, split_idx(p))
}

/// The file-name part of `p`: everything after the last separator.
pub open spec fn file_name_of(p: Seq<char>) -> Seq<char> {
    p.subrange(split_idx(p), p.len() as int)
}

/// The index of the last `.` of `n` that does not stand first, or `0`
/// when there is none.  Index `0` never counts as an extension dot, so
/// a name that only starts with a dot has no extension.
pub open spec fn dot_idx(n: Seq<char>) -> int
    decreases n.len(),
{
    if n.len() <= 1 {
        0
    } else if n[n.len() - 1] == '.' {
        n.len() - 1
    } else {
        dot_idx(n.drop_last())
    }
}

pub proof fn lemma_dot_idx_bounds(n: Seq<char>)
    ensures
        0 <= dot_idx(n),
        n.len() == 0 ==> dot_idx(n) == 0,
        n.len() > 0 ==> dot_idx(n) < n.len(),
    decreases n.len(),
{
    if n.len() > 1 && n[n.len() - 1] != '.' {
        lemma_dot_idx_bounds(n.drop_last());
    }
}

/// The file name `n` without its extension.
pub open spec fn file_stem_of(n: Seq<char>) -> Seq<char> {
    if dot_idx(n) == 0 {
        n
    } else {
        n.subrange(0, dot_idx(n))
    }
}

/// The extension of the file name `n`, without the dot.
pub open spec fn extension_of(n: Seq<char>) -> Option<Seq<char>> {
    if dot_idx(n) == 0 {
        None
    } else {
        Some(n.subrange(dot_idx(n) + 1, n.len() as int))
    }
}

/// `dir` and `name` joined with a separator, unless `dir` is empty or
/// already ends with one.
pub open spec fn join_path(dir: Seq<char>, name: Seq<char>) -> Seq<char> {
    if dir.len() == 0 {
        name
    } else if is_sep(dir[dir.len() - 1]) {
        dir + name
    } else {
        dir + "/"@ + name
    }
}

/// What `join_path` puts in front of the file name: the directory,
/// with a separator when it needs one.
pub open spec fn join_prefix(dir: Seq<char>) -> Seq<char> {
    if dir.len() == 0 {
        Seq::empty()
    } else if is_sep(dir[dir.len() - 1]) {
        dir
    } else {
        dir + "/"@
    }
}

pub proof fn lemma_join_as_concat(dir: Seq<char>, name: Seq<char>)
    ensures
        join_path(dir, name) == join_prefix(dir) + name,
{
    if dir.len() == 0 {
        assert(Seq::empty() + name =~= name);
    }
}

pub proof fn lemma_split_idx_sep(p: Seq<char>)
    ensures
        split_idx(p) > 0 ==> is_sep(p[split_idx(p) - 1]),
    decreases p.len(),
{
    if p.len() != 0 && !is_sep(p[p.len() - 1]) {
        lemma_split_idx_sep(p.drop_last());
        lemma_split_idx_bounds(p.drop_last());
        if split_idx(p) > 0 {
            assert(p.drop_last()[split_idx(p) - 1] == p[split_idx(p) - 1]);
        }
    }
}

/// Joining a path's own directory part back with a file name is plain
/// concatenation: the part is empty or already ends with a separator.
pub proof fn lemma_dir_prefix_join(p: Seq<char>, name: Seq<char>)
    ensures
        join_path(dir_prefix_of(p), name) == dir_prefix_of(p) + name,
{
    lemma_split_idx_bounds(p);
    lemma_split_idx_sep(p);
    let d = dir_prefix_of(p);
    if d.len() == 0 {
        assert(d + name =~= name);
    } else {
        assert(d[d.len() - 1] == p[split_idx(p) - 1]);
    }
}

/// `needle` occurs contiguously in `hay`.
pub open spec fn spec_contains(hay: Seq<char>, needle: Seq<char>) -> bool {
    exists|i: int|
        0 <= i && i + needle.len() <= hay.len() && #[trigger] hay.subrange(i, i + needle.len())
            == needle
}

fn split_index(p: &str) -> (r: usize)
    ensures
        r as int == split_idx(p@),
        0 <= split_idx(p@) <= p@.len(),
{
    proof {
        lemma_split_idx_bounds(p@);
    }
    let len = p.unicode_len();
    let mut i: usize = len;
    proof {
        assert(p@.subrange(0, len as int) =~= p@);
    }
    while i > 0
        invariant
            i <= len,
            len == p@.len(),
            split_idx(p@) == split_idx(p@.subrange(0, i as int)),
        decreases i,
    {
        let c = p.get_char(i - 1);
        if c == '/' || c == '\\' {
            proof {
                let q = p@.subrange(0, i as int);
                assert(is_sep(q[q.len() - 1]));
            }
            return i;
        }
        proof {
            let q = p@.subrange(0, i as int);
            assert(!is_sep(q[q.len() - 1]));
            assert(q.drop_last() =~= p@.subrange(0, i as int - 1));
        }
        i = i - 1;
    }
    proof {
        assert(p@.subrange(0, 0) =~= Seq::<char>::empty());
    }
    0
}

/// The file-name part of `p`: everything after the last separator.
pub fn file_name(p: &str) -> (r: String)
    ensures
        r@ == file_name_of(p@),
{
    let len = p.unicode_len();
    let s = split_index(p);
    let sub = p.substring_char(s, len);
    sub.to_owned()
}

/// The directory part of `p`, including the trailing separator.
pub fn dir_prefix(p: &str) -> (r: String)
    ensures
        r@ == dir_prefix_of(p@),
{
    let s = split_index(p);
    let sub = p.substring_char(0, s);
    sub.to_owned()
}

fn stem_dot_index(n: &str) -> (r: usize)
    ensures
        r as int == dot_idx(n@),
        0 <= dot_idx(n@),
        n@.len() > 0 ==> dot_idx(n@) < n@.len(),
{
    proof {
        lemma_dot_idx_bounds(n@);
    }
    let len = n.unicode_len();
    let mut i: usize = len;
    proof {
        assert(n@.subrange(0, len as int) =~= n@);
    }
    while i > 1
        invariant
            i <= len,
            len == n@.len(),
            dot_idx(n@) == dot_idx(n@.subrange(0, i as int)),
        decreases i,
    {
        let c = n.get_char(i - 1);
        if c == '.' {
            proof {
                let q = n@.subrange(0, i as int);
                assert(q[q.len() - 1] == '.');
            }
            return i - 1;
        }
        proof {
            let q = n@.subrange(0, i as int);
            assert(q[q.len() - 1] != '.');
            assert(q.drop_last() =~= n@.subrange(0, i as int - 1));
        }
        i = i - 1;
    }
    0
}

/// The file name `n` without its extension.
pub fn file_stem(n: &str) -> (r: String)
    ensures
        r@ == file_stem_of(n@),
{
    let d = stem_dot_index(n);
    if d == 0 {
        n.to_owned()
    } else {
        let sub = n.substring_char(0, d);
        sub.to_owned()
    }
}

/// The extension of the file name `n`, without the dot.
pub fn extension(n: &str) -> (r: Option<String>)
    ensures
        match r {
            Some(e) => extension_of(n@) == Some(e@),
            None => extension_of(n@) is None,
        },
{
    let d = stem_dot_index(n);
    if d == 0 {
        None
    } else {
        let len = n.unicode_len();
        let sub = n.substring_char(d + 1, len);
        Some(sub.to_owned())
    }
}

/// `dir` and `name` joined with a separator, unless `dir` is empty or
/// already ends with one.
pub fn join(dir: &str, name: &str) -> (r: String)
    ensures
        r@ == join_path(dir@, name@),
{
    let len = dir.unicode_len();
    if len == 0 {
        name.to_owned()
    } else {
        let last = dir.get_char(len - 1);
        let mut s = dir.to_owned();
        if !(last == '/' || last == '\\') {
            s.append("/");
        }
        s.append(name);
        s
    }
}

/// Whether `needle` occurs contiguously in `hay`.
pub fn contains_sub(hay: &str, needle: &str) -> (r: bool)
    ensures
        r == spec_contains(hay@, needle@),
{
    let hl = hay.unicode_len();
    let nl = needle.unicode_len();
    if nl > hl {
        return false;
    }
    if nl == 0 {
        proof {
            assert(hay@.subrange(0, 0 + needle@.len() as int) =~= needle@);
        }
        return true;
    }
    let limit = hl - nl;
    let mut i: usize = 0;
    while i <= limit
        invariant
            hl == hay@.len(),
            nl == needle@.len(),
            1 <= nl <= hl,
            limit == hl - nl,
            i <= limit + 1,
            forall|x: int|
                0 <= x < i ==> #[trigger] hay@.subrange(x, x + nl as int) != needle@,
        decreases limit + 1 - i,
    {
        let mut j: usize = 0;
        let mut mismatch = false;
        while j < nl
            invariant
                hl == hay@.len(),
                nl == needle@.len(),
                i + nl <= hl,
                j <= nl,
                !mismatch ==> forall|k: int| 0 <= k < j ==> hay@[i + k] == needle@[k],
                mismatch ==> hay@.subrange(i as int, i + nl as int) != needle@,
            decreases nl - j,
        {
            let hc = hay.get_char(i + j);
            let nc = needle.get_char(j);
            if hc != nc {
                proof {
                    assert(hay@.subrange(i as int, i + nl as int)[j as int] == hay@[i + j]);
                }
                mismatch = true;
                j = nl;
            } else {
                j = j + 1;
            }
        }
        if !mismatch {
            proof {
                assert(hay@.subrange(i as int, i + nl as int) =~= needle@);
            }
            return true;
        }
        i = i + 1;
    }
    proof {
        assert forall|x: int| 0 <= x && x + needle@.len() <= hay@.len() implies #[trigger] hay@.subrange(
            x,
            x + needle@.len(),
        ) != needle@ by {
            assert(x < i);
        }
    }
    false
}

/// Relies on `std::path::Path::exists`: whether something on disk
/// answers to this path right now.
#[verifier::external_body]
pub(crate) fn path_exists(p: &str) -> bool {
    std::path::Path::new(p).exists()
}

} // verus!
