//! The client's directory-tree model: a node per filesystem entry,
//! with its display name derived from its path, and the small pure
//! helpers the file listing uses.  All filesystem access happens
//! outside; a node is built from a path and what the filesystem said
//! about it.

use vstd::prelude::*;

verus! {

/// The index where a path's last segment starts: right after the last
/// separator, or zero when the path has none.
pub open spec fn last_segment_start(s: Seq<char>) -> int
    decreases s.len(),
{
    if s.len() == 0 {
        0
    } else if s.last() == '/' {
        s.len() as int
    } else {
        last_segment_start(s.drop_last())
    }
}

/// What follows a path's last separator, possibly empty.
pub open spec fn last_segment(s: Seq<char>) -> Seq<char> {
    s.subrange(last_segment_start(s), s.len() as int)
}

/// The start of the last segment lies within the path.
proof fn lemma_segment_start_bounds(s: Seq<char>)
    ensures
        0 <= last_segment_start(s) <= s.len(),
    decreases s.len(),
{
    if s.len() == 0 {
    } else if s.last() == '/' {
    } else {
        lemma_segment_start_bounds(s.drop_last());
    }
}

/// The final component a path names, with the standard library's
/// `Path::file_name` reading: trailing separators are ignored,
/// current-directory segments are skipped, and a path that ends in a
/// parent-directory segment — or runs out of segments — has no final
/// component.
pub open spec fn file_name_of(s: Seq<char>) -> Option<Seq<char>>
    decreases s.len(),
    via file_name_of_decreases
{
    if s.len() == 0 {
        None
    } else if s.last() == '/' {
        file_name_of(s.drop_last())
    } else if last_segment(s) == seq!['.'] {
        file_name_of(s.subrange(0, last_segment_start(s)))
    } else if last_segment(s) == seq!['.', '.'] {
        None
    } else {
        Some(last_segment(s))
    }
}

#[via_fn]
proof fn file_name_of_decreases(s: Seq<char>) {
    if s.len() > 0 && s.last() != '/' {
        lemma_segment_start_bounds(s.drop_last());
    }
}

/// The display name a node carries for a path: its final component,
/// or the whole path where it has none.
pub open spec fn display_name_of(s: Seq<char>) -> Seq<char> {
    match file_name_of(s) {
        Some(n) => n,
        None => s,
    }
}

/// A node of the directory tree: an entry's path, its display name,
/// whether it is a directory, and its children once they were loaded.
pub struct DirNode {
    pub name: String,
    pub path: String,
    pub is_dir: bool,
    pub children: Option<Vec<DirNode>>,
}

/// Within `t`, everything from `start` to the end is free of
/// separators and `start` sits right after one (or at the front), so
/// the last segment starts exactly there.
proof fn lemma_segment_start(t: Seq<char>, start: int)
    requires
        0 <= start <= t.len(),
        forall|k: int| start <= k < t.len() ==> t[k] != '/',
        start == 0 || t[start - 1] == '/',
    ensures
        last_segment_start(t) == start,
    decreases t.len(),
{
    if t.len() == start {
        if start != 0 {
            assert(t.last() == '/');
        }
    } else {
        assert(t.last() != '/');
        lemma_segment_start(t.drop_last(), start);
    }
}

/// The character range of the final component of `s@` up to `end`,
/// with `Path::file_name` semantics, or `None` where there is none.
fn file_name_range(s: &str, end: usize) -> (r: Option<(usize, usize)>)
    requires
        end <= s@.len(),
    ensures
        match r {
            Some((a, b)) => a < b <= end && file_name_of(s@.subrange(0, end as int)) == Some(
                s@.subrange(a as int, b as int),
            ),
            None => file_name_of(s@.subrange(0, end as int)) is None,
        },
    decreases end,
{
    let ghost t = s@.subrange(0, end as int);
    if end == 0 {
        return None;
    }
    if s.get_char(end - 1) == '/' {
        proof {
            assert(t.last() == '/');
            assert(t.drop_last() =~= s@.subrange(0, end as int - 1));
        }
        return file_name_range(s, end - 1);
    }
    let mut start: usize = end - 1;
    while start > 0 && s.get_char(start - 1) != '/'
        invariant
            end <= s@.len(),
            start <= end - 1,
            forall|k: int| start <= k < end ==> s@[k] != '/',
        decreases start,
    {
        start = start - 1;
    }
    proof {
        assert forall|k: int| start <= k < t.len() implies t[k] != '/' by {
            assert(t[k] == s@[k]);
        }
        if start != 0 {
            assert(t[start - 1] == s@[start as int - 1]);
        }
        lemma_segment_start(t, start as int);
        assert(last_segment(t) =~= s@.subrange(start as int, end as int));
    }
    let seg_len = end - start;
    if seg_len == 1 && s.get_char(start) == '.' {
        proof {
            assert(last_segment(t) =~= seq!['.']);
            assert(t.subrange(0, last_segment_start(t)) =~= s@.subrange(0, start as int));
        }
        return file_name_range(s, start);
    }
    if seg_len == 2 && s.get_char(start) == '.' && s.get_char(start + 1) == '.' {
        proof {
            assert(last_segment(t) =~= seq!['.', '.']);
        }
        return None;
    }
    proof {
        let seg = last_segment(t);
        assert(seg.len() == seg_len);
        assert(seg[0] == s@[start as int]);
        if seg_len == 2 {
            assert(seg[1] == s@[start as int + 1]);
        }
        assert(seg != seq!['.'] && seg != seq!['.', '.']);
    }
    Some((start, end))
}

impl DirNode {
    /// A fresh, unexpanded node for the given path.  Its display name
    /// is the path's final component — trailing separators ignored —
    /// or the whole path where there is no final component, and its
    /// children are not loaded yet.
    pub fn new(path: String, is_dir: bool) -> (r: DirNode)
        ensures
            r.path == path,
            r.is_dir == is_dir,
            r.children is None,
            r.name@ == display_name_of(path@),
    {
        let n = path.as_str().unicode_len();
        proof {
            assert(path@.subrange(0, n as int) =~= path@);
        }
        let name = match file_name_range(path.as_str(), n) {
            Some((a, b)) => path.as_str().substring_char(a, b).to_owned(),
            None => path.clone(),
        };
        DirNode { name, path, is_dir, children: None }
    }
}

/// The unit a file-age display uses.
#[derive(Debug, Clone, Copy, PartialEq, Eq, Structural)]
pub enum AgeUnit {
    Seconds,
    Minutes,
    Hours,
    Days,
}

/// Breaks a file age in seconds into the value and unit the listing
/// shows: plain seconds under a minute, whole minutes under an hour,
/// whole hours under a day, whole days beyond.
pub fn age_parts(secs: u64) -> (r: (u64, AgeUnit))
    ensures
        secs < 60 ==> r == (secs, AgeUnit::Seconds),
        60 <= secs < 3600 ==> r == (secs / 60, AgeUnit::Minutes),
        3600 <= secs < 86400 ==> r == (secs / 3600, AgeUnit::Hours),
        86400 <= secs ==> r == (secs / 86400, AgeUnit::Days),
{
    if secs < 60 {
        (secs, AgeUnit::Seconds)
    } else if secs < 3600 {
        (secs / 60, AgeUnit::Minutes)
    } else if secs < 86400 {
        (secs / 3600, AgeUnit::Hours)
    } else {
        (secs / 86400, AgeUnit::Days)
    }
}

} // verus!
