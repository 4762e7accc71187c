//! The comment side-table: exact structural-address lookup, and the spec
//! of how a stored leading comment is laid out as `//` lines.

use vstd::prelude::*;
use crate::descriptor::{CommentLocation, SourceInfo};

verus! {

/// Index of the first line feed in `s`, or `s.len()` if there is none.
pub open spec fn first_nl(s: Seq<char>) -> int
    decreases s.len(),
{
    if s.len() == 0 {
        0
    } else if s[0] == '\n' {
        0
    } else {
        1 + first_nl(s.subrange(1, s.len() as int))
    }
}

/// `first_nl` is in bounds, everything before it is not a line feed, and
/// it points at a line feed unless it is the length.
pub proof fn lemma_first_nl(s: Seq<char>)
    ensures
        0 <= first_nl(s) <= s.len(),
        forall|i: int| 0 <= i < first_nl(s) ==> s[i] != '\n',
        first_nl(s) < s.len() ==> s[first_nl(s)] == '\n',
    decreases s.len(),
{
    if s.len() == 0 {
    } else if s[0] == '\n' {
    } else {
        let t = s.subrange(1, s.len() as int);
        lemma_first_nl(t);
        assert forall|i: int| 0 <= i < first_nl(s) implies s[i] != '\n' by {
            if i > 0 {
                assert(s[i] == t[i - 1]);
            }
        }
        if first_nl(s) < s.len() {
            assert(s[first_nl(s)] == t[first_nl(t)]);
        }
    }
}

/// A position with no line feed before it that sits on a line feed (or at
/// the end) is exactly `first_nl`.
pub proof fn lemma_first_nl_unique(s: Seq<char>, k: int)
    requires
        0 <= k <= s.len(),
        forall|i: int| 0 <= i < k ==> s[i] != '\n',
        k < s.len() ==> s[k] == '\n',
    ensures
        first_nl(s) == k,
{
    lemma_first_nl(s);
    if first_nl(s) < k {
        assert(s[first_nl(s)] == '\n');
    } else if first_nl(s) > k {
        assert(s[k] != '\n');
    }
}

/// A carriage return just before the line feed is not part of the line.
pub open spec fn strip_cr(line: Seq<char>) -> Seq<char> {
    if line.len() > 0 && line[line.len() - 1] == '\r' {
        line.subrange(0, line.len() - 1)
    } else {
        line
    }
}

/// The text of a whole leading comment: every stored line becomes an
/// indented `//` line of its own; a line ending closes a line, and a
/// comment not ending in one still closes its last line.
pub open spec fn spec_comment_body(s: Seq<char>, ind: Seq<char>) -> Seq<char>
    decreases s.len(),
    via spec_comment_body_dec
{
    if s.len() == 0 {
        Seq::empty()
    } else {
        let k = first_nl(s);
        if k == s.len() {
            ind + "//"@ + s + "\n"@
        } else {
            ind + "//"@ + strip_cr(s.subrange(0, k)) + "\n"@ + spec_comment_body(
                s.subrange(k + 1, s.len() as int),
                ind,
            )
        }
    }
}

#[via_fn]
proof fn spec_comment_body_dec(s: Seq<char>, ind: Seq<char>) {
    lemma_first_nl(s);
}

/// The first side-table entry whose address equals `p`, if any.
pub open spec fn find_comment_loc(locs: Seq<CommentLocation>, p: Seq<i32>) -> Option<
    CommentLocation,
>
    decreases locs.len(),
{
    if locs.len() == 0 {
        None
    } else if locs[0].path@ == p {
        Some(locs[0])
    } else {
        find_comment_loc(locs.subrange(1, locs.len() as int), p)
    }
}

/// Entries known not to match can be skipped without changing the lookup.
pub proof fn lemma_find_comment_skip(locs: Seq<CommentLocation>, p: Seq<i32>, i: int)
    requires
        0 <= i <= locs.len(),
        forall|k: int| 0 <= k < i ==> (#[trigger] locs[k]).path@ != p,
    ensures
        find_comment_loc(locs, p) == find_comment_loc(locs.subrange(i, locs.len() as int), p),
    decreases i,
{
    if i == 0 {
        assert(locs.subrange(0, locs.len() as int) =~= locs);
    } else {
        let t = locs.subrange(1, locs.len() as int);
        assert(locs[0].path@ != p);
        lemma_find_comment_skip(t, p, i - 1);
        assert(t.subrange(i - 1, t.len() as int) =~= locs.subrange(i, locs.len() as int));
    }
}

/// The leading comment recorded at address `p`, if a table was supplied
/// and its first entry for `p` carries one.
pub open spec fn spec_comment_at(tab: Option<SourceInfo>, p: Seq<i32>) -> Option<Seq<char>> {
    match tab {
        None => None,
        Some(si) => match find_comment_loc(si.location@, p) {
            None => None,
            Some(loc) => match loc.leading_comments {
                None => None,
                Some(c) => Some(c@),
            },
        },
    }
}

/// What a found comment contributes to the output: a separating blank
/// line, then the comment lines; a miss contributes nothing.
pub open spec fn spec_comment_block(tab: Option<SourceInfo>, p: Seq<i32>, ind: Seq<char>) -> Seq<
    char,
> {
    match spec_comment_at(tab, p) {
        None => Seq::empty(),
        Some(c) => "\n"@ + spec_comment_body(c, ind),
    }
}

} // verus!
