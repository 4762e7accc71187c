//! The rendering state: output buffer, indentation, the structural
//! address of the node being visited, and the file's syntax version and
//! comment side-table. Every write is specified exactly against the spec
//! functions of `comments` and `numeral`.

use vstd::prelude::*;
use vstd::string::{StrSliceExecFns, StringExecFns};
use crate::comments::{
    find_comment_loc, lemma_find_comment_skip, lemma_first_nl_unique, spec_comment_at,
    spec_comment_block, spec_comment_body, strip_cr,
};
use crate::descriptor::{CommentLocation, SourceInfo, Syntax};
use crate::util::{lemma_seq_assoc, lemma_seq_empty_right};

verus! {

/// Per-render working state; created fresh for one render call. The
/// comment side-table is borrowed from the caller for the duration.
pub struct Generator<'a> {
    pub syntax: Syntax,
    pub source_info: Option<&'a SourceInfo>,
    pub buf: String,
    pub path: Vec<i32>,
    pub indent: String,
}

impl<'a> Generator<'a> {
    /// The borrowed side-table as a plain optional value.
    pub open spec fn tab(self) -> Option<SourceInfo> {
        match self.source_info {
            Some(si) => Some(*si),
            None => None,
        }
    }

    /// Everything but the output buffer and the indentation.
    pub open spec fn ctx(self) -> (Syntax, Option<SourceInfo>, Seq<i32>) {
        (self.syntax, self.tab(), self.path@)
    }

    /// Everything but the output buffer.
    pub open spec fn frame(self) -> (Syntax, Option<SourceInfo>, Seq<i32>, Seq<char>) {
        (self.syntax, self.tab(), self.path@, self.indent@)
    }

    /// A fresh state for one render call.
    pub fn new(syntax: Syntax, source_info: Option<&'a SourceInfo>) -> (r: Generator<'a>)
        ensures
            r.syntax == syntax,
            r.source_info == source_info,
            r.buf@ == Seq::<char>::empty(),
            r.path@ == Seq::<i32>::empty(),
            r.indent@ == Seq::<char>::empty(),
    {
        Generator {
            syntax,
            source_info,
            buf: String::new(),
            path: Vec::new(),
            indent: String::new(),
        }
    }

    /// Appends literal text to the output.
    pub fn write(&mut self, text: &str)
        ensures
            final(self).frame() == old(self).frame(),
            final(self).buf@ == old(self).buf@ + text@,
    {
        self.buf.append(text);
    }

    /// Appends the current indentation to the output.
    pub fn write_indent(&mut self)
        ensures
            final(self).frame() == old(self).frame(),
            final(self).buf@ == old(self).buf@ + old(self).indent@,
    {
        let ind: String = self.indent.clone();
        self.buf.append(ind.as_str());
    }

    /// One nesting level deeper: two more spaces.
    pub fn inc_indent(&mut self)
        ensures
            final(self).ctx() == old(self).ctx(),
            final(self).buf@ == old(self).buf@,
            final(self).indent@ == old(self).indent@ + "  "@,
    {
        self.indent.append("  ");
    }

    /// One nesting level back out: two spaces fewer.
    pub fn dec_indent(&mut self)
        requires
            old(self).indent@.len() >= 2,
        ensures
            final(self).ctx() == old(self).ctx(),
            final(self).buf@ == old(self).buf@,
            final(self).indent@ == old(self).indent@.subrange(0, old(self).indent@.len() - 2),
    {
        let n: usize = self.indent.as_str().unicode_len();
        let t: String = {
            let s: &str = self.indent.as_str();
            let piece: &str = s.substring_char(0, n - 2);
            piece.to_owned()
        };
        self.indent = t;
    }

    /// Opens a block: brace, line break, one level deeper.
    pub fn open_block(&mut self)
        ensures
            final(self).ctx() == old(self).ctx(),
            final(self).buf@ == old(self).buf@ + " {\n"@,
            final(self).indent@ == old(self).indent@ + "  "@,
    {
        self.write(" {\n");
        self.inc_indent();
    }

    /// Closes a block: one level back out, indented closing brace.
    pub fn close_block(&mut self)
        requires
            old(self).indent@.len() >= 2,
        ensures
            final(self).ctx() == old(self).ctx(),
            final(self).indent@ == old(self).indent@.subrange(0, old(self).indent@.len() - 2),
            final(self).buf@ == old(self).buf@ + final(self).indent@ + "}\n"@,
    {
        self.dec_indent();
        self.write_indent();
        self.write("}\n");
        proof {
            lemma_seq_assoc(old(self).buf@, self.indent@, "}\n"@);
        }
    }

    /// The leading comment recorded for the current structural address.
    #[verifier::loop_isolation(false)]
    pub fn lookup_comment(&self) -> (r: Option<String>)
        ensures
            match r {
                Some(c) => spec_comment_at(self.tab(), self.path@) == Some(c@),
                None => spec_comment_at(self.tab(), self.path@) is None,
            },
    {
        match self.source_info {
            None => None,
            Some(si) => {
                let n: usize = si.location.len();
                let mut i: usize = 0;
                while i < n
                    invariant
                        i <= n,
                        n == si.location@.len(),
                        forall|k: int|
                            0 <= k < i ==> (#[trigger] si.location@[k]).path@ != self.path@,
                    decreases n - i,
                {
                    if path_eq(&si.location[i].path, &self.path) {
                        proof {
                            lemma_find_comment_skip(si.location@, self.path@, i as int);
                            let sub = si.location@.subrange(i as int, n as int);
                            assert(sub[0] == si.location@[i as int]);
                            assert(sub[0].path@ == self.path@);
                            assert(find_comment_loc(sub, self.path@) == Some(sub[0]));
                            assert(find_comment_loc(si.location@, self.path@) == Some(
                                si.location@[i as int],
                            ));
                        }
                        match &si.location[i].leading_comments {
                            Some(c) => {
                                proof {
                                    assert(si.location@[i as int].leading_comments == Some(*c));
                                }
                                return Some(c.clone());
                            },
                            None => {
                                return None;
                            },
                        }
                    }
                    i = i + 1;
                }
                proof {
                    lemma_find_comment_skip(si.location@, self.path@, n as int);
                    assert(si.location@.subrange(n as int, n as int) =~= Seq::<
                        CommentLocation,
                    >::empty());
                }
                None
            },
        }
    }

    /// Emits the leading comment of the current address, if one is
    /// recorded: a blank separator line, then its `//` lines. Reports
    /// whether a comment was found.
    pub fn write_leading_comment(&mut self) -> (found: bool)
        ensures
            final(self).frame() == old(self).frame(),
            final(self).buf@ == old(self).buf@ + spec_comment_block(
                old(self).tab(),
                old(self).path@,
                old(self).indent@,
            ),
            found == (spec_comment_at(old(self).tab(), old(self).path@) is Some),
    {
        let c: Option<String> = self.lookup_comment();
        match c {
            None => {
                proof {
                    lemma_seq_empty_right(self.buf@);
                }
                false
            },
            Some(c) => {
                self.buf.append("\n");
                {
                    let ind: String = self.indent.clone();
                    append_comment_body(&mut self.buf, ind.as_str(), c.as_str());
                }
                proof {
                    lemma_seq_assoc(
                        old(self).buf@,
                        "\n"@,
                        spec_comment_body(c@, old(self).indent@),
                    );
                }
                true
            },
        }
    }
}

/// Element-wise equality of two address vectors.
fn path_eq(a: &Vec<i32>, b: &Vec<i32>) -> (r: bool)
    ensures
        r == (a@ == b@),
{
    if a.len() != b.len() {
        return false;
    }
    let mut i: usize = 0;
    while i < a.len()
        invariant
            i <= a@.len(),
            a@.len() == b@.len(),
            forall|k: int| 0 <= k < i ==> a@[k] == b@[k],
        decreases a@.len() - i,
    {
        if a[i] != b[i] {
            return false;
        }
        i = i + 1;
    }
    proof {
        assert(a@ =~= b@);
    }
    true
}

/// Appends the `//` lines of one stored comment to `buf`.
fn append_comment_body(buf: &mut String, ind: &str, text: &str)
    ensures
        final(buf)@ == old(buf)@ + spec_comment_body(text@, ind@),
{
    let n: usize = text.unicode_len();
    proof {
        assert(text@.subrange(0, n as int) =~= text@);
    }
    let mut i: usize = 0;
    while i < n
        invariant
            i <= n,
            n == text@.len(),
            buf@ + spec_comment_body(text@.subrange(i as int, n as int), ind@) == old(buf)@
                + spec_comment_body(text@, ind@),
        decreases n - i,
    {
        let ghost s = text@.subrange(i as int, n as int);
        let ghost buf0 = buf@;
        let mut j: usize = i;
        while j < n && text.get_char(j) != '\n'
            invariant
                i <= j <= n,
                n == text@.len(),
                forall|k: int| i <= k < j ==> text@[k] != '\n',
            decreases n - j,
        {
            j = j + 1;
        }
        proof {
            assert forall|k: int| 0 <= k < j - i implies s[k] != '\n' by {
                assert(s[k] == text@[i + k]);
            }
            if (j as int) - (i as int) < s.len() {
                assert(s[j - i] == text@[j as int]);
            }
            lemma_first_nl_unique(s, j as int - i as int);
        }
        let end_with_nl: bool = j < n;
        let mut e: usize = j;
        if end_with_nl && j > i {
            if text.get_char(j - 1) == '\r' {
                e = j - 1;
            }
        }
        let line: &str = text.substring_char(i, e);
        buf.append(ind);
        buf.append("//");
        buf.append(line);
        buf.append("\n");
        proof {
            let k = j as int - i as int;
            if end_with_nl {
                assert(s.subrange(0, k) =~= text@.subrange(i as int, j as int));
                if j > i && text@[j - 1] == '\r' {
                    assert(strip_cr(s.subrange(0, k)) =~= text@.subrange(i as int, e as int));
                } else {
                    assert(strip_cr(s.subrange(0, k)) =~= text@.subrange(i as int, e as int));
                }
                assert(s.subrange(k + 1, s.len() as int) =~= text@.subrange(
                    j as int + 1,
                    n as int,
                ));
                assert(buf@ =~= buf0 + (ind@ + "//"@ + strip_cr(s.subrange(0, k)) + "\n"@));
                assert(spec_comment_body(s, ind@) == ind@ + "//"@ + strip_cr(s.subrange(0, k))
                    + "\n"@ + spec_comment_body(s.subrange(k + 1, s.len() as int), ind@));
                assert(buf@ + spec_comment_body(text@.subrange(j as int + 1, n as int), ind@)
                    =~= buf0 + spec_comment_body(s, ind@));
            } else {
                assert(line@ =~= s);
                assert(spec_comment_body(s, ind@) == ind@ + "//"@ + s + "\n"@);
                assert(buf@ =~= buf0 + spec_comment_body(s, ind@));
                assert(text@.subrange(n as int, n as int) =~= Seq::<char>::empty());
                assert(buf@ + spec_comment_body(text@.subrange(n as int, n as int), ind@) =~= buf0
                    + spec_comment_body(s, ind@));
            }
        }
        if end_with_nl {
            i = j + 1;
        } else {
            i = n;
        }
    }
    proof {
        assert(text@.subrange(n as int, n as int) =~= Seq::<char>::empty());
        assert(spec_comment_body(Seq::<char>::empty(), ind@) == Seq::<char>::empty());
        lemma_seq_empty_right(buf@);
        assert(text@.subrange(0, n as int) =~= text@);
    }
}

} // verus!
