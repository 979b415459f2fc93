//! Plain comments in the generated code: inline `//` lines, optionally
//! framed as a heading by rules of slashes.

use vstd::prelude::*;

use crate::formatter::Formatter;
use crate::formatter::line_start;
use crate::formatter::written;
use crate::text::lines_of;
use crate::text::push_char;
use crate::text::split_lines;

verus! {

/// A comment block.
#[derive(Debug)]
pub struct Comment {
    /// The comment text; newlines split it into several comment lines.
    pub comment: String,
    /// Whether the comment is framed as a heading.
    pub is_heading: bool,
}

/// A rule of `k` slashes.
pub open spec fn slashes(k: nat) -> Seq<char> {
    Seq::new(k, |i: int| '/')
}

/// The length of a heading rule at indentation `ind`: the rule fills the
/// line up to 100 columns, and vanishes at deeper indentation.
pub open spec fn rule_len(ind: nat) -> nat {
    if ind <= 100 {
        (100 - ind) as nat
    } else {
        0
    }
}

/// The heading rule line contributed at indentation `ind`, or nothing for a
/// plain comment.
pub open spec fn heading_flat(is_heading: bool, ind: nat) -> Seq<char> {
    if is_heading {
        slashes(rule_len(ind)) + "\n"@
    } else {
        Seq::empty()
    }
}

/// The comment lines, each preceded by `// ` and closed by a newline.
pub open spec fn comment_lines_flat(ls: Seq<Seq<char>>) -> Seq<char>
    decreases ls.len(),
{
    if ls.len() == 0 {
        Seq::empty()
    } else {
        comment_lines_flat(ls.drop_last()) + "// "@ + ls.last() + "\n"@
    }
}

/// The flat text of a comment block at indentation `ind`: an optional
/// heading rule, the comment lines, and the optional rule again.
pub open spec fn comment_flat(c: Comment, ind: nat) -> Seq<char> {
    heading_flat(c.is_heading, ind) + comment_lines_flat(split_lines(c.comment@))
        + heading_flat(c.is_heading, ind)
}

impl Comment {
    /// Creates a new, empty comment.
    pub fn new() -> (r: Self)
        ensures
            r.comment@ == Seq::<char>::empty(),
            !r.is_heading,
    {
        Comment::with_string(String::new())
    }

    /// Creates a new comment holding the given text.
    pub fn with_string(comment: String) -> (r: Self)
        ensures
            r.comment@ == comment@,
            !r.is_heading,
    {
        Comment { comment, is_heading: false }
    }

    /// Creates a new comment holding a copy of the given text.
    pub fn with_str(comment: &str) -> (r: Self)
        ensures
            r.comment@ == comment@,
            !r.is_heading,
    {
        Comment::with_string(comment.to_owned())
    }

    /// Creates a new comment intended as a heading; the heading frame itself
    /// is only drawn once `set_heading` is called.
    pub fn new_heading(comment: &str) -> (r: Self)
        ensures
            r.comment@ == comment@,
            !r.is_heading,
    {
        Comment { comment: comment.to_owned(), is_heading: false }
    }

    /// Turns the comment into a heading comment.
    pub fn set_heading(&mut self) -> (r: &mut Self)
        ensures
            r.comment == old(self).comment,
            r.is_heading == true,
            *final(self) == *final(r),
    {
        self.is_heading = true;
        self
    }

    /// Appends the heading rule for indentation `ind` to `s`, when the
    /// comment is a heading.
    #[verifier::loop_isolation(false)]
    fn push_heading(&self, s: &mut String, ind: usize)
        ensures
            final(s)@ == old(s)@ + heading_flat(self.is_heading, ind as nat),
    {
        if self.is_heading {
            let count: usize = if ind <= 100 {
                100 - ind
            } else {
                0
            };
            let mut j: usize = 0;
            proof {
                assert(s@ + slashes(0) =~= s@);
            }
            while j < count
                invariant
                    j <= count,
                    s@ == old(s)@ + slashes(j as nat),
                decreases count - j,
            {
                push_char(s, '/');
                proof {
                    assert((old(s)@ + slashes(j as nat)) + seq!['/'] =~= old(s)@ + slashes(
                        (j + 1) as nat,
                    ));
                }
                j += 1;
            }
            s.append("\n");
            proof {
                assert((old(s)@ + slashes(count as nat)) + "\n"@ =~= old(s)@ + heading_flat(
                    self.is_heading,
                    ind as nat,
                ));
            }
        } else {
            proof {
                assert(s@ + heading_flat(self.is_heading, ind as nat) =~= s@);
            }
        }
    }

    /// Appends the flat text of the comment at indentation `ind` to `s`.
    #[verifier::loop_isolation(false)]
    pub fn push_flat(&self, s: &mut String, ind: usize)
        ensures
            final(s)@ == old(s)@ + comment_flat(*self, ind as nat),
    {
        self.push_heading(s, ind);
        let ghost ls = split_lines(self.comment@);
        let lines = lines_of(self.comment.as_str());
        let mut i: usize = 0;
        let ghost mid = s@;
        proof {
            assert(s@ + comment_lines_flat(ls.subrange(0, 0)) =~= s@);
        }
        while i < lines.len()
            invariant
                i <= lines.len(),
                s@ == mid + comment_lines_flat(ls.subrange(0, i as int)),
            decreases lines.len() - i,
        {
            proof {
                assert(ls.subrange(0, i as int + 1).drop_last() =~= ls.subrange(0, i as int));
                assert(ls.subrange(0, i as int + 1).last() == ls[i as int]);
            }
            s.append("// ");
            s.append(lines[i].as_str());
            s.append("\n");
            proof {
                assert(s@ =~= mid + comment_lines_flat(ls.subrange(0, i as int + 1)));
            }
            i += 1;
        }
        proof {
            assert(ls.subrange(0, ls.len() as int) =~= ls);
        }
        self.push_heading(s, ind);
        proof {
            assert(s@ =~= old(s)@ + comment_flat(*self, ind as nat));
        }
    }

    /// Writes the comment block through the formatter.
    pub fn fmt(&self, fmt: &mut Formatter)
        ensures
            final(fmt).out@ == old(fmt).out@ + written(
                comment_flat(*self, old(fmt).spaces as nat),
                old(fmt).spaces as nat,
                line_start(old(fmt).out@),
            ),
            final(fmt).spaces == old(fmt).spaces,
            final(fmt).scopes == old(fmt).scopes,
    {
        let mut s = String::new();
        let ind = fmt.get_indent();
        self.push_flat(&mut s, ind);
        proof {
            assert(Seq::<char>::empty() + comment_flat(*self, ind as nat) =~= comment_flat(
                *self,
                ind as nat,
            ));
        }
        fmt.write_str(s.as_str());
    }
}

impl Default for Comment {
    /// The default comment is empty and not a heading.
    fn default() -> (r: Self)
        ensures
            r.comment@ == Seq::<char>::empty(),
            !r.is_heading,
    {
        Comment::new()
    }
}

} // verus!
