//! Documentation comments attached to generated declarations; rendered as
//! `///` lines.  For plain comments see the comment module.

use vstd::prelude::*;

use crate::formatter::Formatter;
use crate::formatter::line_start;
use crate::formatter::written;
use crate::text::lines_of;
use crate::text::split_lines;

verus! {

/// A documentation block: a list of lines, each rendered as `/// <line>`.
#[derive(Debug)]
pub struct Doc {
    /// The documentation lines.
    pub docs: Vec<String>,
}

/// The flat text of a documentation block: each line preceded by `/// ` and
/// closed by a newline.
pub open spec fn doc_flat(ls: Seq<Seq<char>>) -> Seq<char>
    decreases ls.len(),
{
    if ls.len() == 0 {
        Seq::empty()
    } else {
        doc_flat(ls.drop_last()) + "/// "@ + ls.last() + "\n"@
    }
}

/// The lines of an optional documentation block.
pub open spec fn opt_doc_lines(od: Option<Doc>) -> Seq<Seq<char>> {
    match od {
        Some(d) => d.docs.deep_view(),
        None => Seq::empty(),
    }
}

/// The flat text of an optional documentation block.
pub open spec fn opt_doc_flat(od: Option<Doc>) -> Seq<char> {
    doc_flat(opt_doc_lines(od))
}

/// The lines that adding one line of text contributes: an empty line stands
/// as itself, and text holding newlines is split at them.
pub open spec fn add_line_entries(l: Seq<char>) -> Seq<Seq<char>> {
    if l.len() == 0 {
        seq![Seq::<char>::empty()]
    } else {
        split_lines(l)
    }
}

/// One step of the line-wrapping walk over a single line `l`: `start` and
/// `end` delimit the piece being grown, `offset` is the position under
/// examination.  A space more than 90 characters past `start` closes the
/// piece.
pub open spec fn wrap_from(l: Seq<char>, start: int, end: int, offset: int) -> Seq<Seq<char>>
    decreases l.len() - offset,
{
    if offset < 0 || offset >= l.len() {
        if start == end {
            seq![Seq::<char>::empty()]
        } else {
            seq![l.subrange(start, end + 1)]
        }
    } else {
        if l[offset] == ' ' && offset - start > 90 {
            seq![l.subrange(start, end + 1)] + wrap_from(l, end, offset, offset + 1)
        } else {
            wrap_from(l, start, offset, offset + 1)
        }
    }
}

/// The lines that one line of a text block contributes after wrapping.
pub open spec fn entry_lines(l: Seq<char>) -> Seq<Seq<char>> {
    if l.len() == 0 {
        seq![Seq::<char>::empty()]
    } else {
        wrap_from(l, 0, 0, 0)
    }
}

/// The lines that a whole text block contributes: each of its physical lines,
/// wrapped.
pub open spec fn text_entries_of(ls: Seq<Seq<char>>) -> Seq<Seq<char>>
    decreases ls.len(),
{
    if ls.len() == 0 {
        Seq::empty()
    } else {
        text_entries_of(ls.drop_last()) + entry_lines(ls.last())
    }
}

/// The lines that `add_text` appends for a given text.
pub open spec fn add_text_entries(text: Seq<char>) -> Seq<Seq<char>> {
    text_entries_of(split_lines(text))
}

/// Moves every string of `src` to the end of `dst`.
#[verifier::loop_isolation(false)]
fn append_all(dst: &mut Vec<String>, src: Vec<String>)
    ensures
        final(dst).deep_view() == old(dst).deep_view() + src.deep_view(),
{
    let ghost base = dst.deep_view();
    let ghost srcv = src.deep_view();
    let mut i: usize = 0;
    while i < src.len()
        invariant
            i <= src.len(),
            dst@.len() == base.len() + i,
            forall|j: int| 0 <= j < base.len() ==> #[trigger] dst@[j]@ == base[j],
            forall|j: int|
                base.len() <= j < base.len() + i ==> #[trigger] dst@[j]@ == srcv[
                    j - base.len()
                ],
        decreases src.len() - i,
    {
        dst.push(src[i].clone());
        i += 1;
    }
    proof {
        assert(dst.deep_view() =~~= base + srcv);
    }
}

/// Appends the flat text of an optional documentation block to `s`.
pub fn push_opt_doc(od: &Option<Doc>, s: &mut String)
    ensures
        final(s)@ == old(s)@ + opt_doc_flat(*od),
{
    match od {
        Some(d) => {
            d.push_flat(s);
        },
        None => {
            proof {
                assert(s@ + opt_doc_flat(*od) =~= s@);
            }
        },
    }
}

/// Adds a text to an optional documentation block, creating the block when
/// there is none yet.
pub fn doc_add_text(od: &mut Option<Doc>, text: &str)
    ensures
        opt_doc_lines(*final(od)) == opt_doc_lines(*old(od)) + add_text_entries(text@),
{
    match od {
        Some(d) => {
            d.add_text(text);
        },
        None => {
            *od = Some(Doc::with_str(text));
            proof {
                assert(opt_doc_lines(*old(od)) + add_text_entries(text@) =~= add_text_entries(
                    text@,
                ));
            }
        },
    }
}

impl Doc {
    /// Creates a new, empty documentation block.
    pub fn new() -> (r: Self)
        ensures
            r.docs.deep_view() == Seq::<Seq<char>>::empty(),
    {
        let r = Doc { docs: Vec::new() };
        proof {
            assert(r.docs.deep_view() =~~= Seq::<Seq<char>>::empty());
        }
        r
    }

    /// Creates a new documentation block from a text, wrapping long lines.
    pub fn with_str(docs: &str) -> (r: Self)
        ensures
            r.docs.deep_view() == add_text_entries(docs@),
    {
        let mut doc = Doc::new();
        doc.add_text(docs);
        proof {
            assert(Seq::<Seq<char>>::empty() + add_text_entries(docs@) =~= add_text_entries(
                docs@,
            ));
        }
        doc
    }

    /// Creates a new documentation block from an owned text, wrapping long
    /// lines.
    pub fn with_string(docs: String) -> (r: Self)
        ensures
            r.docs.deep_view() == add_text_entries(docs@),
    {
        Doc::with_str(docs.as_str())
    }

    /// Adds one line to the documentation block; text holding newlines is
    /// split at them, and an empty text stands as one empty line.
    pub fn add_line(&mut self, line: &str) -> (r: &mut Self)
        ensures
            r.docs.deep_view() == old(self).docs.deep_view() + add_line_entries(line@),
            *final(self) == *final(r),
    {
        if line.is_empty() {
            let ghost base = self.docs.deep_view();
            self.docs.push(String::new());
            proof {
                assert(self.docs.deep_view() =~~= base + add_line_entries(line@));
            }
        } else {
            let pieces = lines_of(line);
            append_all(&mut self.docs, pieces);
        }
        self
    }

    /// Adds a text block as documentation lines, splitting it at newlines and
    /// breaking a line at a space once it has run more than 90 characters.
    #[verifier::loop_isolation(false)]
    pub fn add_text(&mut self, text: &str) -> (r: &mut Self)
        ensures
            r.docs.deep_view() == old(self).docs.deep_view() + add_text_entries(text@),
            *final(self) == *final(r),
    {
        let ghost lsv = split_lines(text@);
        let ls = lines_of(text);
        let mut k: usize = 0;
        proof {
            assert(lsv.subrange(0, 0) =~= Seq::<Seq<char>>::empty());
            assert(self.docs.deep_view() + text_entries_of(lsv.subrange(0, 0))
                =~= self.docs.deep_view());
        }
        while k < ls.len()
            invariant
                k <= ls.len(),
                self.docs.deep_view() == old(self).docs.deep_view() + text_entries_of(
                    lsv.subrange(0, k as int),
                ),
            decreases ls.len() - k,
        {
            proof {
                assert(lsv.subrange(0, k as int + 1).drop_last() =~= lsv.subrange(0, k as int));
                assert(lsv.subrange(0, k as int + 1).last() == lsv[k as int]);
            }
            let ghost base = self.docs.deep_view();
            let l = &ls[k];
            let n = l.as_str().unicode_len();
            if n == 0 {
                self.docs.push(String::new());
                proof {
                    assert(self.docs.deep_view() =~~= base + entry_lines(lsv[k as int]));
                }
            } else {
                self.wrap_line(l.as_str());
                proof {
                    assert(base + wrap_from(l@, 0, 0, 0) =~= base + entry_lines(lsv[k as int]));
                }
            }
            proof {
                assert(self.docs.deep_view() =~= old(self).docs.deep_view() + text_entries_of(
                    lsv.subrange(0, k as int + 1),
                ));
            }
            k += 1;
        }
        proof {
            assert(lsv.subrange(0, lsv.len() as int) =~= lsv);
        }
        self
    }

    /// Breaks one newline-free line at spaces once a piece has run more than
    /// 90 characters, and appends the pieces as documentation lines.
    #[verifier::loop_isolation(false)]
    fn wrap_line(&mut self, l: &str)
        requires
            l@.len() > 0,
        ensures
            final(self).docs.deep_view() == old(self).docs.deep_view() + wrap_from(l@, 0, 0, 0),
    {
        let n = l.unicode_len();
        let mut start: usize = 0;
        let mut end: usize = 0;
        let mut offset: usize = 0;
        while offset < n
            invariant
                offset <= n,
                start <= end,
                end < n,
                offset == 0 ==> start == 0 && end == 0,
                offset > 0 ==> end == offset - 1,
                old(self).docs.deep_view() + wrap_from(l@, 0, 0, 0) == self.docs.deep_view()
                    + wrap_from(l@, start as int, end as int, offset as int),
            decreases n - offset,
        {
            let c = l.get_char(offset);
            if c == ' ' && offset - start > 90 {
                let ghost base = self.docs.deep_view();
                let piece = l.substring_char(start, end + 1).to_owned();
                self.docs.push(piece);
                proof {
                    assert(self.docs.deep_view() =~~= base + seq![l@.subrange(
                        start as int,
                        end as int + 1,
                    )]);
                    assert(base + (seq![l@.subrange(start as int, end as int + 1)] + wrap_from(
                        l@,
                        end as int,
                        offset as int,
                        offset as int + 1,
                    )) =~= (base + seq![l@.subrange(start as int, end as int + 1)]) + wrap_from(
                        l@,
                        end as int,
                        offset as int,
                        offset as int + 1,
                    ));
                }
                start = end;
            }
            end = offset;
            offset += 1;
        }
        let ghost base = self.docs.deep_view();
        if start == end {
            self.docs.push(String::new());
            proof {
                assert(self.docs.deep_view() =~~= base + wrap_from(
                    l@,
                    start as int,
                    end as int,
                    n as int,
                ));
            }
        } else {
            let piece = l.substring_char(start, end + 1).to_owned();
            self.docs.push(piece);
            proof {
                assert(self.docs.deep_view() =~~= base + wrap_from(
                    l@,
                    start as int,
                    end as int,
                    n as int,
                ));
            }
        }
    }

    /// Appends the rendered documentation lines to `s`.
    #[verifier::loop_isolation(false)]
    pub fn push_flat(&self, s: &mut String)
        ensures
            final(s)@ == old(s)@ + doc_flat(self.docs.deep_view()),
    {
        let ghost ls = self.docs.deep_view();
        let mut i: usize = 0;
        proof {
            assert(s@ + doc_flat(ls.subrange(0, 0)) =~= s@);
        }
        while i < self.docs.len()
            invariant
                i <= self.docs.len(),
                s@ == old(s)@ + doc_flat(ls.subrange(0, i as int)),
            decreases self.docs.len() - i,
        {
            proof {
                assert(ls.subrange(0, i as int + 1).drop_last() =~= ls.subrange(0, i as int));
                assert(ls.subrange(0, i as int + 1).last() == ls[i as int]);
            }
            s.append("/// ");
            s.append(self.docs[i].as_str());
            s.append("\n");
            proof {
                assert(s@ =~= old(s)@ + doc_flat(ls.subrange(0, i as int + 1)));
            }
            i += 1;
        }
        proof {
            assert(ls.subrange(0, ls.len() as int) =~= ls);
        }
    }

    /// Writes the documentation block through the formatter.
    pub fn fmt(&self, fmt: &mut Formatter)
        ensures
            final(fmt).out@ == old(fmt).out@ + written(
                doc_flat(self.docs.deep_view()),
                old(fmt).spaces as nat,
                line_start(old(fmt).out@),
            ),
            final(fmt).spaces == old(fmt).spaces,
            final(fmt).scopes == old(fmt).scopes,
    {
        let mut s = String::new();
        self.push_flat(&mut s);
        proof {
            assert(Seq::<char>::empty() + doc_flat(self.docs.deep_view()) =~= doc_flat(
                self.docs.deep_view(),
            ));
        }
        fmt.write_str(s.as_str());
    }
}

impl Default for Doc {
    /// The default documentation block is empty.
    fn default() -> (r: Self)
        ensures
            r.docs.deep_view() == Seq::<Seq<char>>::empty(),
    {
        Doc::new()
    }
}

} // verus!
