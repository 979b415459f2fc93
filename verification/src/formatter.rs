//! Indentation-tracking text sink.
//!
//! All rendered output of this crate flows through [`Formatter::write_str`],
//! which prefixes every non-empty physical line with the current indentation.
//! The function [`written`] is the mathematical model of one such write: it
//! maps the written text, the indentation width and the "at start of line"
//! state of the buffer to the exact sequence of characters that the write
//! appends.

use vstd::prelude::*;

use crate::text::push_char;

verus! {

/// The fixed indentation step: each nested block shifts its contents by this
/// many spaces.
pub const INDENT_STEP: usize = 4;

/// True when a buffer holding `s` sits at the start of a physical line: it is
/// empty, or its last character is a newline.
pub open spec fn line_start(s: Seq<char>) -> bool {
    s.len() == 0 || s.last() == '\n'
}

/// `n` spaces.
pub open spec fn indent_seq(n: nat) -> Seq<char> {
    Seq::new(n, |i: int| ' ')
}

/// The line-start state after text `s` has been written to a buffer whose
/// line-start state was `st`: unchanged by an empty write, and otherwise
/// decided by the last character written.
pub open spec fn nst(s: Seq<char>, st: bool) -> bool {
    if s.len() == 0 {
        st
    } else {
        s.last() == '\n'
    }
}

/// What one character contributes to the output: a newline passes through; any
/// other character is prefixed with `ind` spaces when it begins a line.
pub open spec fn char_written(c: char, ind: nat, st: bool) -> Seq<char> {
    if c == '\n' {
        seq!['\n']
    } else if st {
        indent_seq(ind) + seq![c]
    } else {
        seq![c]
    }
}

/// The exact text a write of `s` appends to a buffer at indentation `ind`
/// whose line-start state is `st`.
pub open spec fn written(s: Seq<char>, ind: nat, st: bool) -> Seq<char>
    decreases s.len(),
{
    if s.len() == 0 {
        Seq::empty()
    } else {
        written(s.drop_last(), ind, st) + char_written(s.last(), ind, nst(s.drop_last(), st))
    }
}

/// The line-start state threads through concatenation.
pub proof fn lemma_nst_concat(a: Seq<char>, b: Seq<char>, st: bool)
    ensures
        nst(a + b, st) == nst(b, nst(a, st)),
{
    if b.len() == 0 {
        assert(a + b =~= a);
    }
}

/// A non-empty write produces non-empty output ending in the same character,
/// so it leaves the buffer in the line-start state of the written text.
pub proof fn lemma_written_nst(s: Seq<char>, ind: nat, st: bool)
    ensures
        s.len() > 0 ==> written(s, ind, st).len() > 0 && written(s, ind, st).last() == s.last(),
        nst(written(s, ind, st), st) == nst(s, st),
    decreases s.len(),
{
    if s.len() > 0 {
        lemma_written_nst(s.drop_last(), ind, st);
    }
}

/// Writing a concatenation is writing the parts in turn, the second starting
/// in the line-start state the first leaves behind.  This is why assembling
/// a flat piece of text and writing it once emits the same characters as
/// writing it in many small pieces at the same indentation.
pub proof fn lemma_written_concat(a: Seq<char>, b: Seq<char>, ind: nat, st: bool)
    ensures
        written(a + b, ind, st) == written(a, ind, st) + written(b, ind, nst(a, st)),
    decreases b.len(),
{
    if b.len() == 0 {
        assert(a + b =~= a);
        assert(written(a, ind, st) + written(b, ind, nst(a, st)) =~= written(a, ind, st));
    } else {
        lemma_written_concat(a, b.drop_last(), ind, st);
        assert((a + b).drop_last() =~= a + b.drop_last());
        assert((a + b).last() == b.last());
        lemma_nst_concat(a, b.drop_last(), st);
        assert(written(a + b, ind, st) == written(a + b.drop_last(), ind, st) + char_written(
            b.last(),
            ind,
            nst(b.drop_last(), nst(a, st)),
        ));
        assert(written(a, ind, st) + written(b, ind, nst(a, st)) =~= written(a, ind, st) + (written(
            b.drop_last(),
            ind,
            nst(a, st),
        ) + char_written(b.last(), ind, nst(b.drop_last(), nst(a, st)))));
    }
}

/// The line-start state of a buffer after an append.
pub proof fn lemma_line_start_concat(a: Seq<char>, b: Seq<char>)
    ensures
        line_start(a + b) == nst(b, line_start(a)),
{
    if b.len() == 0 {
        assert(a + b =~= a);
    }
}

/// What opening a brace-delimited block writes: a space first when the
/// buffer stands mid-line, then `{` and a newline.
pub open spec fn brace_open(st: bool) -> Seq<char> {
    if st {
        "{\n"@
    } else {
        " {\n"@
    }
}

/// Appending in two steps is appending the concatenation: reassociates a
/// buffer extension.
pub proof fn lemma_out_assoc(base: Seq<char>, a: Seq<char>, b: Seq<char>)
    ensures
        (base + a) + b == base + (a + b),
{
    assert((base + a) + b =~= base + (a + b));
}

/// At indentation zero a write passes its text through unchanged.
pub proof fn lemma_written_zero_indent(s: Seq<char>, st: bool)
    ensures
        written(s, 0, st) == s,
    decreases s.len(),
{
    if s.len() == 0 {
        assert(written(s, 0, st) =~= s);
    } else {
        lemma_written_zero_indent(s.drop_last(), st);
        assert(indent_seq(0) =~= Seq::<char>::empty());
        assert(written(s, 0, st) =~= s);
    }
}

/// The qualification prefix that a stack of scope names contributes to a
/// scoped name: each name, outermost first, followed by `::`.
pub open spec fn scoped_prefix(ps: Seq<Seq<char>>) -> Seq<char>
    decreases ps.len(),
{
    if ps.len() == 0 {
        Seq::empty()
    } else {
        scoped_prefix(ps.drop_last()) + ps.last() + "::"@
    }
}

/// Formatter for a scope: a growable text buffer together with the current
/// indentation width and the stack of C++ scope names entered so far.
pub struct Formatter {
    /// The destination buffer for the formatter.
    pub out: String,
    /// The current indentation width, in spaces.
    pub spaces: usize,
    /// The names of the enclosing C++ scopes, outermost first.
    pub scopes: Vec<String>,
}

impl Formatter {
    /// Returns a new formatter with an empty buffer at indentation zero.
    pub fn new() -> (r: Formatter)
        ensures
            r.out@ == Seq::<char>::empty(),
            r.spaces == 0,
            r.scopes@ == Seq::<String>::empty(),
    {
        Formatter { out: String::new(), spaces: 0, scopes: Vec::new() }
    }

    /// The current indentation width.
    pub fn get_indent(&self) -> (r: usize)
        ensures
            r == self.spaces,
    {
        self.spaces
    }

    /// Checks whether the buffer currently sits at the start of a line.
    pub fn is_start_of_line(&self) -> (r: bool)
        ensures
            r == line_start(self.out@),
    {
        let s = self.out.as_str();
        let n = s.unicode_len();
        if n == 0 {
            true
        } else {
            s.get_char(n - 1) == '\n'
        }
    }

    /// Writes the current indentation as spaces.
    fn push_spaces(&mut self)
        ensures
            final(self).out@ == old(self).out@ + indent_seq(old(self).spaces as nat),
            final(self).spaces == old(self).spaces,
            final(self).scopes == old(self).scopes,
    {
        let mut j: usize = 0;
        proof {
            assert(self.out@ + indent_seq(0) =~= self.out@);
        }
        while j < self.spaces
            invariant
                j <= self.spaces,
                self.spaces == old(self).spaces,
                self.scopes == old(self).scopes,
                self.out@ == old(self).out@ + indent_seq(j as nat),
            decreases self.spaces - j,
        {
            push_char(&mut self.out, ' ');
            proof {
                assert((old(self).out@ + indent_seq(j as nat)) + seq![' '] =~= old(self).out@
                    + indent_seq((j + 1) as nat));
            }
            j += 1;
        }
    }

    /// Appends `s` to the buffer, prefixing every written character that
    /// begins a non-empty physical line with the current indentation.
    #[verifier::loop_isolation(false)]
    pub fn write_str(&mut self, s: &str)
        ensures
            final(self).out@ == old(self).out@ + written(
                s@,
                old(self).spaces as nat,
                line_start(old(self).out@),
            ),
            final(self).spaces == old(self).spaces,
            final(self).scopes == old(self).scopes,
    {
        let ghost st0 = line_start(self.out@);
        let ghost ind = self.spaces as nat;
        let n = s.unicode_len();
        let mut at = self.is_start_of_line();
        let mut i: usize = 0;
        proof {
            assert(s@.subrange(0, 0) =~= Seq::<char>::empty());
            assert(self.out@ + written(s@.subrange(0, 0), ind, st0) =~= self.out@);
        }
        while i < n
            invariant
                i <= n,
                self.spaces == old(self).spaces,
                self.scopes == old(self).scopes,
                self.out@ == old(self).out@ + written(s@.subrange(0, i as int), ind, st0),
                at == nst(s@.subrange(0, i as int), st0),
            decreases n - i,
        {
            let ghost pre = s@.subrange(0, i as int);
            let ghost cur = s@.subrange(0, i as int + 1);
            proof {
                assert(cur.drop_last() =~= pre);
                assert(cur.last() == s@[i as int]);
            }
            let c = s.get_char(i);
            if c == '\n' {
                push_char(&mut self.out, '\n');
                at = true;
            } else {
                if at {
                    self.push_spaces();
                }
                push_char(&mut self.out, c);
                at = false;
            }
            proof {
                assert(self.out@ =~= old(self).out@ + written(cur, ind, st0));
            }
            i += 1;
        }
        proof {
            assert(s@.subrange(0, n as int) =~= s@);
        }
    }

    /// Opens a brace-delimited block: a space first when mid-line, then
    /// `{`, a newline, and one step of indentation.
    pub fn block_open(&mut self)
        requires
            old(self).spaces + INDENT_STEP <= usize::MAX,
        ensures
            final(self).out@ == old(self).out@ + written(
                brace_open(line_start(old(self).out@)),
                old(self).spaces as nat,
                line_start(old(self).out@),
            ),
            final(self).spaces == old(self).spaces + INDENT_STEP,
            final(self).scopes == old(self).scopes,
            line_start(final(self).out@),
    {
        if self.is_start_of_line() {
            self.write_str("{\n");
        } else {
            self.write_str(" {\n");
        }
        proof {
            let b = brace_open(line_start(old(self).out@));
            reveal_strlit("{\n");
            reveal_strlit(" {\n");
            lemma_written_nst(b, old(self).spaces as nat, line_start(old(self).out@));
            lemma_line_start_concat(
                old(self).out@,
                written(b, old(self).spaces as nat, line_start(old(self).out@)),
            );
        }
        self.indent_inc();
    }

    /// Closes a brace-delimited block: undoes one step of indentation and
    /// writes `}` on a line of its own.
    pub fn block_close(&mut self)
        requires
            old(self).spaces >= INDENT_STEP,
        ensures
            final(self).out@ == old(self).out@ + written(
                "}\n"@,
                (old(self).spaces - INDENT_STEP) as nat,
                line_start(old(self).out@),
            ),
            final(self).spaces == old(self).spaces - INDENT_STEP,
            final(self).scopes == old(self).scopes,
            line_start(final(self).out@),
    {
        self.indent_dec();
        self.write_str("}\n");
        proof {
            reveal_strlit("}\n");
            lemma_written_nst(
                "}\n"@,
                (old(self).spaces - INDENT_STEP) as nat,
                line_start(old(self).out@),
            );
            lemma_line_start_concat(
                old(self).out@,
                written(
                    "}\n"@,
                    (old(self).spaces - INDENT_STEP) as nat,
                    line_start(old(self).out@),
                ),
            );
        }
    }

    /// Increases the indentation by one step.
    pub fn indent_inc(&mut self)
        requires
            old(self).spaces + INDENT_STEP <= usize::MAX,
        ensures
            final(self).spaces == old(self).spaces + INDENT_STEP,
            final(self).out == old(self).out,
            final(self).scopes == old(self).scopes,
    {
        self.spaces = self.spaces + INDENT_STEP;
    }

    /// Decreases the indentation by one step, undoing one [`Self::indent_inc`].
    pub fn indent_dec(&mut self)
        requires
            old(self).spaces >= INDENT_STEP,
        ensures
            final(self).spaces == old(self).spaces - INDENT_STEP,
            final(self).out == old(self).out,
            final(self).scopes == old(self).scopes,
    {
        self.spaces = self.spaces - INDENT_STEP;
    }

    /// Enters a named C++ scope; scoped names written afterwards carry it as a
    /// prefix.
    pub fn scope_enter(&mut self, name: &str)
        ensures
            final(self).scopes.deep_view() == old(self).scopes.deep_view().push(name@),
            final(self).out == old(self).out,
            final(self).spaces == old(self).spaces,
    {
        let owned = name.to_owned();
        self.scopes.push(owned);
        proof {
            assert(self.scopes.deep_view() =~= old(self).scopes.deep_view().push(name@));
        }
    }

    /// Leaves the innermost C++ scope.
    pub fn scope_exit(&mut self)
        requires
            old(self).scopes@.len() > 0,
        ensures
            final(self).scopes.deep_view() == old(self).scopes.deep_view().drop_last(),
            final(self).out == old(self).out,
            final(self).spaces == old(self).spaces,
    {
        let _ = self.scopes.pop();
        proof {
            assert(self.scopes.deep_view() =~= old(self).scopes.deep_view().drop_last());
        }
    }

    /// The given name qualified by every enclosing scope name, as in
    /// `Outer::Inner::name`.
    #[verifier::loop_isolation(false)]
    pub fn scoped_name_string(&self, name: &str) -> (r: String)
        ensures
            r@ == scoped_prefix(self.scopes.deep_view()) + name@,
    {
        let ghost ps = self.scopes.deep_view();
        let mut qualified = String::new();
        let mut i: usize = 0;
        proof {
            assert(ps.subrange(0, 0) =~= Seq::<Seq<char>>::empty());
            assert(qualified@ =~= scoped_prefix(ps.subrange(0, 0)));
        }
        while i < self.scopes.len()
            invariant
                i <= self.scopes.len(),
                qualified@ == scoped_prefix(ps.subrange(0, i as int)),
            decreases self.scopes.len() - i,
        {
            proof {
                assert(ps.subrange(0, i as int + 1).drop_last() =~= ps.subrange(0, i as int));
                assert(ps.subrange(0, i as int + 1).last() == ps[i as int]);
            }
            qualified.append(self.scopes[i].as_str());
            qualified.append("::");
            i += 1;
        }
        proof {
            assert(ps.subrange(0, ps.len() as int) =~= ps);
        }
        qualified.append(name);
        qualified
    }

    /// Writes `name` qualified by every enclosing scope name, as in
    /// `Outer::Inner::name`.
    pub fn write_scoped_name(&mut self, name: &str)
        ensures
            final(self).out@ == old(self).out@ + written(
                scoped_prefix(old(self).scopes.deep_view()) + name@,
                old(self).spaces as nat,
                line_start(old(self).out@),
            ),
            final(self).spaces == old(self).spaces,
            final(self).scopes == old(self).scopes,
    {
        let qualified = self.scoped_name_string(name);
        self.write_str(qualified.as_str());
    }

    /// Takes the rendered text out of the formatter.
    pub fn output(self) -> (r: String)
        ensures
            r@ == self.out@,
    {
        self.out
    }
}

} // verus!
