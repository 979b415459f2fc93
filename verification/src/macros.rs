//! Preprocessor macro definitions of the generated code, with optional
//! arguments and a possibly multi-line replacement value.

use vstd::prelude::*;

use crate::doc::Doc;
use crate::doc::add_text_entries;
use crate::doc::doc_add_text;
use crate::doc::opt_doc_flat;
use crate::doc::opt_doc_lines;
use crate::doc::push_opt_doc;
use crate::formatter::Formatter;
use crate::formatter::INDENT_STEP;
use crate::formatter::line_start;
use crate::formatter::nst;
use crate::formatter::written;
use crate::text::lines_of;
use crate::text::split_lines;

verus! {

/// A preprocessor macro definition.
#[derive(Debug)]
pub struct Macro {
    /// The name of the macro.
    pub name: String,
    /// The arguments of the macro.
    pub args: Vec<String>,
    /// The replacement value of the macro, if any.
    pub value: Option<String>,
    /// The documentation comment of the macro.
    pub doc: Option<Doc>,
}

/// Macro arguments joined with `, `.
pub open spec fn macro_args_text(args: Seq<Seq<char>>) -> Seq<char>
    decreases args.len(),
{
    if args.len() == 0 {
        Seq::empty()
    } else if args.len() == 1 {
        args.last()
    } else {
        macro_args_text(args.drop_last()) + ", "@ + args.last()
    }
}

/// The head of a macro definition: documentation, `#define <name> `, and
/// the parenthesized argument list when arguments are present.
pub open spec fn macro_head_flat(m: Macro) -> Seq<char> {
    opt_doc_flat(m.doc) + "#define "@ + m.name@ + " "@ + (if m.args@.len() > 0 {
        "("@ + macro_args_text(m.args.deep_view()) + ")"@
    } else {
        Seq::<char>::empty()
    })
}

/// The replacement value of a macro written line by line at indentation
/// `ind`: the first line continues the current line, each further line is
/// preceded by a backslash line break, and a final newline closes the
/// definition.
pub open spec fn macro_value_text(ls: Seq<Seq<char>>, ind: nat, st: bool, first: bool) -> Seq<char>
    decreases ls.len(),
{
    if ls.len() == 0 {
        written("\n"@, ind, st)
    } else {
        let chunk = if first {
            ls[0]
        } else {
            "\\\n"@ + ls[0]
        };
        written(chunk, ind, st) + macro_value_text(
            ls.subrange(1, ls.len() as int),
            ind,
            nst(chunk, st),
            false,
        )
    }
}

/// The rendered text of a macro at indentation `ind` with line-start state
/// `st`.
pub open spec fn macro_text(m: Macro, ind: nat, st: bool) -> Seq<char> {
    let head = macro_head_flat(m);
    let st1 = nst(head, st);
    written(head, ind, st) + (match m.value {
        Some(v) => macro_value_text(split_lines(v@), (ind + INDENT_STEP) as nat, st1, true),
        None => written("\n"@, ind, st1),
    })
}

impl Macro {
    /// Creates a new macro with the given name.
    pub fn new(name: &str) -> (r: Self)
        ensures
            r.name@ == name@,
            r.args@ == Seq::<String>::empty(),
            r.value is None,
            r.doc is None,
    {
        Self::with_name(name.to_owned())
    }

    /// Creates a new macro, consuming the given name.
    pub fn with_name(name: String) -> (r: Self)
        ensures
            r.name@ == name@,
            r.args@ == Seq::<String>::empty(),
            r.value is None,
            r.doc is None,
    {
        Macro { name, args: Vec::new(), value: None, doc: None }
    }

    /// Adds a string to the documentation comment of the macro.
    pub fn doc_str(&mut self, doc: &str) -> (r: &mut Self)
        ensures
            r.name == old(self).name,
            r.args == old(self).args,
            r.value == old(self).value,
            opt_doc_lines(r.doc) == opt_doc_lines(old(self).doc) + add_text_entries(doc@),
            *final(self) == *final(r),
    {
        doc_add_text(&mut self.doc, doc);
        self
    }

    /// Replaces the documentation comment of the macro.
    pub fn doc(&mut self, doc: Doc) -> (r: &mut Self)
        ensures
            r.name == old(self).name,
            r.args == old(self).args,
            r.value == old(self).value,
            r.doc == Some(doc),
            *final(self) == *final(r),
    {
        self.doc = Some(doc);
        self
    }

    /// Adds a new argument to the macro.
    pub fn new_arg(&mut self, arg: &str) -> (r: &mut Self)
        ensures
            r.name == old(self).name,
            r.value == old(self).value,
            r.doc == old(self).doc,
            r.args.deep_view() == old(self).args.deep_view().push(arg@),
            *final(self) == *final(r),
    {
        let owned = arg.to_owned();
        self.args.push(owned);
        proof {
            assert(self.args.deep_view() =~~= old(self).args.deep_view().push(arg@));
        }
        self
    }

    /// Sets the replacement value of the macro.
    pub fn set_value(&mut self, value: &str) -> (r: &mut Self)
        ensures
            r.name == old(self).name,
            r.args == old(self).args,
            r.doc == old(self).doc,
            r.value matches Some(v) && v@ == value@,
            *final(self) == *final(r),
    {
        self.value = Some(value.to_owned());
        self
    }

    /// Appends the head of the macro definition to `s`.
    #[verifier::loop_isolation(false)]
    fn push_head_flat(&self, s: &mut String)
        ensures
            final(s)@ == old(s)@ + macro_head_flat(*self),
    {
        push_opt_doc(&self.doc, s);
        s.append("#define ");
        s.append(self.name.as_str());
        s.append(" ");
        if self.args.len() > 0 {
            s.append("(");
            let ghost vs = self.args.deep_view();
            let mut i: usize = 0;
            let ghost mid = s@;
            proof {
                assert(vs.subrange(0, 0) =~= Seq::<Seq<char>>::empty());
                assert(s@ + macro_args_text(vs.subrange(0, 0)) =~= s@);
            }
            while i < self.args.len()
                invariant
                    i <= self.args.len(),
                    s@ == mid + macro_args_text(vs.subrange(0, i as int)),
                decreases self.args.len() - i,
            {
                if i > 0 {
                    s.append(", ");
                }
                s.append(self.args[i].as_str());
                proof {
                    let cur = vs.subrange(0, i as int + 1);
                    assert(cur.drop_last() =~= vs.subrange(0, i as int));
                    assert(cur.last() == vs[i as int]);
                    assert(s@ =~= mid + macro_args_text(cur));
                }
                i += 1;
            }
            proof {
                assert(vs.subrange(0, vs.len() as int) =~= vs);
            }
            s.append(")");
        }
        proof {
            assert(s@ =~= old(s)@ + macro_head_flat(*self));
        }
    }

    /// Writes the macro definition through the formatter.
    #[verifier::loop_isolation(false)]
    #[verifier::rlimit(60)]
    pub fn fmt(&self, fmt: &mut Formatter)
        requires
            old(fmt).spaces + INDENT_STEP <= usize::MAX,
        ensures
            final(fmt).out@ == old(fmt).out@ + macro_text(
                *self,
                old(fmt).spaces as nat,
                line_start(old(fmt).out@),
            ),
            final(fmt).spaces == old(fmt).spaces,
            final(fmt).scopes == old(fmt).scopes,
    {
        let ghost ind = fmt.spaces as nat;
        let ghost ind4 = (ind + INDENT_STEP) as nat;
        let ghost st0 = line_start(fmt.out@);
        let mut head = String::new();
        self.push_head_flat(&mut head);
        proof {
            assert(head@ =~= macro_head_flat(*self));
        }
        fmt.write_str(head.as_str());
        proof {
            crate::formatter::lemma_written_nst(macro_head_flat(*self), ind, st0);
            crate::formatter::lemma_line_start_concat(
                old(fmt).out@,
                written(macro_head_flat(*self), ind, st0),
            );
        }
        match &self.value {
            Some(v) => {
                fmt.indent_inc();
                let ghost lsv = split_lines(v@);
                let ghost target = old(fmt).out@ + macro_text(*self, ind, st0);
                let lines = lines_of(v.as_str());
                let mut i: usize = 0;
                proof {
                    assert(lsv.subrange(0, lsv.len() as int) =~= lsv);
                }
                while i < lines.len()
                    invariant
                        i <= lines.len(),
                        target == fmt.out@ + macro_value_text(
                            lsv.subrange(i as int, lsv.len() as int),
                            ind4,
                            line_start(fmt.out@),
                            i == 0,
                        ),
                        fmt.spaces == old(fmt).spaces + INDENT_STEP,
                        fmt.scopes == old(fmt).scopes,
                    decreases lines.len() - i,
                {
                    let ghost rest = lsv.subrange(i as int, lsv.len() as int);
                    let ghost rest1 = lsv.subrange(i as int + 1, lsv.len() as int);
                    let ghost stc = line_start(fmt.out@);
                    proof {
                        assert(rest.subrange(1, rest.len() as int) =~= rest1);
                        assert(rest[0] == lsv[i as int]);
                    }
                    let mut chunk = String::new();
                    if i > 0 {
                        chunk.append("\\\n");
                    }
                    chunk.append(lines[i].as_str());
                    proof {
                        if i > 0 {
                            assert(chunk@ =~= "\\\n"@ + lsv[i as int]);
                        } else {
                            assert(chunk@ =~= lsv[i as int]);
                        }
                    }
                    let ghost prev = fmt.out@;
                    fmt.write_str(chunk.as_str());
                    proof {
                        crate::formatter::lemma_written_nst(chunk@, ind4, stc);
                        crate::formatter::lemma_line_start_concat(
                            prev,
                            written(chunk@, ind4, stc),
                        );
                        assert(target =~= fmt.out@ + macro_value_text(
                            rest1,
                            ind4,
                            nst(chunk@, stc),
                            false,
                        ));
                    }
                    i += 1;
                }
                proof {
                    assert(lsv.subrange(lsv.len() as int, lsv.len() as int) =~= Seq::<
                        Seq<char>,
                    >::empty());
                }
                fmt.write_str("\n");
                fmt.indent_dec();
                proof {
                    assert(final(fmt).out@ =~= old(fmt).out@ + macro_text(*self, ind, st0));
                }
            },
            None => {
                fmt.write_str("\n");
                proof {
                    assert(final(fmt).out@ =~= old(fmt).out@ + macro_text(*self, ind, st0));
                }
            },
        }
    }
}

} // verus!
