//! C++ class methods of the generated code, with visibility, virtual and
//! const markers, and the declaration/definition split for inline members.

use vstd::prelude::*;

use crate::doc::Doc;
use crate::doc::add_text_entries;
use crate::doc::doc_add_text;
use crate::doc::opt_doc_flat;
use crate::doc::opt_doc_lines;
use crate::doc::push_opt_doc;
use crate::formatter::Formatter;
use crate::formatter::INDENT_STEP;
use crate::formatter::lemma_line_start_concat;
use crate::formatter::lemma_out_assoc;
use crate::formatter::lemma_written_nst;
use crate::formatter::line_start;
use crate::formatter::nst;
use crate::formatter::written;
use crate::param::MethodParam;
use crate::param::method_param_flat;
use crate::stmt::Stmt;
use crate::stmt::lemma_stmts_size_elem;
use crate::stmt::stmts_size;
use crate::stmt::stmts_text;
use crate::types::Type;
use crate::types::Visibility;
use crate::types::type_text;

verus! {

/// A C++ class method.
#[derive(Debug)]
pub struct Method {
    /// The name of the method.
    pub name: String,
    /// The visibility of the method.
    pub visibility: Visibility,
    /// The documentation comment of the method.
    pub doc: Option<Doc>,
    /// The arguments of the method, in order.
    pub args: Vec<MethodParam>,
    /// The return type of the method.
    pub ret: Type,
    /// Whether the method is static.
    pub is_static: bool,
    /// Whether the method is inline.
    pub is_inline: bool,
    /// Whether the method is virtual.
    pub is_virtual: bool,
    /// Whether the method is pure virtual.
    pub is_pure: bool,
    /// Whether the method overrides a base method.
    pub is_override: bool,
    /// Whether the method leaves `this` unchanged.
    pub is_const: bool,
    /// Whether the definition stands inside the class.
    pub is_inside: bool,
    /// The body of the method.
    pub body: Vec<Stmt>,
}

/// The arguments of a method joined with `, `, without default values.
pub open spec fn method_args_join(ps: Seq<MethodParam>) -> Seq<char>
    decreases ps,
{
    if ps.len() == 0 {
        Seq::empty()
    } else if ps.len() == 1 {
        method_param_flat(ps[0], false)
    } else {
        method_args_join(ps.subrange(0, ps.len() - 1)) + ", "@ + method_param_flat(
            ps[ps.len() - 1],
            false,
        )
    }
}

/// The parenthesized argument list of a method: `(void)` for an empty list,
/// otherwise the arguments joined with `, `.
pub open spec fn method_params_text(ps: Seq<MethodParam>) -> Seq<char> {
    if ps.len() == 0 {
        "(void)"@
    } else {
        "("@ + method_args_join(ps) + ")"@
    }
}

/// The head of a method: documentation, markers, return type, name, the
/// argument list, and the trailing const and override markers.
pub open spec fn method_head_flat(m: Method) -> Seq<char> {
    opt_doc_flat(m.doc) + (if m.is_static {
        "static "@
    } else {
        Seq::<char>::empty()
    }) + (if m.is_inline {
        "inline "@
    } else {
        Seq::<char>::empty()
    }) + (if m.is_virtual {
        "virtual "@
    } else {
        Seq::<char>::empty()
    }) + type_text(m.ret) + " "@ + m.name@ + method_params_text(m.args@) + (if m.is_const {
        " const"@
    } else {
        Seq::<char>::empty()
    }) + (if m.is_override {
        " override"@
    } else {
        Seq::<char>::empty()
    })
}

/// Whether a rendering of the method stops at a declaration: the body is
/// empty, or only a declaration is wanted and the method is neither defined
/// inside the class nor inline.
pub open spec fn method_decl_only(m: Method, decl_only: bool) -> bool {
    m.body@.len() == 0 || (decl_only && !(m.is_inside || m.is_inline))
}

/// The rendered text of a method at indentation `ind` with line-start state
/// `st`: a pure method closes with ` = 0;`, a declaration with `;`, and a
/// definition carries its body in braces.
pub open spec fn method_text(m: Method, ind: nat, st: bool, decl_only: bool) -> Seq<char> {
    let head = method_head_flat(m);
    if m.is_pure {
        written(head + " = 0;"@, ind, st)
    } else if method_decl_only(m, decl_only) {
        written(head + ";\n"@, ind, st)
    } else {
        written(head + " {\n\n"@, ind, st) + stmts_text(m.body@, (ind + INDENT_STEP) as nat)
            + written("}"@, ind, true)
    }
}

/// The definition-mode emission of a method: nothing for an inline method
/// or one defined inside the class, whose body already stands at the
/// declaration.
pub open spec fn method_def_text(m: Method, ind: nat, st: bool) -> Seq<char> {
    if m.is_inline || m.is_inside {
        Seq::empty()
    } else {
        method_text(m, ind, st, false)
    }
}

/// Law: a method with no arguments renders its argument list as `(void)`,
/// never as a bare `()`.
pub proof fn lemma_void_parameter_list(ps: Seq<MethodParam>)
    requires
        ps.len() == 0,
    ensures
        method_params_text(ps) == "(void)"@,
{
}

/// Law: a method marked inline emits nothing at all in definition mode,
/// while its declaration-mode rendering is never empty.
pub proof fn lemma_inline_split(m: Method, ind: nat, st: bool)
    requires
        m.is_inline,
    ensures
        method_def_text(m, ind, st) == Seq::<char>::empty(),
        method_text(m, ind, st, true).len() > 0,
{
    reveal_strlit(" = 0;");
    reveal_strlit(";\n");
    reveal_strlit(" {\n\n");
    let head = method_head_flat(m);
    if m.is_pure {
        lemma_written_nst(head + " = 0;"@, ind, st);
    } else if method_decl_only(m, true) {
        lemma_written_nst(head + ";\n"@, ind, st);
    } else {
        lemma_written_nst(head + " {\n\n"@, ind, st);
    }
}

impl Method {
    /// Creates a new method with the given name and return type, private by
    /// default.
    pub fn new(name: &str, ret: Type) -> (r: Self)
        ensures
            r.name@ == name@,
            r.ret == ret,
            r.visibility == Visibility::Private,
            r.doc is None,
            r.args@ == Seq::<MethodParam>::empty(),
            !r.is_static,
            !r.is_inline,
            !r.is_virtual,
            !r.is_pure,
            !r.is_override,
            !r.is_const,
            !r.is_inside,
            r.body@ == Seq::<Stmt>::empty(),
    {
        Method {
            name: name.to_owned(),
            doc: None,
            visibility: Visibility::Private,
            args: Vec::new(),
            ret,
            is_static: false,
            is_inline: false,
            is_virtual: false,
            is_pure: false,
            is_override: false,
            is_const: false,
            is_inside: false,
            body: Vec::new(),
        }
    }

    /// Adds a string to the documentation comment of the method.
    pub fn doc_str(&mut self, doc: &str) -> (r: &mut Self)
        ensures
            opt_doc_lines(r.doc) == opt_doc_lines(old(self).doc) + add_text_entries(doc@),
            *r == (Method { doc: r.doc, ..*old(self) }),
            *final(self) == *final(r),
    {
        doc_add_text(&mut self.doc, doc);
        self
    }

    /// Replaces the documentation comment of the method.
    pub fn add_doc(&mut self, doc: Doc) -> (r: &mut Self)
        ensures
            *r == (Method { doc: Some(doc), ..*old(self) }),
            *final(self) == *final(r),
    {
        self.doc = Some(doc);
        self
    }

    /// Sets the visibility of the method.
    pub fn set_visibility(&mut self, vis: Visibility) -> (r: &mut Self)
        ensures
            *r == (Method { visibility: vis, ..*old(self) }),
            *final(self) == *final(r),
    {
        self.visibility = vis;
        self
    }

    /// Checks whether the method is public.
    pub fn is_public(&self) -> (r: bool)
        ensures
            r == (self.visibility == Visibility::Public),
    {
        self.visibility == Visibility::Public
    }

    /// Checks whether the method is protected.
    pub fn is_protected(&self) -> (r: bool)
        ensures
            r == (self.visibility == Visibility::Protected),
    {
        self.visibility == Visibility::Protected
    }

    /// Checks whether the method is private; the default visibility counts
    /// as private.
    pub fn is_private(&self) -> (r: bool)
        ensures
            r == (self.visibility == Visibility::Private || self.visibility
                == Visibility::Default),
    {
        self.visibility == Visibility::Private || self.visibility == Visibility::Default
    }

    /// Makes the method public.
    pub fn public(&mut self) -> (r: &mut Self)
        ensures
            *r == (Method { visibility: Visibility::Public, ..*old(self) }),
            *final(self) == *final(r),
    {
        self.set_visibility(Visibility::Public)
    }

    /// Makes the method protected.
    pub fn protected(&mut self) -> (r: &mut Self)
        ensures
            *r == (Method { visibility: Visibility::Protected, ..*old(self) }),
            *final(self) == *final(r),
    {
        self.set_visibility(Visibility::Protected)
    }

    /// Makes the method private.
    pub fn private(&mut self) -> (r: &mut Self)
        ensures
            *r == (Method { visibility: Visibility::Private, ..*old(self) }),
            *final(self) == *final(r),
    {
        self.set_visibility(Visibility::Private)
    }

    /// Adds an argument to the method.
    pub fn add_argument(&mut self, arg: MethodParam) -> (r: &mut Self)
        ensures
            r.args@ == old(self).args@.push(arg),
            *r == (Method { args: r.args, ..*old(self) }),
            *final(self) == *final(r),
    {
        self.args.push(arg);
        self
    }

    /// Sets whether the method overrides a base method.
    pub fn set_override(&mut self, val: bool) -> (r: &mut Self)
        ensures
            *r == (Method { is_override: val, ..*old(self) }),
            *final(self) == *final(r),
    {
        self.is_override = val;
        self
    }

    /// Sets the const marker; despite its name this shorthand does not
    /// touch the override marker.
    pub fn overrid(&mut self) -> (r: &mut Self)
        ensures
            *r == (Method { is_const: true, ..*old(self) }),
            *final(self) == *final(r),
    {
        self.set_const(true)
    }

    /// Sets the const marker of the method.
    pub fn set_const(&mut self, val: bool) -> (r: &mut Self)
        ensures
            *r == (Method { is_const: val, ..*old(self) }),
            *final(self) == *final(r),
    {
        self.is_const = val;
        self
    }

    /// Makes the method const.
    pub fn constant(&mut self) -> (r: &mut Self)
        ensures
            *r == (Method { is_const: true, ..*old(self) }),
            *final(self) == *final(r),
    {
        self.set_const(true)
    }

    /// Sets the virtual marker of the method; clearing it clears the pure
    /// marker too.
    pub fn set_virtual(&mut self, val: bool) -> (r: &mut Self)
        ensures
            *r == (Method {
                is_virtual: val,
                is_pure: if val {
                    old(self).is_pure
                } else {
                    false
                },
                ..*old(self)
            }),
            *final(self) == *final(r),
    {
        if !val {
            self.is_pure = false;
        }
        self.is_virtual = val;
        self
    }

    /// Makes the method virtual.
    pub fn virt(&mut self) -> (r: &mut Self)
        ensures
            *r == (Method { is_virtual: true, ..*old(self) }),
            *final(self) == *final(r),
    {
        self.set_virtual(true)
    }

    /// Sets the pure marker of the method; setting it makes the method
    /// virtual as well.
    pub fn set_pure(&mut self, val: bool) -> (r: &mut Self)
        ensures
            *r == (Method {
                is_pure: val,
                is_virtual: if val {
                    true
                } else {
                    old(self).is_virtual
                },
                ..*old(self)
            }),
            *final(self) == *final(r),
    {
        if val {
            self.is_virtual = true;
        }
        self.is_pure = val;
        self
    }

    /// Turns the method into a pure virtual method.
    pub fn pure(&mut self) -> (r: &mut Self)
        ensures
            *r == (Method { is_pure: true, is_virtual: true, ..*old(self) }),
            *final(self) == *final(r),
    {
        self.set_pure(true)
    }

    /// Sets the static marker of the method.
    pub fn set_static(&mut self, val: bool) -> (r: &mut Self)
        ensures
            *r == (Method { is_static: val, ..*old(self) }),
            *final(self) == *final(r),
    {
        self.is_static = val;
        self
    }

    /// Makes the method static.
    pub fn sstatic(&mut self) -> (r: &mut Self)
        ensures
            *r == (Method { is_static: true, ..*old(self) }),
            *final(self) == *final(r),
    {
        self.set_static(true)
    }

    /// Sets the inline marker of the method.
    pub fn set_inline(&mut self, val: bool) -> (r: &mut Self)
        ensures
            *r == (Method { is_inline: val, ..*old(self) }),
            *final(self) == *final(r),
    {
        self.is_inline = val;
        self
    }

    /// Makes the method inline.
    pub fn inline(&mut self) -> (r: &mut Self)
        ensures
            *r == (Method { is_inline: true, ..*old(self) }),
            *final(self) == *final(r),
    {
        self.set_inline(true)
    }

    /// Sets whether the definition stands inside the class.
    pub fn set_inside_def(&mut self, val: bool) -> (r: &mut Self)
        ensures
            *r == (Method { is_inside: val, ..*old(self) }),
            *final(self) == *final(r),
    {
        self.is_inside = val;
        self
    }

    /// Shorthand that sets the inline marker; despite its name it leaves
    /// the inside-the-class marker untouched, so the rendered split is the
    /// inline one.
    pub fn inside_def(&mut self) -> (r: &mut Self)
        ensures
            *r == (Method { is_inline: true, ..*old(self) }),
            *final(self) == *final(r),
    {
        self.set_inline(true)
    }

    /// Sets the body of the method; a non-empty body clears the pure marker.
    pub fn set_body(&mut self, body: Vec<Stmt>) -> (r: &mut Self)
        ensures
            *r == (Method {
                body,
                is_pure: if body@.len() > 0 {
                    false
                } else {
                    old(self).is_pure
                },
                ..*old(self)
            }),
            *final(self) == *final(r),
    {
        if body.len() > 0 {
            self.is_pure = false;
        }
        self.body = body;
        self
    }

    /// Pushes a statement onto the body of the method, clearing the pure
    /// marker.
    pub fn push_stmt(&mut self, stmt: Stmt, decl_only: bool) -> (r: &mut Self)
        ensures
            r.body@ == old(self).body@.push(stmt),
            r.is_pure == false,
            *r == (Method { body: r.body, is_pure: false, ..*old(self) }),
            *final(self) == *final(r),
    {
        let _ = decl_only;
        self.is_pure = false;
        self.body.push(stmt);
        self
    }

    /// Renders the parenthesized argument list of the method.
    #[verifier::loop_isolation(false)]
    fn params_string(&self) -> (r: String)
        ensures
            r@ == method_params_text(self.args@),
    {
        let mut s = String::new();
        if self.args.len() == 0 {
            s.append("(void)");
            proof {
                assert(Seq::<char>::empty() + "(void)"@ =~= "(void)"@);
            }
            return s;
        }
        s.append("(");
        let ghost psv = self.args@;
        let ghost mid = s@;
        let mut i: usize = 0;
        proof {
            assert(psv.subrange(0, psv.len() as int) =~= psv);
            assert(mid + method_args_join(psv.subrange(0, 0)) =~= mid);
        }
        while i < self.args.len()
            invariant
                i <= psv.len(),
                s@ == mid + method_args_join(psv.subrange(0, i as int)),
            decreases psv.len() - i,
        {
            if i > 0 {
                s.append(", ");
            }
            self.args[i].push_flat(&mut s, false);
            proof {
                let cur = psv.subrange(0, i as int + 1);
                assert(cur.subrange(0, cur.len() - 1) =~= psv.subrange(0, i as int));
                assert(cur[cur.len() - 1] == psv[i as int]);
                assert(s@ =~= mid + method_args_join(cur));
            }
            i += 1;
        }
        s.append(")");
        proof {
            assert(s@ =~= method_params_text(psv));
        }
        s
    }

    /// Appends the head of the method to `s`.
    #[verifier::rlimit(60)]
    #[verifier::spinoff_prover]
    fn push_head_flat(&self, s: &mut String)
        ensures
            final(s)@ == old(s)@ + method_head_flat(*self),
    {
        let ghost s0 = old(s)@;
        push_opt_doc(&self.doc, s);
        let ghost mut acc: Seq<char> = opt_doc_flat(self.doc);
        if self.is_static {
            s.append("static ");
            proof {
                lemma_out_assoc(s0, acc, "static "@);
            }
        } else {
            proof {
                assert(acc + Seq::<char>::empty() =~= acc);
            }
        }
        proof {
            acc = acc + (if self.is_static {
                "static "@
            } else {
                Seq::<char>::empty()
            });
        }
        if self.is_inline {
            s.append("inline ");
            proof {
                lemma_out_assoc(s0, acc, "inline "@);
            }
        } else {
            proof {
                assert(acc + Seq::<char>::empty() =~= acc);
            }
        }
        proof {
            acc = acc + (if self.is_inline {
                "inline "@
            } else {
                Seq::<char>::empty()
            });
        }
        if self.is_virtual {
            s.append("virtual ");
            proof {
                lemma_out_assoc(s0, acc, "virtual "@);
            }
        } else {
            proof {
                assert(acc + Seq::<char>::empty() =~= acc);
            }
        }
        proof {
            acc = acc + (if self.is_virtual {
                "virtual "@
            } else {
                Seq::<char>::empty()
            });
        }
        self.ret.push_text(s);
        proof {
            lemma_out_assoc(s0, acc, type_text(self.ret));
            acc = acc + type_text(self.ret);
        }
        s.append(" ");
        proof {
            lemma_out_assoc(s0, acc, " "@);
            acc = acc + " "@;
        }
        s.append(self.name.as_str());
        proof {
            lemma_out_assoc(s0, acc, self.name@);
            acc = acc + self.name@;
        }
        let params = self.params_string();
        s.append(params.as_str());
        proof {
            lemma_out_assoc(s0, acc, method_params_text(self.args@));
            acc = acc + method_params_text(self.args@);
        }
        if self.is_const {
            s.append(" const");
            proof {
                lemma_out_assoc(s0, acc, " const"@);
            }
        } else {
            proof {
                assert(acc + Seq::<char>::empty() =~= acc);
            }
        }
        proof {
            acc = acc + (if self.is_const {
                " const"@
            } else {
                Seq::<char>::empty()
            });
        }
        if self.is_override {
            s.append(" override");
            proof {
                lemma_out_assoc(s0, acc, " override"@);
            }
        } else {
            proof {
                assert(acc + Seq::<char>::empty() =~= acc);
            }
        }
        proof {
            acc = acc + (if self.is_override {
                " override"@
            } else {
                Seq::<char>::empty()
            });
            assert(acc == method_head_flat(*self));
        }
    }

    /// Writes the method through the formatter.
    #[verifier::rlimit(60)]
    #[verifier::spinoff_prover]
    pub fn do_fmt(&self, fmt: &mut Formatter, decl_only: bool)
        requires
            old(fmt).spaces + INDENT_STEP * (2 + stmts_size(self.body@)) <= usize::MAX,
        ensures
            final(fmt).out@ == old(fmt).out@ + method_text(
                *self,
                old(fmt).spaces as nat,
                line_start(old(fmt).out@),
                decl_only,
            ),
            final(fmt).spaces == old(fmt).spaces,
            final(fmt).scopes == old(fmt).scopes,
    {
        let ghost ind = fmt.spaces as nat;
        let ghost ind4 = (ind + INDENT_STEP) as nat;
        let ghost st0 = line_start(fmt.out@);
        let ghost out0 = fmt.out@;
        let mut head = String::new();
        self.push_head_flat(&mut head);
        if self.is_pure {
            head.append(" = 0;");
            proof {
                assert(head@ =~= method_head_flat(*self) + " = 0;"@);
            }
            fmt.write_str(head.as_str());
            return ;
        }
        let stop = self.body.len() == 0 || (decl_only && !(self.is_inside || self.is_inline));
        if stop {
            head.append(";\n");
            proof {
                assert(head@ =~= method_head_flat(*self) + ";\n"@);
            }
            fmt.write_str(head.as_str());
            return ;
        }
        head.append(" {\n\n");
        proof {
            assert(head@ =~= method_head_flat(*self) + " {\n\n"@);
        }
        let ghost h = written(head@, ind, st0);
        let ghost t = stmts_text(self.body@, ind4);
        let ghost c = written("}"@, ind, true);
        fmt.write_str(head.as_str());
        proof {
            reveal_strlit(" {\n\n");
            lemma_written_nst(head@, ind, st0);
            lemma_line_start_concat(out0, h);
            assert(line_start(fmt.out@));
        }
        fmt.indent_inc();
        self.fmt_body(fmt);
        fmt.indent_dec();
        proof {
            lemma_out_assoc(out0, h, t);
        }
        fmt.write_str("}");
        proof {
            lemma_out_assoc(out0, h + t, c);
            assert(method_text(*self, ind, st0, decl_only) == h + t + c);
        }
    }

    /// Writes the statements of the body, each at the start of a line.
    #[verifier::loop_isolation(false)]
    fn fmt_body(&self, fmt: &mut Formatter)
        requires
            old(fmt).spaces + INDENT_STEP * stmts_size(self.body@) <= usize::MAX,
            line_start(old(fmt).out@),
        ensures
            final(fmt).out@ == old(fmt).out@ + stmts_text(self.body@, old(fmt).spaces as nat),
            final(fmt).spaces == old(fmt).spaces,
            final(fmt).scopes == old(fmt).scopes,
            line_start(final(fmt).out@),
    {
        let ghost ind = fmt.spaces as nat;
        let ghost base = fmt.out@;
        let ghost ssv = self.body@;
        let mut i: usize = 0;
        proof {
            assert(base + stmts_text(ssv.subrange(0, 0), ind) =~= base);
        }
        while i < self.body.len()
            invariant
                i <= ssv.len(),
                fmt.out@ == base + stmts_text(ssv.subrange(0, i as int), ind),
                line_start(fmt.out@),
                fmt.spaces == old(fmt).spaces,
                fmt.scopes == old(fmt).scopes,
            decreases ssv.len() - i,
        {
            proof {
                lemma_stmts_size_elem(ssv, i as int);
                assert(ssv.subrange(0, i as int + 1).subrange(0, i as int) =~= ssv.subrange(
                    0,
                    i as int,
                ));
                assert(ssv.subrange(0, i as int + 1)[i as int] == ssv[i as int]);
            }
            let ghost prev = fmt.out@;
            self.body[i].fmt(fmt);
            proof {
                crate::stmt::lemma_stmt_text_line_start(ssv[i as int], ind, true);
                lemma_line_start_concat(prev, crate::stmt::stmt_text(ssv[i as int], ind, true));
                assert(fmt.out@ =~= base + stmts_text(ssv.subrange(0, i as int + 1), ind));
            }
            i += 1;
        }
        proof {
            assert(ssv.subrange(0, ssv.len() as int) =~= ssv);
        }
    }

    /// Writes the full method definition through the formatter.
    pub fn fmt(&self, fmt: &mut Formatter)
        requires
            old(fmt).spaces + INDENT_STEP * (2 + stmts_size(self.body@)) <= usize::MAX,
        ensures
            final(fmt).out@ == old(fmt).out@ + method_text(
                *self,
                old(fmt).spaces as nat,
                line_start(old(fmt).out@),
                false,
            ),
            final(fmt).spaces == old(fmt).spaces,
            final(fmt).scopes == old(fmt).scopes,
    {
        self.do_fmt(fmt, false)
    }

    /// Writes the declaration of the method through the formatter.
    pub fn fmt_decl(&self, fmt: &mut Formatter)
        requires
            old(fmt).spaces + INDENT_STEP * (2 + stmts_size(self.body@)) <= usize::MAX,
        ensures
            final(fmt).out@ == old(fmt).out@ + method_text(
                *self,
                old(fmt).spaces as nat,
                line_start(old(fmt).out@),
                true,
            ),
            final(fmt).spaces == old(fmt).spaces,
            final(fmt).scopes == old(fmt).scopes,
    {
        self.do_fmt(fmt, true)
    }

    /// Writes the definition of the method through the formatter; an inline
    /// method or one defined inside the class emits nothing.
    pub fn fmt_def(&self, fmt: &mut Formatter)
        requires
            old(fmt).spaces + INDENT_STEP * (2 + stmts_size(self.body@)) <= usize::MAX,
        ensures
            final(fmt).out@ == old(fmt).out@ + method_def_text(
                *self,
                old(fmt).spaces as nat,
                line_start(old(fmt).out@),
            ),
            final(fmt).spaces == old(fmt).spaces,
            final(fmt).scopes == old(fmt).scopes,
    {
        if self.is_inline || self.is_inside {
            proof {
                assert(old(fmt).out@ + method_def_text(
                    *self,
                    old(fmt).spaces as nat,
                    line_start(old(fmt).out@),
                ) =~= old(fmt).out@);
            }
            return ;
        }
        self.do_fmt(fmt, false)
    }
}

} // verus!
