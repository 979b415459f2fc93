//! C-style functions of the generated code: a name, parameters, a return
//! type, storage markers and an optional body, rendered either as a
//! declaration or as a full definition.

use vstd::prelude::*;

use crate::block::Block;
use crate::block::bitems_size;
use crate::block::block_text;
use crate::doc::Doc;
use crate::doc::add_text_entries;
use crate::doc::doc_add_text;
use crate::doc::opt_doc_flat;
use crate::doc::opt_doc_lines;
use crate::doc::push_opt_doc;
use crate::formatter::Formatter;
use crate::formatter::INDENT_STEP;
use crate::formatter::brace_open;
use crate::formatter::lemma_line_start_concat;
use crate::formatter::lemma_out_assoc;
use crate::formatter::lemma_written_nst;
use crate::formatter::line_start;
use crate::formatter::nst;
use crate::formatter::written;
use crate::param::FunctionParam;
use crate::param::fn_param_flat;
use crate::structs::str_eq;
use crate::types::Type;
use crate::types::type_text;

verus! {

/// A C function.
#[derive(Debug)]
pub struct Function {
    /// The name of the function.
    pub name: String,
    /// The documentation comment of the function.
    pub doc: Option<Doc>,
    /// The parameters of the function, in order.
    pub params: Vec<FunctionParam>,
    /// The return type of the function.
    pub ret: Type,
    /// Attribute annotations of the function.
    pub attributes: Vec<String>,
    /// Whether the function is static.
    pub is_static: bool,
    /// Whether the function is inline.
    pub is_inline: bool,
    /// Whether the function has external linkage.
    pub is_extern: bool,
    /// The body of the function.
    pub body: Block,
}

/// The parameter list of a function: `void` for an empty list, otherwise
/// the parameters joined with `, `.
pub open spec fn fn_params_text(ps: Seq<FunctionParam>) -> Seq<char>
    decreases ps,
{
    if ps.len() == 0 {
        "void"@
    } else if ps.len() == 1 {
        fn_param_flat(ps[0])
    } else {
        fn_params_text(ps.subrange(0, ps.len() - 1)) + ", "@ + fn_param_flat(ps[ps.len() - 1])
    }
}

/// Law: a function with no parameters renders its parameter list as
/// `(void)`, never as a bare `()`: an empty list spells `void` between the
/// parentheses of the head.
pub proof fn lemma_void_fn_parameter_list(ps: Seq<FunctionParam>)
    requires
        ps.len() == 0,
    ensures
        fn_params_text(ps) == "void"@,
{
}

/// The head of a function: documentation, storage markers, return type,
/// name, parenthesized parameter list and the attribute placeholder.  The
/// external linkage marker is only written while the function has no body.
pub open spec fn function_head_flat(f: Function) -> Seq<char> {
    opt_doc_flat(f.doc) + (if f.body.items@.len() == 0 && f.is_extern {
        "extern "@
    } else {
        Seq::<char>::empty()
    }) + (if f.is_static {
        "static "@
    } else {
        Seq::<char>::empty()
    }) + (if f.is_inline {
        "inline "@
    } else {
        Seq::<char>::empty()
    }) + type_text(f.ret) + " "@ + f.name@ + "("@ + fn_params_text(f.params@) + ")"@ + (
    if f.attributes@.len() > 0 {
        "__attribute__() // TODO"@
    } else {
        Seq::<char>::empty()
    })
}

/// Whether rendering a function emits its body: it has one, and either a
/// full definition is wanted or the function is inline.
pub open spec fn function_shows_body(f: Function, decl_only: bool) -> bool {
    f.body.items@.len() > 0 && (!decl_only || f.is_inline)
}

/// The rendered text of a function at indentation `ind` with line-start
/// state `st`.
pub open spec fn function_text(f: Function, ind: nat, st: bool, decl_only: bool) -> Seq<char> {
    let head = function_head_flat(f);
    let st1 = nst(head, st);
    if function_shows_body(f, decl_only) {
        written(head, ind, st) + written(brace_open(st1), ind, st1) + block_text(
            f.body.items@,
            (ind + INDENT_STEP) as nat,
            true,
        ) + written(
            "}\n"@,
            ind,
            nst(block_text(f.body.items@, (ind + INDENT_STEP) as nat, true), true),
        ) + written("\n"@, ind, true)
    } else {
        written(head + ";\n"@, ind, st)
    }
}

/// The definition-mode emission of a function: nothing for an inline
/// function, whose body already stands at its declaration.
pub open spec fn function_def_text(f: Function, ind: nat, st: bool) -> Seq<char> {
    if f.is_inline {
        Seq::empty()
    } else {
        function_text(f, ind, st, false)
    }
}

impl Function {
    /// Creates a new function with the given name and return type.
    pub fn new(name: &str, ret: Type) -> (r: Self)
        ensures
            r.name@ == name@,
            r.ret == ret,
            r.doc is None,
            r.params@ == Seq::<FunctionParam>::empty(),
            r.attributes@ == Seq::<String>::empty(),
            !r.is_static,
            !r.is_inline,
            !r.is_extern,
            r.body.items@ == Seq::<crate::block::BlockItem>::empty(),
    {
        Self::with_string(name.to_owned(), ret)
    }

    /// Creates a new function, consuming the given name.
    pub fn with_string(name: String, ret: Type) -> (r: Self)
        ensures
            r.name@ == name@,
            r.ret == ret,
            r.doc is None,
            r.params@ == Seq::<FunctionParam>::empty(),
            r.attributes@ == Seq::<String>::empty(),
            !r.is_static,
            !r.is_inline,
            !r.is_extern,
            r.body.items@ == Seq::<crate::block::BlockItem>::empty(),
    {
        Function {
            name,
            doc: None,
            params: Vec::new(),
            ret,
            attributes: Vec::new(),
            is_static: false,
            is_inline: false,
            is_extern: false,
            body: Block::new(),
        }
    }

    /// The name of the function.
    pub fn name(&self) -> (r: &str)
        ensures
            r@ == self.name@,
    {
        self.name.as_str()
    }

    /// A reference to the return type of the function.
    pub fn ret_type(&self) -> (r: &Type)
        ensures
            *r == self.ret,
    {
        &self.ret
    }

    /// Replaces the documentation comment of the function.
    pub fn doc(&mut self, doc: Doc) -> (r: &mut Self)
        ensures
            *r == (Function { doc: Some(doc), ..*old(self) }),
            *final(self) == *final(r),
    {
        self.doc = Some(doc);
        self
    }

    /// Adds a string to the documentation comment of the function.
    pub fn push_doc_str(&mut self, doc: &str) -> (r: &mut Self)
        ensures
            r.name == old(self).name,
            r.ret == old(self).ret,
            r.params == old(self).params,
            r.attributes == old(self).attributes,
            r.is_static == old(self).is_static,
            r.is_inline == old(self).is_inline,
            r.is_extern == old(self).is_extern,
            r.body == old(self).body,
            opt_doc_lines(r.doc) == opt_doc_lines(old(self).doc) + add_text_entries(doc@),
            *final(self) == *final(r),
    {
        doc_add_text(&mut self.doc, doc);
        self
    }

    /// Creates a new parameter of the function and hands it out for further
    /// construction.
    pub fn new_param(&mut self, name: &str, ty: Type) -> (r: &mut FunctionParam)
        ensures
            r.name@ == name@,
            r.ty == ty,
            r.doc is None,
            final(self).params@ == old(self).params@.push(*final(r)),
            final(self).name == old(self).name,
            final(self).ret == old(self).ret,
            final(self).doc == old(self).doc,
            final(self).attributes == old(self).attributes,
            final(self).is_static == old(self).is_static,
            final(self).is_inline == old(self).is_inline,
            final(self).is_extern == old(self).is_extern,
            final(self).body == old(self).body,
    {
        self.params.push(FunctionParam::new(name, ty));
        let n = self.params.len();
        &mut self.params[n - 1]
    }

    /// Pushes a parameter onto the function.
    pub fn push_param(&mut self, item: FunctionParam) -> (r: &mut Self)
        ensures
            r.params@ == old(self).params@.push(item),
            r.name == old(self).name,
            r.ret == old(self).ret,
            r.doc == old(self).doc,
            r.attributes == old(self).attributes,
            r.is_static == old(self).is_static,
            r.is_inline == old(self).is_inline,
            r.is_extern == old(self).is_extern,
            r.body == old(self).body,
            *final(self) == *final(r),
    {
        self.params.push(item);
        self
    }

    /// A reference to the parameter with the given name, if any.
    pub fn param_by_name(&self, name: &str) -> (r: Option<&FunctionParam>)
        ensures
            r matches Some(p) ==> exists|i: int|
                0 <= i < self.params@.len() && self.params@[i] == *p && p.name@ == name@,
            r is None ==> forall|i: int|
                0 <= i < self.params@.len() ==> #[trigger] self.params@[i].name@ != name@,
    {
        let mut i: usize = 0;
        while i < self.params.len()
            invariant
                i <= self.params@.len(),
                forall|j: int| 0 <= j < i ==> #[trigger] self.params@[j].name@ != name@,
            decreases self.params@.len() - i,
        {
            if str_eq(self.params[i].name.as_str(), name) {
                return Some(&self.params[i]);
            }
            i += 1;
        }
        None
    }

    /// A mutable reference to the parameter with the given name, if any.
    pub fn param_by_name_mut(&mut self, name: &str) -> (r: Option<&mut FunctionParam>)
        ensures
            r is None ==> *final(self) == *old(self),
    {
        let mut i: usize = 0;
        while i < self.params.len()
            invariant
                i <= self.params@.len(),
                *self == *old(self),
            decreases self.params@.len() - i,
        {
            if str_eq(self.params[i].name.as_str(), name) {
                return Some(&mut self.params[i]);
            }
            i += 1;
        }
        None
    }

    /// A reference to the parameter at the given index, if it exists.
    pub fn param_by_idx(&self, idx: usize) -> (r: Option<&FunctionParam>)
        ensures
            idx < self.params@.len() ==> (r matches Some(p) && *p == self.params@[idx as int]),
            idx >= self.params@.len() ==> r is None,
    {
        if idx < self.params.len() {
            Some(&self.params[idx])
        } else {
            None
        }
    }

    /// A mutable reference to the parameter at the given index, if it
    /// exists.
    pub fn param_by_idx_mut(&mut self, idx: usize) -> (r: Option<&mut FunctionParam>)
        ensures
            idx < old(self).params@.len() ==> (r matches Some(p) && *p == old(
                self,
            ).params@[idx as int]),
            idx >= old(self).params@.len() ==> (r is None && *final(self) == *old(self)),
    {
        if idx < self.params.len() {
            Some(&mut self.params[idx])
        } else {
            None
        }
    }

    /// Adds an attribute annotation to the function.
    pub fn push_attribute(&mut self, attr: &str) -> (r: &mut Self)
        ensures
            r.attributes@.len() == old(self).attributes@.len() + 1,
            r.name == old(self).name,
            r.ret == old(self).ret,
            r.doc == old(self).doc,
            r.params == old(self).params,
            r.is_static == old(self).is_static,
            r.is_inline == old(self).is_inline,
            r.is_extern == old(self).is_extern,
            r.body == old(self).body,
            *final(self) == *final(r),
    {
        self.attributes.push(attr.to_owned());
        self
    }

    /// Toggles the static storage class; setting it clears the external
    /// linkage marker.
    pub fn toggle_static(&mut self, val: bool) -> (r: &mut Self)
        ensures
            r.is_static == val,
            r.is_extern == (if val {
                false
            } else {
                old(self).is_extern
            }),
            r.is_inline == old(self).is_inline,
            r.name == old(self).name,
            r.ret == old(self).ret,
            r.doc == old(self).doc,
            r.params == old(self).params,
            r.attributes == old(self).attributes,
            r.body == old(self).body,
            *final(self) == *final(r),
    {
        if val {
            self.is_extern = false;
        }
        self.is_static = val;
        self
    }

    /// Makes the function static.
    pub fn set_static(&mut self) -> (r: &mut Self)
        ensures
            r.is_static == true,
            r.is_extern == false,
            r.is_inline == old(self).is_inline,
            r.name == old(self).name,
            r.ret == old(self).ret,
            r.doc == old(self).doc,
            r.params == old(self).params,
            r.attributes == old(self).attributes,
            r.body == old(self).body,
            *final(self) == *final(r),
    {
        self.toggle_static(true)
    }

    /// Marks the function inline; the flag is set regardless of the given
    /// value, which only decides whether the external linkage marker is
    /// cleared first.
    pub fn toggle_inline(&mut self, val: bool) -> (r: &mut Self)
        ensures
            r.is_inline == true,
            r.is_extern == (if val {
                false
            } else {
                old(self).is_extern
            }),
            r.is_static == old(self).is_static,
            r.name == old(self).name,
            r.ret == old(self).ret,
            r.doc == old(self).doc,
            r.params == old(self).params,
            r.attributes == old(self).attributes,
            r.body == old(self).body,
            *final(self) == *final(r),
    {
        if val {
            self.is_extern = false;
        }
        self.is_inline = true;
        self
    }

    /// Makes the function inline.
    pub fn set_inline(&mut self) -> (r: &mut Self)
        ensures
            r.is_inline == true,
            r.is_extern == false,
            r.is_static == old(self).is_static,
            r.name == old(self).name,
            r.ret == old(self).ret,
            r.doc == old(self).doc,
            r.params == old(self).params,
            r.attributes == old(self).attributes,
            r.body == old(self).body,
            *final(self) == *final(r),
    {
        self.toggle_inline(true)
    }

    /// Toggles the external linkage marker; setting it clears the inline
    /// marker first, and the final value is the given one.
    pub fn toggle_extern(&mut self, val: bool) -> (r: &mut Self)
        ensures
            r.is_extern == val,
            r.is_inline == (if val {
                false
            } else {
                old(self).is_inline
            }),
            r.is_static == old(self).is_static,
            r.name == old(self).name,
            r.ret == old(self).ret,
            r.doc == old(self).doc,
            r.params == old(self).params,
            r.attributes == old(self).attributes,
            r.body == old(self).body,
            *final(self) == *final(r),
    {
        if val {
            self.is_inline = false;
            self.is_extern = false;
        }
        self.is_extern = val;
        self
    }

    /// Marks the function as having external linkage.
    pub fn set_extern(&mut self) -> (r: &mut Self)
        ensures
            r.is_extern == true,
            r.is_inline == false,
            r.is_static == old(self).is_static,
            r.name == old(self).name,
            r.ret == old(self).ret,
            r.doc == old(self).doc,
            r.params == old(self).params,
            r.attributes == old(self).attributes,
            r.body == old(self).body,
            *final(self) == *final(r),
    {
        self.toggle_extern(true)
    }

    /// Sets the body of the function; a non-empty body clears the external
    /// linkage marker.
    pub fn set_body(&mut self, body: Block) -> (r: &mut Self)
        ensures
            r.body == body,
            r.is_extern == (if body.items@.len() > 0 {
                false
            } else {
                old(self).is_extern
            }),
            r.is_static == old(self).is_static,
            r.is_inline == old(self).is_inline,
            r.name == old(self).name,
            r.ret == old(self).ret,
            r.doc == old(self).doc,
            r.params == old(self).params,
            r.attributes == old(self).attributes,
            *final(self) == *final(r),
    {
        if !body.is_empty() {
            self.is_extern = false;
        }
        self.body = body;
        self
    }

    /// A mutable reference to the body of the function.
    pub fn body(&mut self) -> (r: &mut Block)
        ensures
            *r == old(self).body,
            *final(self) == (Function { body: *final(r), ..*old(self) }),
    {
        &mut self.body
    }

    /// Appends the head of the function to `s`.
    #[verifier::loop_isolation(false)]
    #[verifier::rlimit(100)]
    #[verifier::spinoff_prover]
    fn push_head_flat(&self, s: &mut String)
        ensures
            final(s)@ == old(s)@ + function_head_flat(*self),
    {
        push_opt_doc(&self.doc, s);
        if self.body.items.len() == 0 && self.is_extern {
            s.append("extern ");
        }
        if self.is_static {
            s.append("static ");
        }
        if self.is_inline {
            s.append("inline ");
        }
        self.ret.push_text(s);
        s.append(" ");
        s.append(self.name.as_str());
        s.append("(");
        if self.params.len() == 0 {
            s.append("void");
            proof {
                assert(fn_params_text(self.params@) == "void"@);
            }
        } else {
            let ghost psv = self.params@;
            let ghost mid = s@;
            let mut i: usize = 0;
            proof {
                assert(psv.subrange(0, psv.len() as int) =~= psv);
            }
            while i < self.params.len()
                invariant
                    i <= psv.len(),
                    i > 0 ==> s@ == mid + fn_params_text(psv.subrange(0, i as int)),
                    i == 0 ==> s@ == mid,
                decreases psv.len() - i,
            {
                if i > 0 {
                    s.append(", ");
                }
                self.params[i].push_flat(s);
                proof {
                    let cur = psv.subrange(0, i as int + 1);
                    assert(cur.subrange(0, cur.len() - 1) =~= psv.subrange(0, i as int));
                    assert(cur[cur.len() - 1] == psv[i as int]);
                    assert(s@ =~= mid + fn_params_text(cur));
                }
                i += 1;
            }
        }
        s.append(")");
        if self.attributes.len() > 0 {
            s.append("__attribute__() // TODO");
        }
        proof {
            assert(s@ =~= old(s)@ + function_head_flat(*self));
        }
    }

    /// Writes the function through the formatter; in declaration mode a
    /// function that is not inline renders as a single `;`-closed statement.
    #[verifier::rlimit(60)]
    #[verifier::spinoff_prover]
    pub fn do_fmt(&self, fmt: &mut Formatter, decl_only: bool)
        requires
            old(fmt).spaces + INDENT_STEP * (2 + bitems_size(self.body.items@)) <= usize::MAX,
        ensures
            final(fmt).out@ == old(fmt).out@ + function_text(
                *self,
                old(fmt).spaces as nat,
                line_start(old(fmt).out@),
                decl_only,
            ),
            final(fmt).spaces == old(fmt).spaces,
            final(fmt).scopes == old(fmt).scopes,
    {
        let ghost ind = fmt.spaces as nat;
        let ghost ind4 = (ind + INDENT_STEP) as nat;
        let ghost st0 = line_start(fmt.out@);
        let ghost out0 = fmt.out@;
        let mut head = String::new();
        self.push_head_flat(&mut head);
        let show_body = !self.body.is_empty() && (!decl_only || self.is_inline);
        if show_body {
            let ghost h = written(function_head_flat(*self), ind, st0);
            let ghost st1 = nst(function_head_flat(*self), st0);
            let ghost b = written(brace_open(st1), ind, st1);
            let ghost t = block_text(self.body.items@, ind4, true);
            let ghost c = written("}\n"@, ind, nst(t, true));
            let ghost n = written("\n"@, ind, true);
            fmt.write_str(head.as_str());
            proof {
                lemma_written_nst(function_head_flat(*self), ind, st0);
                lemma_line_start_concat(out0, h);
            }
            fmt.block_open();
            proof {
                lemma_out_assoc(out0, h, b);
            }
            self.body.fmt(fmt);
            proof {
                lemma_out_assoc(out0, h + b, t);
                lemma_line_start_concat(out0 + (h + b), t);
            }
            fmt.block_close();
            proof {
                lemma_out_assoc(out0, h + b + t, c);
            }
            fmt.write_str("\n");
            proof {
                lemma_out_assoc(out0, h + b + t + c, n);
                assert(function_text(*self, ind, st0, decl_only) == h + b + t + c + n);
            }
        } else {
            head.append(";\n");
            proof {
                assert(head@ =~= function_head_flat(*self) + ";\n"@);
            }
            fmt.write_str(head.as_str());
        }
    }

    /// Writes the full function definition through the formatter.
    pub fn fmt(&self, fmt: &mut Formatter)
        requires
            old(fmt).spaces + INDENT_STEP * (2 + bitems_size(self.body.items@)) <= usize::MAX,
        ensures
            final(fmt).out@ == old(fmt).out@ + function_text(
                *self,
                old(fmt).spaces as nat,
                line_start(old(fmt).out@),
                false,
            ),
            final(fmt).spaces == old(fmt).spaces,
            final(fmt).scopes == old(fmt).scopes,
    {
        self.do_fmt(fmt, false)
    }

    /// Writes the declaration of the function through the formatter; an
    /// inline function shows its body here.
    pub fn fmt_decl(&self, fmt: &mut Formatter)
        requires
            old(fmt).spaces + INDENT_STEP * (2 + bitems_size(self.body.items@)) <= usize::MAX,
        ensures
            final(fmt).out@ == old(fmt).out@ + function_text(
                *self,
                old(fmt).spaces as nat,
                line_start(old(fmt).out@),
                true,
            ),
            final(fmt).spaces == old(fmt).spaces,
            final(fmt).scopes == old(fmt).scopes,
    {
        self.do_fmt(fmt, true)
    }

    /// Writes the definition of the function through the formatter; an
    /// inline function, already defined at its declaration, emits nothing.
    pub fn fmt_def(&self, fmt: &mut Formatter)
        requires
            old(fmt).spaces + INDENT_STEP * (2 + bitems_size(self.body.items@)) <= usize::MAX,
        ensures
            final(fmt).out@ == old(fmt).out@ + function_def_text(
                *self,
                old(fmt).spaces as nat,
                line_start(old(fmt).out@),
            ),
            final(fmt).spaces == old(fmt).spaces,
            final(fmt).scopes == old(fmt).scopes,
    {
        if self.is_inline {
            proof {
                assert(old(fmt).out@ + function_def_text(
                    *self,
                    old(fmt).spaces as nat,
                    line_start(old(fmt).out@),
                ) =~= old(fmt).out@);
            }
            return ;
        }
        self.do_fmt(fmt, false)
    }
}

} // verus!
