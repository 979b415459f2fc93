//! C++ class constructors and destructors of the generated code, with the
//! default, delete and pure short-circuits and the member initializer list.

use vstd::prelude::*;

use crate::doc::Doc;
use crate::doc::add_text_entries;
use crate::doc::doc_add_text;
use crate::doc::opt_doc_flat;
use crate::doc::opt_doc_lines;
use crate::doc::push_opt_doc;
use crate::expr::Expr;
use crate::expr::expr_text;
use crate::formatter::Formatter;
use crate::formatter::INDENT_STEP;
use crate::formatter::lemma_line_start_concat;
use crate::formatter::lemma_out_assoc;
use crate::formatter::lemma_written_nst;
use crate::formatter::line_start;
use crate::formatter::nst;
use crate::formatter::scoped_prefix;
use crate::formatter::written;
use crate::param::MethodParam;
use crate::param::method_param_flat;
use crate::stmt::Stmt;
use crate::stmt::lemma_stmts_size_elem;
use crate::stmt::stmts_size;
use crate::stmt::stmts_text;
use crate::types::Type;
use crate::types::Visibility;

verus! {

/// A C++ class constructor.
#[derive(Debug)]
pub struct Constructor {
    /// The name of the class the constructor belongs to.
    pub name: String,
    /// The visibility of the constructor.
    pub visibility: Visibility,
    /// The documentation comment of the constructor.
    pub doc: Option<Doc>,
    /// The arguments of the constructor, in order.
    pub args: Vec<MethodParam>,
    /// The member initializer list.
    pub initializers: Vec<Expr>,
    /// Whether this is the defaulted constructor.
    pub is_default: bool,
    /// Whether the constructor is deleted.
    pub is_delete: bool,
    /// Whether this is a copy constructor.
    pub is_copy: bool,
    /// Whether this is a move constructor.
    pub is_move: bool,
    /// Whether the definition stands inside the class.
    pub is_inside: bool,
    /// The body of the constructor.
    pub body: Vec<Stmt>,
}

/// The arguments of a constructor joined with `, `; declaration mode shows
/// default values.
pub open spec fn ctor_args_join(ps: Seq<MethodParam>, decl_only: bool) -> Seq<char>
    decreases ps,
{
    if ps.len() == 0 {
        Seq::empty()
    } else if ps.len() == 1 {
        method_param_flat(ps[0], decl_only)
    } else {
        ctor_args_join(ps.subrange(0, ps.len() - 1), decl_only) + ", "@ + method_param_flat(
            ps[ps.len() - 1],
            decl_only,
        )
    }
}

/// The parenthesized argument list of a constructor: `(void)` for an empty
/// list.
pub open spec fn ctor_params_text(ps: Seq<MethodParam>, decl_only: bool) -> Seq<char> {
    if ps.len() == 0 {
        "(void)"@
    } else {
        "("@ + ctor_args_join(ps, decl_only) + ")"@
    }
}

/// The blank line that leads a constructor or destructor carrying a body or
/// documentation.
pub open spec fn lead_nl(has: bool) -> Seq<char> {
    if has {
        "\n"@
    } else {
        Seq::empty()
    }
}

/// The member initializer list: `: ` before the first initializer, `, `
/// before each further one, each on a line of its own.
pub open spec fn inits_text(es: Seq<Expr>, ind: nat) -> Seq<char>
    decreases es,
{
    if es.len() == 0 {
        Seq::empty()
    } else if es.len() == 1 {
        written(": "@ + expr_text(es[0]) + "\n"@, ind, true)
    } else {
        inits_text(es.subrange(0, es.len() - 1), ind) + written(
            ", "@ + expr_text(es[es.len() - 1]) + "\n"@,
            ind,
            true,
        )
    }
}

/// The name a constructor writes for itself: bare in declaration mode,
/// qualified by the enclosing scopes in definition mode.
pub open spec fn ctor_name_text(c: Constructor, scopes: Seq<Seq<char>>, decl_only: bool) -> Seq<
    char,
> {
    if decl_only {
        c.name@
    } else {
        scoped_prefix(scopes) + c.name@
    }
}

/// Whether a rendering of the constructor shows its initializer list.
pub open spec fn ctor_shows_inits(c: Constructor, decl_only: bool) -> bool {
    c.initializers@.len() > 0 && (!decl_only || c.is_inside)
}

/// The rendered text of a constructor at indentation `ind` with line-start
/// state `st`, inside the given scope stack.
pub open spec fn ctor_text(
    c: Constructor,
    scopes: Seq<Seq<char>>,
    ind: nat,
    st: bool,
    decl_only: bool,
) -> Seq<char> {
    let lead = lead_nl(c.body@.len() > 0 || c.doc is Some);
    let st1 = nst(lead, st);
    let head = opt_doc_flat(c.doc) + ctor_name_text(c, scopes, decl_only) + ctor_params_text(
        c.args@,
        decl_only,
    );
    let st2 = nst(head, st1);
    written(lead, ind, st) + (if c.is_default {
        written(head + " = default;\n"@, ind, st1)
    } else if c.is_delete {
        written(head + " = delete;\n"@, ind, st1)
    } else if decl_only && !c.is_inside {
        written(head + ";\n"@, ind, st1)
    } else {
        written(head + "\n"@, ind, st1) + (if ctor_shows_inits(c, decl_only) {
            inits_text(c.initializers@, (ind + INDENT_STEP) as nat)
        } else {
            Seq::<char>::empty()
        }) + written("{\n"@, ind, true) + stmts_text(c.body@, (ind + INDENT_STEP) as nat)
            + written("}\n\n"@, ind, nst(stmts_text(c.body@, (ind + INDENT_STEP) as nat), true))
    })
}

/// A C++ class destructor.
#[derive(Debug)]
pub struct Destructor {
    /// The name of the class the destructor belongs to.
    pub name: String,
    /// The documentation comment of the destructor.
    pub doc: Option<Doc>,
    /// Whether this is the defaulted destructor.
    pub is_default: bool,
    /// Whether the destructor is deleted.
    pub is_delete: bool,
    /// Whether the definition stands inside the class.
    pub is_inside: bool,
    /// Whether the destructor is pure virtual.
    pub is_pure: bool,
    /// The body of the destructor.
    pub body: Vec<Stmt>,
}

/// The pure marker and the body of a destructor never show together: the
/// builder clears one when the other is set.
pub open spec fn dtor_wf(d: Destructor) -> bool {
    d.is_pure ==> d.body@.len() == 0
}

/// The head of a destructor: its documentation, `virtual ` when pure, and
/// `~<name>(void)`.
pub open spec fn dtor_head_flat(d: Destructor) -> Seq<char> {
    opt_doc_flat(d.doc) + (if d.is_pure {
        "virtual "@
    } else {
        Seq::<char>::empty()
    }) + "~"@ + d.name@ + "(void)"@
}

/// The rendered text of a destructor at indentation `ind` with line-start
/// state `st`.
pub open spec fn dtor_text(d: Destructor, ind: nat, st: bool, decl_only: bool) -> Seq<char> {
    let lead = lead_nl(d.body@.len() > 0 || d.doc is Some);
    let st1 = nst(lead, st);
    let head = dtor_head_flat(d);
    written(lead, ind, st) + (if d.is_default {
        written(head + " = default;\n"@, ind, st1)
    } else if d.is_delete {
        written(head + " = delete;\n"@, ind, st1)
    } else if d.is_pure {
        written(head + " = 0;\n"@, ind, st1)
    } else if d.body@.len() == 0 || (decl_only && !d.is_inside) {
        written(head + ";\n"@, ind, st1)
    } else {
        written(head + " {\n"@, ind, st1) + stmts_text(d.body@, (ind + INDENT_STEP) as nat)
            + written("}\n\n"@, ind, nst(stmts_text(d.body@, (ind + INDENT_STEP) as nat), true))
    })
}

/// Law: a destructor marked pure renders, in either mode, as exactly
/// `virtual ~<name>(void) = 0;` on a line of its own, whatever statements
/// were attached before the mark; the builder keeps the pure marker and a
/// body mutually exclusive, so no body text ever follows.
pub proof fn lemma_pure_destructor(d: Destructor, ind: nat, st: bool, decl_only: bool)
    requires
        d.is_pure,
        !d.is_default,
        !d.is_delete,
        dtor_wf(d),
        d.doc is None,
    ensures
        dtor_text(d, ind, st, decl_only) == written(
            "virtual "@ + "~"@ + d.name@ + "(void)"@ + " = 0;\n"@,
            ind,
            st,
        ),
{
    let lead = lead_nl(d.body@.len() > 0 || d.doc is Some);
    let head = dtor_head_flat(d);
    let target = "virtual "@ + "~"@ + d.name@ + "(void)"@ + " = 0;\n"@;
    assert(lead =~= Seq::<char>::empty());
    assert(nst(lead, st) == st);
    assert(written(lead, ind, st) =~= Seq::<char>::empty());
    assert(head + " = 0;\n"@ =~= target);
    assert(dtor_text(d, ind, st, decl_only) == written(lead, ind, st) + written(
        head + " = 0;\n"@,
        ind,
        nst(lead, st),
    ));
    assert(written(lead, ind, st) + written(target, ind, st) =~= written(target, ind, st));
}

/// The definition-mode emission of a constructor: nothing when the
/// definition stands inside the class.
pub open spec fn ctor_def_text(c: Constructor, scopes: Seq<Seq<char>>, ind: nat, st: bool) -> Seq<
    char,
> {
    if c.is_inside {
        Seq::empty()
    } else {
        ctor_text(c, scopes, ind, st, false)
    }
}

/// The definition-mode emission of a destructor: nothing when the
/// definition stands inside the class.
pub open spec fn dtor_def_text(d: Destructor, ind: nat, st: bool) -> Seq<char> {
    if d.is_inside {
        Seq::empty()
    } else {
        dtor_text(d, ind, st, false)
    }
}

impl Constructor {
    /// Creates a new constructor for the class of the given name, public by
    /// default.
    pub fn new(name: &str) -> (r: Self)
        ensures
            r.name@ == name@,
            r.visibility == Visibility::Public,
            r.doc is None,
            r.args@ == Seq::<MethodParam>::empty(),
            r.initializers@ == Seq::<Expr>::empty(),
            !r.is_default,
            !r.is_delete,
            !r.is_copy,
            !r.is_move,
            !r.is_inside,
            r.body@ == Seq::<Stmt>::empty(),
    {
        Constructor {
            name: name.to_owned(),
            doc: None,
            visibility: Visibility::Public,
            args: Vec::new(),
            initializers: Vec::new(),
            is_default: false,
            is_delete: false,
            is_copy: false,
            is_move: false,
            is_inside: false,
            body: Vec::new(),
        }
    }

    /// Creates a new move constructor marker for the class of the given
    /// name.
    pub fn new_move(name: &str) -> (r: Self)
        ensures
            r.name@ == name@,
            r.is_move,
            !r.is_copy,
            !r.is_default,
            !r.is_delete,
            r.args@ == Seq::<MethodParam>::empty(),
            r.body@ == Seq::<Stmt>::empty(),
    {
        let mut c = Constructor::new(name);
        c.is_move = true;
        c
    }

    /// Creates a new copy constructor marker for the class of the given
    /// name.
    pub fn new_copy(name: &str) -> (r: Self)
        ensures
            r.name@ == name@,
            r.is_copy,
            !r.is_move,
            !r.is_default,
            !r.is_delete,
            r.args@ == Seq::<MethodParam>::empty(),
            r.body@ == Seq::<Stmt>::empty(),
    {
        let mut c = Constructor::new(name);
        c.is_copy = true;
        c
    }

    /// Creates a new defaulted constructor for the class of the given name.
    pub fn new_default(name: &str) -> (r: Self)
        ensures
            r.name@ == name@,
            r.is_default,
            !r.is_delete,
            r.args@ == Seq::<MethodParam>::empty(),
            r.body@ == Seq::<Stmt>::empty(),
    {
        let mut c = Constructor::new(name);
        c.is_default = true;
        c
    }

    /// Creates a new deleted constructor for the class of the given name.
    pub fn new_delete(name: &str) -> (r: Self)
        ensures
            r.name@ == name@,
            r.is_delete,
            !r.is_default,
            r.args@ == Seq::<MethodParam>::empty(),
            r.body@ == Seq::<Stmt>::empty(),
    {
        let mut c = Constructor::new(name);
        c.is_delete = true;
        c
    }

    /// Adds a string to the documentation comment of the constructor.
    pub fn doc_str(&mut self, doc: &str) -> (r: &mut Self)
        ensures
            opt_doc_lines(r.doc) == opt_doc_lines(old(self).doc) + add_text_entries(doc@),
            *r == (Constructor { doc: r.doc, ..*old(self) }),
            *final(self) == *final(r),
    {
        doc_add_text(&mut self.doc, doc);
        self
    }

    /// Replaces the documentation comment of the constructor.
    pub fn add_doc(&mut self, doc: Doc) -> (r: &mut Self)
        ensures
            *r == (Constructor { doc: Some(doc), ..*old(self) }),
            *final(self) == *final(r),
    {
        self.doc = Some(doc);
        self
    }

    /// Sets the visibility of the constructor.
    pub fn set_visibility(&mut self, vis: Visibility) -> (r: &mut Self)
        ensures
            *r == (Constructor { visibility: vis, ..*old(self) }),
            *final(self) == *final(r),
    {
        self.visibility = vis;
        self
    }

    /// Checks whether the constructor is public.
    pub fn is_public(&self) -> (r: bool)
        ensures
            r == (self.visibility == Visibility::Public),
    {
        self.visibility == Visibility::Public
    }

    /// Checks whether the constructor is protected.
    pub fn is_protected(&self) -> (r: bool)
        ensures
            r == (self.visibility == Visibility::Protected),
    {
        self.visibility == Visibility::Protected
    }

    /// Checks whether the constructor is private; the default visibility
    /// counts as private.
    pub fn is_private(&self) -> (r: bool)
        ensures
            r == (self.visibility == Visibility::Private || self.visibility
                == Visibility::Default),
    {
        self.visibility == Visibility::Private || self.visibility == Visibility::Default
    }

    /// Makes the constructor public.
    pub fn public(&mut self) -> (r: &mut Self)
        ensures
            *r == (Constructor { visibility: Visibility::Public, ..*old(self) }),
            *final(self) == *final(r),
    {
        self.set_visibility(Visibility::Public)
    }

    /// Makes the constructor protected.
    pub fn protected(&mut self) -> (r: &mut Self)
        ensures
            *r == (Constructor { visibility: Visibility::Protected, ..*old(self) }),
            *final(self) == *final(r),
    {
        self.set_visibility(Visibility::Protected)
    }

    /// Makes the constructor private.
    pub fn private(&mut self) -> (r: &mut Self)
        ensures
            *r == (Constructor { visibility: Visibility::Private, ..*old(self) }),
            *final(self) == *final(r),
    {
        self.set_visibility(Visibility::Private)
    }

    /// Adds an argument to the constructor.
    pub fn push_argument(&mut self, arg: MethodParam) -> (r: &mut Self)
        ensures
            r.args@ == old(self).args@.push(arg),
            *r == (Constructor { args: r.args, ..*old(self) }),
            *final(self) == *final(r),
    {
        self.args.push(arg);
        self
    }

    /// Creates a new argument of the constructor and hands it out for
    /// further construction.
    pub fn new_argument(&mut self, name: &str, ty: Type) -> (r: &mut MethodParam)
        ensures
            r.name@ == name@,
            r.ty == ty,
            r.default is None,
            r.doc is None,
            final(self).args@ == old(self).args@.push(*final(r)),
            *final(self) == (Constructor { args: final(self).args, ..*old(self) }),
    {
        self.args.push(MethodParam::new(name, ty));
        let n = self.args.len();
        &mut self.args[n - 1]
    }

    /// Pushes a member initializer naming a field and its value.
    pub fn push_initializer(&mut self, field_name: &str, value: Expr) -> (r: &mut Self)
        ensures
            r.initializers@.len() == old(self).initializers@.len() + 1,
            r.initializers@.subrange(0, old(self).initializers@.len() as int) == old(
                self,
            ).initializers@,
            expr_text(r.initializers@.last()) == field_name@ + "("@ + expr_text(value) + ")"@,
            *r == (Constructor { initializers: r.initializers, ..*old(self) }),
            *final(self) == *final(r),
    {
        let mut args: Vec<Expr> = Vec::new();
        args.push(value);
        let e = Expr::FnCall { name: field_name.to_owned(), args };
        proof {
            assert(e->FnCall_args@ =~= seq![value]);
        }
        self.initializers.push(e);
        proof {
            assert(self.initializers@.subrange(0, old(self).initializers@.len() as int) =~= old(
                self,
            ).initializers@);
            assert(crate::expr::args_text(seq![value]) == expr_text(value));
        }
        self
    }

    /// Pushes a parent class initializer expression.
    pub fn push_parent_initializer(&mut self, value: Expr) -> (r: &mut Self)
        ensures
            r.initializers@ == old(self).initializers@.push(value),
            *r == (Constructor { initializers: r.initializers, ..*old(self) }),
            *final(self) == *final(r),
    {
        self.initializers.push(value);
        self
    }

    /// Sets the constructor to be defaulted: the body is dropped, the
    /// argument list of a non-copy constructor is cleared, and the deleted
    /// marker is withdrawn.
    pub fn set_default(&mut self, val: bool) -> (r: &mut Self)
        ensures
            r.is_default == val,
            val ==> r.body@ == Seq::<Stmt>::empty() && !r.is_delete,
            val && !old(self).is_copy ==> r.args@ == Seq::<MethodParam>::empty(),
            val && old(self).is_copy ==> r.args == old(self).args,
            !val ==> *r == (Constructor { is_default: val, ..*old(self) }),
            r.name == old(self).name,
            r.doc == old(self).doc,
            r.visibility == old(self).visibility,
            r.initializers == old(self).initializers,
            r.is_copy == old(self).is_copy,
            r.is_move == old(self).is_move,
            r.is_inside == old(self).is_inside,
            *final(self) == *final(r),
    {
        if val {
            self.body.clear();
            if !self.is_copy {
                self.args.clear();
            }
            self.is_delete = false;
        }
        self.is_default = val;
        self
    }

    /// Makes the constructor the defaulted one.
    pub fn default(&mut self) -> (r: &mut Self)
        ensures
            r.is_default,
            !r.is_delete,
            r.body@ == Seq::<Stmt>::empty(),
            *final(self) == *final(r),
    {
        self.set_default(true)
    }

    /// Sets the constructor to be deleted: the body is dropped, the argument
    /// list of a non-copy constructor is cleared, and the defaulted marker
    /// is withdrawn.
    pub fn set_delete(&mut self, val: bool) -> (r: &mut Self)
        ensures
            r.is_delete == val,
            val ==> r.body@ == Seq::<Stmt>::empty() && !r.is_default,
            val && !old(self).is_copy ==> r.args@ == Seq::<MethodParam>::empty(),
            val && old(self).is_copy ==> r.args == old(self).args,
            !val ==> *r == (Constructor { is_delete: val, ..*old(self) }),
            r.name == old(self).name,
            r.doc == old(self).doc,
            r.visibility == old(self).visibility,
            r.initializers == old(self).initializers,
            r.is_copy == old(self).is_copy,
            r.is_move == old(self).is_move,
            r.is_inside == old(self).is_inside,
            *final(self) == *final(r),
    {
        if val {
            self.body.clear();
            if !self.is_copy {
                self.args.clear();
            }
            self.is_default = false;
        }
        self.is_delete = val;
        self
    }

    /// Makes the constructor deleted.
    pub fn delete(&mut self) -> (r: &mut Self)
        ensures
            r.is_delete,
            !r.is_default,
            r.body@ == Seq::<Stmt>::empty(),
            *final(self) == *final(r),
    {
        self.set_delete(true)
    }

    /// Marks this constructor as the copy constructor, giving it a single
    /// `const <name> &` argument called `other`.
    pub fn set_copy(&mut self, val: bool) -> (r: &mut Self)
        ensures
            r.is_copy == val,
            val ==> r.args@.len() == 1 && r.args@[0].name@ == "other"@ && r.args@[0].default
                is None,
            !val ==> r.args == old(self).args,
            r.name == old(self).name,
            r.doc == old(self).doc,
            r.visibility == old(self).visibility,
            r.initializers == old(self).initializers,
            r.is_default == old(self).is_default,
            r.is_delete == old(self).is_delete,
            r.is_move == old(self).is_move,
            r.is_inside == old(self).is_inside,
            r.body == old(self).body,
            *final(self) == *final(r),
    {
        if val {
            let mut ty = Type::new(crate::types::BaseType::Class(self.name.clone()));
            ty.constant();
            ty.reference();
            let mut args: Vec<MethodParam> = Vec::new();
            args.push(MethodParam::new("other", ty));
            self.args = args;
        }
        self.is_copy = val;
        self
    }

    /// Marks this constructor as the copy constructor.
    pub fn copy(&mut self) -> (r: &mut Self)
        ensures
            r.is_copy,
            r.args@.len() == 1,
            *final(self) == *final(r),
    {
        self.set_copy(true)
    }

    /// Marks this constructor as the move constructor, giving it a single
    /// `<name> & &` argument called `other`.
    pub fn set_move(&mut self, val: bool) -> (r: &mut Self)
        ensures
            r.is_move == val,
            val ==> r.args@.len() == 1 && r.args@[0].name@ == "other"@ && r.args@[0].default
                is None,
            !val ==> r.args == old(self).args,
            r.name == old(self).name,
            r.doc == old(self).doc,
            r.visibility == old(self).visibility,
            r.initializers == old(self).initializers,
            r.is_default == old(self).is_default,
            r.is_delete == old(self).is_delete,
            r.is_copy == old(self).is_copy,
            r.is_inside == old(self).is_inside,
            r.body == old(self).body,
            *final(self) == *final(r),
    {
        if val {
            let mut ty = Type::new(crate::types::BaseType::Class(self.name.clone()));
            ty.reference();
            ty.reference();
            let mut args: Vec<MethodParam> = Vec::new();
            args.push(MethodParam::new("other", ty));
            self.args = args;
        }
        self.is_move = val;
        self
    }

    /// Marks this constructor as the move constructor.
    pub fn movec(&mut self) -> (r: &mut Self)
        ensures
            r.is_move,
            r.args@.len() == 1,
            *final(self) == *final(r),
    {
        self.set_move(true)
    }

    /// Sets whether the definition stands inside the class.
    pub fn set_inside_def(&mut self, val: bool) -> (r: &mut Self)
        ensures
            *r == (Constructor { is_inside: val, ..*old(self) }),
            *final(self) == *final(r),
    {
        self.is_inside = val;
        self
    }

    /// Marks the constructor as defined inside the class.
    pub fn inside_def(&mut self) -> (r: &mut Self)
        ensures
            *r == (Constructor { is_inside: true, ..*old(self) }),
            *final(self) == *final(r),
    {
        self.set_inside_def(true)
    }

    /// Sets the body of the constructor; a non-empty body withdraws the
    /// defaulted and deleted markers.
    pub fn set_body(&mut self, body: Vec<Stmt>) -> (r: &mut Self)
        ensures
            r.body == body,
            r.is_default == (if body@.len() > 0 {
                false
            } else {
                old(self).is_default
            }),
            r.is_delete == (if body@.len() > 0 {
                false
            } else {
                old(self).is_delete
            }),
            r.name == old(self).name,
            r.doc == old(self).doc,
            r.visibility == old(self).visibility,
            r.args == old(self).args,
            r.initializers == old(self).initializers,
            r.is_copy == old(self).is_copy,
            r.is_move == old(self).is_move,
            r.is_inside == old(self).is_inside,
            *final(self) == *final(r),
    {
        if body.len() > 0 {
            self.is_default = false;
            self.is_delete = false;
        }
        self.body = body;
        self
    }

    /// Pushes a statement onto the body of the constructor, withdrawing the
    /// defaulted and deleted markers.
    pub fn push_stmt(&mut self, stmt: Stmt) -> (r: &mut Self)
        ensures
            r.body@ == old(self).body@.push(stmt),
            !r.is_default,
            !r.is_delete,
            *r == (Constructor {
                body: r.body,
                is_default: false,
                is_delete: false,
                ..*old(self)
            }),
            *final(self) == *final(r),
    {
        self.is_default = false;
        self.is_delete = false;
        self.body.push(stmt);
        self
    }

    /// Renders the parenthesized argument list of the constructor.
    #[verifier::loop_isolation(false)]
    fn params_string(&self, decl_only: bool) -> (r: String)
        ensures
            r@ == ctor_params_text(self.args@, decl_only),
    {
        let mut s = String::new();
        if self.args.len() == 0 {
            s.append("(void)");
            proof {
                assert(Seq::<char>::empty() + "(void)"@ =~= "(void)"@);
            }
            return s;
        }
        s.append("(");
        let ghost psv = self.args@;
        let ghost mid = s@;
        let mut i: usize = 0;
        proof {
            assert(psv.subrange(0, psv.len() as int) =~= psv);
            assert(mid + ctor_args_join(psv.subrange(0, 0), decl_only) =~= mid);
        }
        while i < self.args.len()
            invariant
                i <= psv.len(),
                s@ == mid + ctor_args_join(psv.subrange(0, i as int), decl_only),
            decreases psv.len() - i,
        {
            if i > 0 {
                s.append(", ");
            }
            self.args[i].push_flat(&mut s, decl_only);
            proof {
                let cur = psv.subrange(0, i as int + 1);
                assert(cur.subrange(0, cur.len() - 1) =~= psv.subrange(0, i as int));
                assert(cur[cur.len() - 1] == psv[i as int]);
                assert(s@ =~= mid + ctor_args_join(cur, decl_only));
            }
            i += 1;
        }
        s.append(")");
        proof {
            assert(s@ =~= ctor_params_text(psv, decl_only));
        }
        s
    }

    /// Writes the constructor through the formatter.
    #[verifier::rlimit(80)]
    #[verifier::spinoff_prover]
    pub fn do_fmt(&self, fmt: &mut Formatter, decl_only: bool)
        requires
            old(fmt).spaces + INDENT_STEP * (2 + stmts_size(self.body@)) <= usize::MAX,
        ensures
            final(fmt).out@ == old(fmt).out@ + ctor_text(
                *self,
                old(fmt).scopes.deep_view(),
                old(fmt).spaces as nat,
                line_start(old(fmt).out@),
                decl_only,
            ),
            final(fmt).spaces == old(fmt).spaces,
            final(fmt).scopes == old(fmt).scopes,
    {
        let ghost ind = fmt.spaces as nat;
        let ghost ind4 = (ind + INDENT_STEP) as nat;
        let ghost st0 = line_start(fmt.out@);
        let ghost out0 = fmt.out@;
        let ghost scs = fmt.scopes.deep_view();
        let has_lead = self.body.len() > 0 || self.doc.is_some();
        let ghost ld = written(lead_nl(has_lead), ind, st0);
        let ghost st1 = nst(lead_nl(has_lead), st0);
        if has_lead {
            fmt.write_str("\n");
            proof {
                reveal_strlit("\n");
                lemma_written_nst(lead_nl(true), ind, st0);
                lemma_line_start_concat(out0, ld);
            }
        } else {
            proof {
                assert(written(lead_nl(false), ind, st0) =~= Seq::<char>::empty());
                assert(out0 + ld =~= out0);
                lemma_line_start_concat(out0, ld);
            }
        }
        proof {
            assert(line_start(fmt.out@) == st1);
        }
        let mut head = String::new();
        push_opt_doc(&self.doc, &mut head);
        if decl_only {
            head.append(self.name.as_str());
        } else {
            let qualified = fmt.scoped_name_string(self.name.as_str());
            head.append(qualified.as_str());
        }
        let params = self.params_string(decl_only);
        head.append(params.as_str());
        proof {
            assert(head@ =~= opt_doc_flat(self.doc) + ctor_name_text(*self, scs, decl_only)
                + ctor_params_text(self.args@, decl_only));
        }
        if self.is_default {
            head.append(" = default;\n");
            fmt.write_str(head.as_str());
            proof {
                lemma_out_assoc(out0, ld, written(head@, ind, st1));
            }
            return ;
        }
        if self.is_delete {
            head.append(" = delete;\n");
            fmt.write_str(head.as_str());
            proof {
                lemma_out_assoc(out0, ld, written(head@, ind, st1));
            }
            return ;
        }
        if decl_only && !self.is_inside {
            head.append(";\n");
            fmt.write_str(head.as_str());
            proof {
                lemma_out_assoc(out0, ld, written(head@, ind, st1));
            }
            return ;
        }
        head.append("\n");
        let ghost w2 = written(head@, ind, st1);
        fmt.write_str(head.as_str());
        proof {
            lemma_out_assoc(out0, ld, w2);
            reveal_strlit("\n");
            lemma_written_nst(head@, ind, st1);
            lemma_line_start_concat(out0 + ld, w2);
            assert(line_start(fmt.out@));
        }
        let show_inits = self.initializers.len() > 0 && (!decl_only || self.is_inside);
        let ghost iw = if ctor_shows_inits(*self, decl_only) {
            inits_text(self.initializers@, ind4)
        } else {
            Seq::<char>::empty()
        };
        if show_inits {
            fmt.indent_inc();
            self.fmt_inits(fmt);
            fmt.indent_dec();
            proof {
                lemma_out_assoc(out0, ld + w2, iw);
                lemma_out_assoc(ld, w2, iw);
            }
        } else {
            proof {
                assert(fmt.out@ + iw =~= fmt.out@);
                assert((w2 + iw) =~= w2);
            }
        }
        let ghost b = written("{\n"@, ind, true);
        fmt.write_str("{\n");
        proof {
            lemma_out_assoc(out0, ld + (w2 + iw), b);
            lemma_out_assoc(ld, w2 + iw, b);
            reveal_strlit("{\n");
            lemma_written_nst("{\n"@, ind, true);
            lemma_line_start_concat(out0 + (ld + (w2 + iw)), b);
            assert(line_start(fmt.out@));
        }
        fmt.indent_inc();
        crate::stmt::fmt_stmts(fmt, &self.body);
        fmt.indent_dec();
        let ghost t = stmts_text(self.body@, ind4);
        proof {
            lemma_out_assoc(out0, ld + (w2 + iw + b), t);
            lemma_out_assoc(ld, w2 + iw + b, t);
            lemma_line_start_concat(out0 + (ld + (w2 + iw + b)), t);
        }
        let ghost c = written("}\n\n"@, ind, nst(t, true));
        fmt.write_str("}\n\n");
        proof {
            lemma_out_assoc(out0, ld + (w2 + iw + b + t), c);
            lemma_out_assoc(ld, w2 + iw + b + t, c);
            assert(ctor_text(*self, scs, ind, st0, decl_only) == ld + (w2 + iw + b + t + c));
        }
    }

    /// Writes the member initializer list, one initializer per line.
    #[verifier::loop_isolation(false)]
    fn fmt_inits(&self, fmt: &mut Formatter)
        requires
            line_start(old(fmt).out@),
        ensures
            final(fmt).out@ == old(fmt).out@ + inits_text(
                self.initializers@,
                old(fmt).spaces as nat,
            ),
            final(fmt).spaces == old(fmt).spaces,
            final(fmt).scopes == old(fmt).scopes,
            line_start(final(fmt).out@),
    {
        let ghost ind = fmt.spaces as nat;
        let ghost base = fmt.out@;
        let ghost esv = self.initializers@;
        let mut i: usize = 0;
        proof {
            assert(base + inits_text(esv.subrange(0, 0), ind) =~= base);
        }
        while i < self.initializers.len()
            invariant
                i <= esv.len(),
                fmt.out@ == base + inits_text(esv.subrange(0, i as int), ind),
                line_start(fmt.out@),
                fmt.spaces == old(fmt).spaces,
                fmt.scopes == old(fmt).scopes,
            decreases esv.len() - i,
        {
            let ghost prev = fmt.out@;
            let mut line = String::new();
            if i == 0 {
                line.append(": ");
            } else {
                line.append(", ");
            }
            self.initializers[i].push_text(&mut line);
            line.append("\n");
            proof {
                if i == 0 {
                    assert(line@ =~= ": "@ + expr_text(esv[i as int]) + "\n"@);
                } else {
                    assert(line@ =~= ", "@ + expr_text(esv[i as int]) + "\n"@);
                }
            }
            fmt.write_str(line.as_str());
            proof {
                reveal_strlit("\n");
                let cur = esv.subrange(0, i as int + 1);
                assert(cur.subrange(0, cur.len() - 1) =~= esv.subrange(0, i as int));
                assert(cur[cur.len() - 1] == esv[i as int]);
                lemma_written_nst(line@, ind, true);
                lemma_line_start_concat(prev, written(line@, ind, true));
                assert(fmt.out@ =~= base + inits_text(cur, ind));
            }
            i += 1;
        }
        proof {
            assert(esv.subrange(0, esv.len() as int) =~= esv);
        }
    }

    /// Writes the full constructor definition through the formatter.
    pub fn fmt(&self, fmt: &mut Formatter)
        requires
            old(fmt).spaces + INDENT_STEP * (2 + stmts_size(self.body@)) <= usize::MAX,
        ensures
            final(fmt).out@ == old(fmt).out@ + ctor_text(
                *self,
                old(fmt).scopes.deep_view(),
                old(fmt).spaces as nat,
                line_start(old(fmt).out@),
                false,
            ),
            final(fmt).spaces == old(fmt).spaces,
            final(fmt).scopes == old(fmt).scopes,
    {
        self.do_fmt(fmt, false)
    }

    /// Writes the declaration of the constructor through the formatter.
    pub fn fmt_decl(&self, fmt: &mut Formatter)
        requires
            old(fmt).spaces + INDENT_STEP * (2 + stmts_size(self.body@)) <= usize::MAX,
        ensures
            final(fmt).out@ == old(fmt).out@ + ctor_text(
                *self,
                old(fmt).scopes.deep_view(),
                old(fmt).spaces as nat,
                line_start(old(fmt).out@),
                true,
            ),
            final(fmt).spaces == old(fmt).spaces,
            final(fmt).scopes == old(fmt).scopes,
    {
        self.do_fmt(fmt, true)
    }

    /// Writes the definition of the constructor through the formatter; one
    /// defined inside the class emits nothing.
    pub fn fmt_def(&self, fmt: &mut Formatter)
        requires
            old(fmt).spaces + INDENT_STEP * (2 + stmts_size(self.body@)) <= usize::MAX,
        ensures
            final(fmt).out@ == old(fmt).out@ + ctor_def_text(
                *self,
                old(fmt).scopes.deep_view(),
                old(fmt).spaces as nat,
                line_start(old(fmt).out@),
            ),
            final(fmt).spaces == old(fmt).spaces,
            final(fmt).scopes == old(fmt).scopes,
    {
        if self.is_inside {
            proof {
                assert(old(fmt).out@ + ctor_def_text(
                    *self,
                    old(fmt).scopes.deep_view(),
                    old(fmt).spaces as nat,
                    line_start(old(fmt).out@),
                ) =~= old(fmt).out@);
            }
            return ;
        }
        self.do_fmt(fmt, false)
    }
}

impl Destructor {
    /// Creates a new destructor for the class of the given name.
    pub fn new(name: &str) -> (r: Self)
        ensures
            r.name@ == name@,
            r.doc is None,
            !r.is_default,
            !r.is_delete,
            !r.is_inside,
            !r.is_pure,
            r.body@ == Seq::<Stmt>::empty(),
            dtor_wf(r),
    {
        Destructor {
            name: name.to_owned(),
            doc: None,
            is_default: false,
            is_delete: false,
            is_inside: false,
            is_pure: false,
            body: Vec::new(),
        }
    }

    /// Creates a new deleted destructor for the class of the given name.
    pub fn new_delete(name: &str) -> (r: Self)
        ensures
            r.name@ == name@,
            r.is_delete,
            !r.is_default,
            !r.is_pure,
            r.body@ == Seq::<Stmt>::empty(),
            dtor_wf(r),
    {
        let mut c = Destructor::new(name);
        c.is_delete = true;
        c
    }

    /// Creates a new defaulted destructor for the class of the given name.
    pub fn new_default(name: &str) -> (r: Self)
        ensures
            r.name@ == name@,
            r.is_default,
            !r.is_delete,
            !r.is_pure,
            r.body@ == Seq::<Stmt>::empty(),
            dtor_wf(r),
    {
        let mut c = Destructor::new(name);
        c.is_default = true;
        c
    }

    /// Creates a new pure virtual destructor for the class of the given
    /// name.
    pub fn new_pure(name: &str) -> (r: Self)
        ensures
            r.name@ == name@,
            r.is_pure,
            !r.is_default,
            !r.is_delete,
            r.doc is None,
            r.body@ == Seq::<Stmt>::empty(),
            dtor_wf(r),
    {
        let mut c = Destructor::new(name);
        c.is_pure = true;
        c
    }

    /// Adds a string to the documentation comment of the destructor.
    pub fn doc_str(&mut self, doc: &str) -> (r: &mut Self)
        ensures
            opt_doc_lines(r.doc) == opt_doc_lines(old(self).doc) + add_text_entries(doc@),
            *r == (Destructor { doc: r.doc, ..*old(self) }),
            dtor_wf(*old(self)) ==> dtor_wf(*r),
            *final(self) == *final(r),
    {
        doc_add_text(&mut self.doc, doc);
        self
    }

    /// Replaces the documentation comment of the destructor.
    pub fn add_doc(&mut self, doc: Doc) -> (r: &mut Self)
        ensures
            *r == (Destructor { doc: Some(doc), ..*old(self) }),
            dtor_wf(*old(self)) ==> dtor_wf(*r),
            *final(self) == *final(r),
    {
        self.doc = Some(doc);
        self
    }

    /// Sets the destructor to be defaulted, withdrawing the deleted marker.
    pub fn set_default(&mut self, val: bool) -> (r: &mut Self)
        ensures
            *r == (Destructor {
                is_default: val,
                is_delete: if val {
                    false
                } else {
                    old(self).is_delete
                },
                ..*old(self)
            }),
            dtor_wf(*old(self)) ==> dtor_wf(*r),
            *final(self) == *final(r),
    {
        if val {
            self.is_delete = false;
        }
        self.is_default = val;
        self
    }

    /// Makes the destructor the defaulted one.
    pub fn default(&mut self) -> (r: &mut Self)
        ensures
            *r == (Destructor { is_default: true, is_delete: false, ..*old(self) }),
            dtor_wf(*old(self)) ==> dtor_wf(*r),
            *final(self) == *final(r),
    {
        self.set_default(true)
    }

    /// Sets the destructor to be deleted, withdrawing the defaulted marker.
    pub fn set_delete(&mut self, val: bool) -> (r: &mut Self)
        ensures
            *r == (Destructor {
                is_delete: val,
                is_default: if val {
                    false
                } else {
                    old(self).is_default
                },
                ..*old(self)
            }),
            dtor_wf(*old(self)) ==> dtor_wf(*r),
            *final(self) == *final(r),
    {
        if val {
            self.is_default = false;
        }
        self.is_delete = val;
        self
    }

    /// Makes the destructor deleted.
    pub fn delete(&mut self) -> (r: &mut Self)
        ensures
            *r == (Destructor { is_delete: true, is_default: false, ..*old(self) }),
            dtor_wf(*old(self)) ==> dtor_wf(*r),
            *final(self) == *final(r),
    {
        self.set_delete(true)
    }

    /// Sets whether the definition stands inside the class.
    pub fn set_inside_def(&mut self, val: bool) -> (r: &mut Self)
        ensures
            *r == (Destructor { is_inside: val, ..*old(self) }),
            dtor_wf(*old(self)) ==> dtor_wf(*r),
            *final(self) == *final(r),
    {
        self.is_inside = val;
        self
    }

    /// Marks the destructor as defined inside the class.
    pub fn inside_def(&mut self) -> (r: &mut Self)
        ensures
            *r == (Destructor { is_inside: true, ..*old(self) }),
            dtor_wf(*old(self)) ==> dtor_wf(*r),
            *final(self) == *final(r),
    {
        self.set_inside_def(true)
    }

    /// Sets the pure marker of the destructor; setting it drops any attached
    /// body, keeping the two mutually exclusive.
    pub fn set_pure(&mut self, val: bool) -> (r: &mut Self)
        ensures
            r.is_pure == val,
            val ==> r.body@ == Seq::<Stmt>::empty(),
            !val ==> r.body == old(self).body,
            r.name == old(self).name,
            r.doc == old(self).doc,
            r.is_default == old(self).is_default,
            r.is_delete == old(self).is_delete,
            r.is_inside == old(self).is_inside,
            dtor_wf(*r),
            *final(self) == *final(r),
    {
        if val {
            self.body.clear();
        }
        self.is_pure = val;
        self
    }

    /// Turns the destructor into a pure virtual one, dropping any attached
    /// body.
    pub fn pure(&mut self) -> (r: &mut Self)
        ensures
            r.is_pure,
            r.body@ == Seq::<Stmt>::empty(),
            r.name == old(self).name,
            r.doc == old(self).doc,
            r.is_default == old(self).is_default,
            r.is_delete == old(self).is_delete,
            r.is_inside == old(self).is_inside,
            dtor_wf(*r),
            *final(self) == *final(r),
    {
        self.set_pure(true)
    }

    /// Sets the body of the destructor; a non-empty body withdraws the
    /// defaulted, deleted and pure markers.
    pub fn set_body(&mut self, body: Vec<Stmt>) -> (r: &mut Self)
        ensures
            r.body == body,
            r.is_default == (if body@.len() > 0 {
                false
            } else {
                old(self).is_default
            }),
            r.is_delete == (if body@.len() > 0 {
                false
            } else {
                old(self).is_delete
            }),
            r.is_pure == (if body@.len() > 0 {
                false
            } else {
                old(self).is_pure
            }),
            r.name == old(self).name,
            r.doc == old(self).doc,
            r.is_inside == old(self).is_inside,
            dtor_wf(*old(self)) ==> dtor_wf(*r),
            *final(self) == *final(r),
    {
        if body.len() > 0 {
            self.is_default = false;
            self.is_delete = false;
            self.is_pure = false;
        }
        self.body = body;
        self
    }

    /// Pushes a statement onto the body of the destructor, withdrawing the
    /// defaulted, deleted and pure markers.
    pub fn push_stmt(&mut self, stmt: Stmt) -> (r: &mut Self)
        ensures
            r.body@ == old(self).body@.push(stmt),
            !r.is_default,
            !r.is_delete,
            !r.is_pure,
            r.name == old(self).name,
            r.doc == old(self).doc,
            r.is_inside == old(self).is_inside,
            dtor_wf(*r),
            *final(self) == *final(r),
    {
        self.is_default = false;
        self.is_delete = false;
        self.is_pure = false;
        self.body.push(stmt);
        self
    }

    /// Writes the destructor through the formatter.
    #[verifier::rlimit(80)]
    #[verifier::spinoff_prover]
    pub fn do_fmt(&self, fmt: &mut Formatter, decl_only: bool)
        requires
            old(fmt).spaces + INDENT_STEP * (2 + stmts_size(self.body@)) <= usize::MAX,
        ensures
            final(fmt).out@ == old(fmt).out@ + dtor_text(
                *self,
                old(fmt).spaces as nat,
                line_start(old(fmt).out@),
                decl_only,
            ),
            final(fmt).spaces == old(fmt).spaces,
            final(fmt).scopes == old(fmt).scopes,
    {
        let ghost ind = fmt.spaces as nat;
        let ghost ind4 = (ind + INDENT_STEP) as nat;
        let ghost st0 = line_start(fmt.out@);
        let ghost out0 = fmt.out@;
        let has_lead = self.body.len() > 0 || self.doc.is_some();
        let ghost ld = written(lead_nl(has_lead), ind, st0);
        let ghost st1 = nst(lead_nl(has_lead), st0);
        if has_lead {
            fmt.write_str("\n");
            proof {
                reveal_strlit("\n");
                lemma_written_nst(lead_nl(true), ind, st0);
                lemma_line_start_concat(out0, ld);
            }
        } else {
            proof {
                assert(written(lead_nl(false), ind, st0) =~= Seq::<char>::empty());
                assert(out0 + ld =~= out0);
                lemma_line_start_concat(out0, ld);
            }
        }
        proof {
            assert(line_start(fmt.out@) == st1);
        }
        let mut head = String::new();
        push_opt_doc(&self.doc, &mut head);
        if self.is_pure {
            head.append("virtual ");
        }
        head.append("~");
        head.append(self.name.as_str());
        head.append("(void)");
        proof {
            assert(head@ =~= dtor_head_flat(*self));
        }
        if self.is_default {
            head.append(" = default;\n");
            fmt.write_str(head.as_str());
            proof {
                lemma_out_assoc(out0, ld, written(head@, ind, st1));
            }
            return ;
        }
        if self.is_delete {
            head.append(" = delete;\n");
            fmt.write_str(head.as_str());
            proof {
                lemma_out_assoc(out0, ld, written(head@, ind, st1));
            }
            return ;
        }
        if self.is_pure {
            head.append(" = 0;\n");
            fmt.write_str(head.as_str());
            proof {
                lemma_out_assoc(out0, ld, written(head@, ind, st1));
            }
            return ;
        }
        let stop = self.body.len() == 0 || (decl_only && !self.is_inside);
        if stop {
            head.append(";\n");
            fmt.write_str(head.as_str());
            proof {
                lemma_out_assoc(out0, ld, written(head@, ind, st1));
            }
            return ;
        }
        head.append(" {\n");
        let ghost w2 = written(head@, ind, st1);
        fmt.write_str(head.as_str());
        proof {
            lemma_out_assoc(out0, ld, w2);
            reveal_strlit(" {\n");
            lemma_written_nst(head@, ind, st1);
            lemma_line_start_concat(out0 + ld, w2);
            assert(line_start(fmt.out@));
        }
        fmt.indent_inc();
        crate::stmt::fmt_stmts(fmt, &self.body);
        fmt.indent_dec();
        let ghost t = stmts_text(self.body@, ind4);
        proof {
            lemma_out_assoc(out0, ld + w2, t);
            lemma_out_assoc(ld, w2, t);
            lemma_line_start_concat(out0 + (ld + w2), t);
        }
        let ghost c = written("}\n\n"@, ind, nst(t, true));
        fmt.write_str("}\n\n");
        proof {
            lemma_out_assoc(out0, ld + (w2 + t), c);
            lemma_out_assoc(ld, w2 + t, c);
            assert(dtor_text(*self, ind, st0, decl_only) == ld + (w2 + t + c));
        }
    }

    /// Writes the full destructor definition through the formatter.
    pub fn fmt(&self, fmt: &mut Formatter)
        requires
            old(fmt).spaces + INDENT_STEP * (2 + stmts_size(self.body@)) <= usize::MAX,
        ensures
            final(fmt).out@ == old(fmt).out@ + dtor_text(
                *self,
                old(fmt).spaces as nat,
                line_start(old(fmt).out@),
                false,
            ),
            final(fmt).spaces == old(fmt).spaces,
            final(fmt).scopes == old(fmt).scopes,
    {
        self.do_fmt(fmt, false)
    }

    /// Writes the declaration of the destructor through the formatter.
    pub fn fmt_decl(&self, fmt: &mut Formatter)
        requires
            old(fmt).spaces + INDENT_STEP * (2 + stmts_size(self.body@)) <= usize::MAX,
        ensures
            final(fmt).out@ == old(fmt).out@ + dtor_text(
                *self,
                old(fmt).spaces as nat,
                line_start(old(fmt).out@),
                true,
            ),
            final(fmt).spaces == old(fmt).spaces,
            final(fmt).scopes == old(fmt).scopes,
    {
        self.do_fmt(fmt, true)
    }

    /// Writes the definition of the destructor through the formatter; one
    /// defined inside the class emits nothing.
    pub fn fmt_def(&self, fmt: &mut Formatter)
        requires
            old(fmt).spaces + INDENT_STEP * (2 + stmts_size(self.body@)) <= usize::MAX,
        ensures
            final(fmt).out@ == old(fmt).out@ + dtor_def_text(
                *self,
                old(fmt).spaces as nat,
                line_start(old(fmt).out@),
            ),
            final(fmt).spaces == old(fmt).spaces,
            final(fmt).scopes == old(fmt).scopes,
    {
        if self.is_inside {
            proof {
                assert(old(fmt).out@ + dtor_def_text(
                    *self,
                    old(fmt).spaces as nat,
                    line_start(old(fmt).out@),
                ) =~= old(fmt).out@);
            }
            return ;
        }
        self.do_fmt(fmt, false)
    }
}

} // verus!
