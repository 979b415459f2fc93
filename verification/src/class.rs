//! C++ classes of the generated code: constructors, a destructor, methods
//! and attributes, emitted by visibility section in declaration mode and as
//! out-of-class definitions in definition mode.

use vstd::prelude::*;

use crate::attribute::Attribute;
use crate::attribute::attr_flat;
use crate::constructor::Constructor;
use crate::constructor::Destructor;
use crate::constructor::ctor_text;
use crate::constructor::dtor_text;
use crate::doc::Doc;
use crate::doc::add_text_entries;
use crate::doc::doc_add_text;
use crate::doc::opt_doc_flat;
use crate::doc::opt_doc_lines;
use crate::doc::push_opt_doc;
use crate::formatter::Formatter;
use crate::formatter::INDENT_STEP;
use crate::formatter::brace_open;
use crate::formatter::lemma_line_start_concat;
use crate::formatter::lemma_out_assoc;
use crate::formatter::lemma_written_nst;
use crate::formatter::line_start;
use crate::formatter::nst;
use crate::formatter::written;
use crate::method::Method;
use crate::method::method_text;
use crate::stmt::stmts_size;
use crate::types::Type;
use crate::types::Visibility;
use crate::types::type_text;
use crate::types::vis_text;

verus! {

/// A C++ class.
#[derive(Debug)]
pub struct Class {
    /// The name of the class.
    pub name: String,
    /// The documentation comment of the class.
    pub doc: Option<Doc>,
    /// The parent class with its visibility, if any.
    pub base: Option<(Visibility, String)>,
    /// The constructors of the class.
    pub constructors: Vec<Constructor>,
    /// The destructor of the class, if any.
    pub destructor: Option<Destructor>,
    /// The method members of the class.
    pub methods: Vec<Method>,
    /// The attribute members of the class.
    pub attributes: Vec<Attribute>,
}

/// Whether a member of the given visibility belongs to a pass: no filter
/// takes everything, and the private pass also takes the default
/// visibility.
pub open spec fn vis_selects(filter: Option<Visibility>, v: Visibility) -> bool {
    match filter {
        None => true,
        Some(Visibility::Private) => v == Visibility::Private || v == Visibility::Default,
        Some(w) => v == w,
    }
}

/// The combined nesting bound of a list of constructors.
pub open spec fn ctors_size(cs: Seq<Constructor>) -> nat
    decreases cs,
{
    if cs.len() == 0 {
        0
    } else {
        2 + stmts_size(cs[0].body@) + ctors_size(cs.subrange(1, cs.len() as int))
    }
}

/// The combined nesting bound of a list of methods.
pub open spec fn methods_size(ms: Seq<Method>) -> nat
    decreases ms,
{
    if ms.len() == 0 {
        0
    } else {
        2 + stmts_size(ms[0].body@) + methods_size(ms.subrange(1, ms.len() as int))
    }
}

/// The nesting bound of an optional destructor.
pub open spec fn dtor_size(od: Option<Destructor>) -> nat {
    match od {
        Some(d) => 2 + stmts_size(d.body@),
        None => 0,
    }
}

/// The nesting bound of a whole class.
pub open spec fn class_size(c: Class) -> nat {
    3 + ctors_size(c.constructors@) + dtor_size(c.destructor) + methods_size(c.methods@)
}

pub proof fn lemma_ctors_size_elem(cs: Seq<Constructor>, i: int)
    requires
        0 <= i < cs.len(),
    ensures
        2 + stmts_size(cs[i].body@) <= ctors_size(cs),
    decreases cs.len(),
{
    if i > 0 {
        lemma_ctors_size_elem(cs.subrange(1, cs.len() as int), i - 1);
    }
}

pub proof fn lemma_methods_size_elem(ms: Seq<Method>, i: int)
    requires
        0 <= i < ms.len(),
    ensures
        2 + stmts_size(ms[i].body@) <= methods_size(ms),
    decreases ms.len(),
{
    if i > 0 {
        lemma_methods_size_elem(ms.subrange(1, ms.len() as int), i - 1);
    }
}

/// One pass over the constructors: those the filter selects, in insertion
/// order, each threading the line-start state onward.
pub open spec fn ctors_pass(
    cs: Seq<Constructor>,
    filter: Option<Visibility>,
    scopes: Seq<Seq<char>>,
    ind: nat,
    st: bool,
    decl_only: bool,
) -> Seq<char>
    decreases cs,
{
    if cs.len() == 0 {
        Seq::empty()
    } else {
        let tail = cs.subrange(1, cs.len() as int);
        if vis_selects(filter, cs[0].visibility) {
            let t = ctor_text(cs[0], scopes, ind, st, decl_only);
            t + ctors_pass(tail, filter, scopes, ind, nst(t, st), decl_only)
        } else {
            ctors_pass(tail, filter, scopes, ind, st, decl_only)
        }
    }
}

/// One pass over the attributes: those the filter selects, restricted to
/// static ones when asked.
pub open spec fn attrs_pass(
    ats: Seq<Attribute>,
    filter: Option<Visibility>,
    static_only: bool,
    ind: nat,
    st: bool,
    decl_only: bool,
) -> Seq<char>
    decreases ats,
{
    if ats.len() == 0 {
        Seq::empty()
    } else {
        let tail = ats.subrange(1, ats.len() as int);
        if vis_selects(filter, ats[0].visibility) && (!static_only || ats[0].is_static) {
            let t = written(attr_flat(ats[0], decl_only), ind, st);
            t + attrs_pass(tail, filter, static_only, ind, nst(t, st), decl_only)
        } else {
            attrs_pass(tail, filter, static_only, ind, st, decl_only)
        }
    }
}

/// One pass over the methods: those the filter selects.
pub open spec fn methods_pass(
    ms: Seq<Method>,
    filter: Option<Visibility>,
    ind: nat,
    st: bool,
    decl_only: bool,
) -> Seq<char>
    decreases ms,
{
    if ms.len() == 0 {
        Seq::empty()
    } else {
        let tail = ms.subrange(1, ms.len() as int);
        if vis_selects(filter, ms[0].visibility) {
            let t = method_text(ms[0], ind, st, decl_only);
            t + methods_pass(tail, filter, ind, nst(t, st), decl_only)
        } else {
            methods_pass(tail, filter, ind, st, decl_only)
        }
    }
}

/// Whether any constructor of the list falls in the given pass.
pub open spec fn any_ctor(cs: Seq<Constructor>, filter: Option<Visibility>) -> bool {
    exists|i: int| 0 <= i < cs.len() && vis_selects(filter, cs[i].visibility)
}

/// Whether any attribute of the list falls in the given pass.
pub open spec fn any_attr(ats: Seq<Attribute>, filter: Option<Visibility>) -> bool {
    exists|i: int| 0 <= i < ats.len() && vis_selects(filter, ats[i].visibility)
}

/// Whether any method of the list falls in the given pass.
pub open spec fn any_method(ms: Seq<Method>, filter: Option<Visibility>) -> bool {
    exists|i: int| 0 <= i < ms.len() && vis_selects(filter, ms[i].visibility)
}

/// Whether the public section header is shown: a destructor is present or
/// some member is public.
pub open spec fn shows_public(c: Class) -> bool {
    c.destructor is Some || any_attr(c.attributes@, Some(Visibility::Public)) || any_method(
        c.methods@,
        Some(Visibility::Public),
    ) || any_ctor(c.constructors@, Some(Visibility::Public))
}

/// Whether the protected section header is shown; only attributes and
/// constructors are consulted.
pub open spec fn shows_protected(c: Class) -> bool {
    any_attr(c.attributes@, Some(Visibility::Protected)) || any_ctor(
        c.constructors@,
        Some(Visibility::Protected),
    )
}

/// Whether the private section header is shown; only attributes and
/// constructors are consulted.
pub open spec fn shows_private(c: Class) -> bool {
    any_attr(c.attributes@, Some(Visibility::Private)) || any_ctor(
        c.constructors@,
        Some(Visibility::Private),
    )
}

/// Whether the class has no members at all.
pub open spec fn class_is_empty(c: Class) -> bool {
    c.destructor is None && c.constructors@.len() == 0 && c.methods@.len() == 0
        && c.attributes@.len() == 0
}

/// The destructor's declaration inside the public section, when present.
pub open spec fn dtor_part(od: Option<Destructor>, ind: nat, st: bool) -> Seq<char> {
    match od {
        Some(d) => dtor_text(d, ind, st, true),
        None => Seq::empty(),
    }
}

/// An optional section header line.
pub open spec fn section_hdr(show: bool, hdr: Seq<char>, ind: nat, st: bool) -> Seq<char> {
    if show {
        written(hdr, ind, st)
    } else {
        Seq::empty()
    }
}

/// One visibility section of a class declaration: an optional header line,
/// the selected constructors, in the public section the destructor, then
/// the selected attributes and methods.
pub open spec fn class_section_text(
    c: Class,
    filter: Option<Visibility>,
    show: bool,
    hdr: Seq<char>,
    with_dtor: bool,
    scopes: Seq<Seq<char>>,
    ind: nat,
    st: bool,
) -> Seq<char> {
    let h = section_hdr(show, hdr, ind, st);
    let s1 = nst(h, st);
    let t1 = ctors_pass(c.constructors@, filter, scopes, ind, s1, true);
    let s2 = nst(t1, s1);
    let t2 = if with_dtor {
        dtor_part(c.destructor, ind, s2)
    } else {
        Seq::<char>::empty()
    };
    let s3 = nst(t2, s2);
    let t3 = attrs_pass(c.attributes@, filter, false, ind, s3, true);
    let s4 = nst(t3, s3);
    let t4 = methods_pass(c.methods@, filter, ind, s4, true);
    h + t1 + t2 + t3 + t4
}

/// The body of a class declaration: the three visibility sections.
pub open spec fn class_body_text(c: Class, scopes: Seq<Seq<char>>, ind: nat) -> Seq<char> {
    let p1 = class_section_text(
        c,
        Some(Visibility::Public),
        shows_public(c),
        "\npublic:\n"@,
        true,
        scopes,
        ind,
        true,
    );
    let p2 = class_section_text(
        c,
        Some(Visibility::Protected),
        shows_protected(c),
        "\nprotected:\n"@,
        false,
        scopes,
        ind,
        nst(p1, true),
    );
    let p3 = class_section_text(
        c,
        Some(Visibility::Private),
        shows_private(c),
        "\nprivate:\n"@,
        false,
        scopes,
        ind,
        nst(p2, nst(p1, true)),
    );
    p1 + p2 + p3
}

/// The head of a class declaration: documentation, `class <name>`, and the
/// parent class clause.
pub open spec fn class_head_flat(c: Class) -> Seq<char> {
    opt_doc_flat(c.doc) + "class "@ + c.name@ + (match c.base {
        Some(b) => " : "@ + vis_text(b.0) + " "@ + b.1@,
        None => Seq::<char>::empty(),
    })
}

/// The declaration of a class at indentation `ind` with line-start state
/// `st`: its head, then ` { };` for an empty class, or a brace-delimited
/// body of visibility sections closed by `;`.
pub open spec fn class_decl_text(c: Class, scopes: Seq<Seq<char>>, ind: nat, st: bool) -> Seq<char> {
    let head = class_head_flat(c);
    if class_is_empty(c) {
        written(head + " { };\n"@, ind, st)
    } else {
        let st1 = nst(head, st);
        let body = class_body_text(c, scopes, (ind + INDENT_STEP) as nat);
        written(head, ind, st) + written(brace_open(st1), ind, st1) + body + written(
            "}\n"@,
            ind,
            nst(body, true),
        ) + written(";\n"@, ind, true)
    }
}

/// The definitions of a class: documentation, then the out-of-class
/// emissions of constructors, static attributes and methods, inside the
/// class's own scope.
pub open spec fn class_defs_text(c: Class, scopes: Seq<Seq<char>>, ind: nat, st: bool) -> Seq<
    char,
> {
    let d = written(opt_doc_flat(c.doc), ind, st);
    let s1 = nst(opt_doc_flat(c.doc), st);
    let t1 = ctors_pass(c.constructors@, None, scopes, ind, s1, false);
    let s2 = nst(t1, s1);
    let t2 = attrs_pass(c.attributes@, None, true, ind, s2, false);
    let s3 = nst(t2, s2);
    let t3 = methods_pass(c.methods@, None, ind, s3, false);
    d + t1 + t2 + t3
}

/// The text a class emits inside its own scope: the declaration in
/// declaration mode, the out-of-class definitions otherwise; `scopes` is
/// the scope stack with the class's own name already entered.
pub open spec fn class_scope_text(
    c: Class,
    scopes: Seq<Seq<char>>,
    ind: nat,
    st: bool,
    decl_only: bool,
) -> Seq<char> {
    if decl_only {
        class_decl_text(c, scopes, ind, st)
    } else {
        class_defs_text(c, scopes, ind, st)
    }
}

/// The rendered text of a class: what it emits after entering its own
/// scope.
pub open spec fn class_text(c: Class, scopes: Seq<Seq<char>>, ind: nat, st: bool, decl_only: bool)
    -> Seq<char> {
    class_scope_text(c, scopes.push(c.name@), ind, st, decl_only)
}

/// Decides membership of a visibility pass.
fn vis_selects_exec(filter: Option<Visibility>, v: Visibility) -> (r: bool)
    ensures
        r == vis_selects(filter, v),
{
    match filter {
        None => true,
        Some(Visibility::Private) => v == Visibility::Private || v == Visibility::Default,
        Some(w) => v == w,
    }
}

/// Writes the constructors a pass selects through the formatter.
#[verifier::loop_isolation(false)]
#[verifier::rlimit(60)]
fn fmt_ctors_pass(fmt: &mut Formatter, cs: &Vec<Constructor>, filter: Option<Visibility>, decl_only: bool)
    requires
        old(fmt).spaces + INDENT_STEP * (2 + ctors_size(cs@)) <= usize::MAX,
    ensures
        final(fmt).out@ == old(fmt).out@ + ctors_pass(
            cs@,
            filter,
            old(fmt).scopes.deep_view(),
            old(fmt).spaces as nat,
            line_start(old(fmt).out@),
            decl_only,
        ),
        final(fmt).spaces == old(fmt).spaces,
        final(fmt).scopes == old(fmt).scopes,
{
    let ghost ind = fmt.spaces as nat;
    let ghost scs = fmt.scopes.deep_view();
    let ghost csv = cs@;
    let ghost target = fmt.out@ + ctors_pass(csv, filter, scs, ind, line_start(fmt.out@), decl_only);
    let mut i: usize = 0;
    proof {
        assert(csv.subrange(0, csv.len() as int) =~= csv);
    }
    while i < cs.len()
        invariant
            i <= csv.len(),
            target == fmt.out@ + ctors_pass(
                csv.subrange(i as int, csv.len() as int),
                filter,
                scs,
                ind,
                line_start(fmt.out@),
                decl_only,
            ),
            fmt.spaces == old(fmt).spaces,
            fmt.scopes == old(fmt).scopes,
        decreases csv.len() - i,
    {
        let ghost rest = csv.subrange(i as int, csv.len() as int);
        let ghost rest1 = csv.subrange(i as int + 1, csv.len() as int);
        let ghost stc = line_start(fmt.out@);
        let ghost prev = fmt.out@;
        proof {
            assert(rest.subrange(1, rest.len() as int) =~= rest1);
            assert(rest[0] == csv[i as int]);
            lemma_ctors_size_elem(csv, i as int);
        }
        if vis_selects_exec(filter, cs[i].visibility) {
            cs[i].do_fmt(fmt, decl_only);
            proof {
                let t = ctor_text(csv[i as int], scs, ind, stc, decl_only);
                lemma_line_start_concat(prev, t);
                lemma_out_assoc(prev, t, ctors_pass(rest1, filter, scs, ind, nst(t, stc), decl_only));
            }
        }
        i += 1;
    }
    proof {
        assert(csv.subrange(csv.len() as int, csv.len() as int) =~= Seq::<Constructor>::empty());
        assert(fmt.out@ + ctors_pass(
            Seq::<Constructor>::empty(),
            filter,
            scs,
            ind,
            line_start(fmt.out@),
            decl_only,
        ) =~= fmt.out@);
    }
}

/// Writes the attributes a pass selects through the formatter.
#[verifier::loop_isolation(false)]
#[verifier::rlimit(60)]
fn fmt_attrs_pass(
    fmt: &mut Formatter,
    ats: &Vec<Attribute>,
    filter: Option<Visibility>,
    static_only: bool,
    decl_only: bool,
)
    ensures
        final(fmt).out@ == old(fmt).out@ + attrs_pass(
            ats@,
            filter,
            static_only,
            old(fmt).spaces as nat,
            line_start(old(fmt).out@),
            decl_only,
        ),
        final(fmt).spaces == old(fmt).spaces,
        final(fmt).scopes == old(fmt).scopes,
{
    let ghost ind = fmt.spaces as nat;
    let ghost asv = ats@;
    let ghost target = fmt.out@ + attrs_pass(
        asv,
        filter,
        static_only,
        ind,
        line_start(fmt.out@),
        decl_only,
    );
    let mut i: usize = 0;
    proof {
        assert(asv.subrange(0, asv.len() as int) =~= asv);
    }
    while i < ats.len()
        invariant
            i <= asv.len(),
            target == fmt.out@ + attrs_pass(
                asv.subrange(i as int, asv.len() as int),
                filter,
                static_only,
                ind,
                line_start(fmt.out@),
                decl_only,
            ),
            fmt.spaces == old(fmt).spaces,
            fmt.scopes == old(fmt).scopes,
        decreases asv.len() - i,
    {
        let ghost rest = asv.subrange(i as int, asv.len() as int);
        let ghost rest1 = asv.subrange(i as int + 1, asv.len() as int);
        let ghost stc = line_start(fmt.out@);
        let ghost prev = fmt.out@;
        proof {
            assert(rest.subrange(1, rest.len() as int) =~= rest1);
            assert(rest[0] == asv[i as int]);
        }
        if vis_selects_exec(filter, ats[i].visibility) && (!static_only || ats[i].is_static) {
            ats[i].do_fmt(fmt, decl_only);
            proof {
                let t = written(attr_flat(asv[i as int], decl_only), ind, stc);
                lemma_line_start_concat(prev, t);
                lemma_out_assoc(
                    prev,
                    t,
                    attrs_pass(rest1, filter, static_only, ind, nst(t, stc), decl_only),
                );
            }
        }
        i += 1;
    }
    proof {
        assert(asv.subrange(asv.len() as int, asv.len() as int) =~= Seq::<Attribute>::empty());
        assert(fmt.out@ + attrs_pass(
            Seq::<Attribute>::empty(),
            filter,
            static_only,
            ind,
            line_start(fmt.out@),
            decl_only,
        ) =~= fmt.out@);
    }
}

/// Writes the methods a pass selects through the formatter.
#[verifier::loop_isolation(false)]
#[verifier::rlimit(60)]
fn fmt_methods_pass(fmt: &mut Formatter, ms: &Vec<Method>, filter: Option<Visibility>, decl_only: bool)
    requires
        old(fmt).spaces + INDENT_STEP * (2 + methods_size(ms@)) <= usize::MAX,
    ensures
        final(fmt).out@ == old(fmt).out@ + methods_pass(
            ms@,
            filter,
            old(fmt).spaces as nat,
            line_start(old(fmt).out@),
            decl_only,
        ),
        final(fmt).spaces == old(fmt).spaces,
        final(fmt).scopes == old(fmt).scopes,
{
    let ghost ind = fmt.spaces as nat;
    let ghost msv = ms@;
    let ghost target = fmt.out@ + methods_pass(msv, filter, ind, line_start(fmt.out@), decl_only);
    let mut i: usize = 0;
    proof {
        assert(msv.subrange(0, msv.len() as int) =~= msv);
    }
    while i < ms.len()
        invariant
            i <= msv.len(),
            target == fmt.out@ + methods_pass(
                msv.subrange(i as int, msv.len() as int),
                filter,
                ind,
                line_start(fmt.out@),
                decl_only,
            ),
            fmt.spaces == old(fmt).spaces,
            fmt.scopes == old(fmt).scopes,
        decreases msv.len() - i,
    {
        let ghost rest = msv.subrange(i as int, msv.len() as int);
        let ghost rest1 = msv.subrange(i as int + 1, msv.len() as int);
        let ghost stc = line_start(fmt.out@);
        let ghost prev = fmt.out@;
        proof {
            assert(rest.subrange(1, rest.len() as int) =~= rest1);
            assert(rest[0] == msv[i as int]);
            lemma_methods_size_elem(msv, i as int);
        }
        if vis_selects_exec(filter, ms[i].visibility) {
            ms[i].do_fmt(fmt, decl_only);
            proof {
                let t = method_text(msv[i as int], ind, stc, decl_only);
                lemma_line_start_concat(prev, t);
                lemma_out_assoc(prev, t, methods_pass(rest1, filter, ind, nst(t, stc), decl_only));
            }
        }
        i += 1;
    }
    proof {
        assert(msv.subrange(msv.len() as int, msv.len() as int) =~= Seq::<Method>::empty());
        assert(fmt.out@ + methods_pass(
            Seq::<Method>::empty(),
            filter,
            ind,
            line_start(fmt.out@),
            decl_only,
        ) =~= fmt.out@);
    }
}

impl Class {
    /// Creates a new, empty class with the given name.
    pub fn new(name: &str) -> (r: Self)
        ensures
            r.name@ == name@,
            r.doc is None,
            r.base is None,
            r.constructors@ == Seq::<Constructor>::empty(),
            r.destructor is None,
            r.methods@ == Seq::<Method>::empty(),
            r.attributes@ == Seq::<Attribute>::empty(),
    {
        Class {
            name: name.to_owned(),
            doc: None,
            base: None,
            destructor: None,
            constructors: Vec::new(),
            methods: Vec::new(),
            attributes: Vec::new(),
        }
    }

    /// The corresponding type for this class.
    pub fn to_type(&self) -> (r: Type)
        ensures
            r.unmodified(),
            r.wf(),
            type_text(r) == self.name@,
    {
        Type::new_class(self.name.as_str())
    }

    /// Adds a string to the documentation comment of the class.
    pub fn push_doc_str(&mut self, doc: &str) -> (r: &mut Self)
        ensures
            opt_doc_lines(r.doc) == opt_doc_lines(old(self).doc) + add_text_entries(doc@),
            *r == (Class { doc: r.doc, ..*old(self) }),
            *final(self) == *final(r),
    {
        doc_add_text(&mut self.doc, doc);
        self
    }

    /// Replaces the documentation comment of the class.
    pub fn doc(&mut self, doc: Doc) -> (r: &mut Self)
        ensures
            *r == (Class { doc: Some(doc), ..*old(self) }),
            *final(self) == *final(r),
    {
        self.doc = Some(doc);
        self
    }

    /// Sets the parent class, with the visibility of the derivation.
    pub fn set_base(&mut self, base: &str, visibility: Visibility) -> (r: &mut Self)
        ensures
            r.base matches Some(b) && b.0 == visibility && b.1@ == base@,
            *r == (Class { base: r.base, ..*old(self) }),
            *final(self) == *final(r),
    {
        self.base = Some((visibility, base.to_owned()));
        self
    }

    /// Creates a new attribute member and hands it out for further
    /// construction.
    pub fn new_attribute(&mut self, name: &str, ty: Type) -> (r: &mut Attribute)
        ensures
            r.name@ == name@,
            r.ty == ty,
            r.visibility == Visibility::Default,
            final(self).attributes@ == old(self).attributes@.push(*final(r)),
            *final(self) == (Class { attributes: final(self).attributes, ..*old(self) }),
    {
        self.attributes.push(Attribute::new(name, ty));
        let n = self.attributes.len();
        &mut self.attributes[n - 1]
    }

    /// Pushes an attribute member onto the class.
    pub fn push_attribute(&mut self, field: Attribute) -> (r: &mut Self)
        ensures
            r.attributes@ == old(self).attributes@.push(field),
            *r == (Class { attributes: r.attributes, ..*old(self) }),
            *final(self) == *final(r),
    {
        self.attributes.push(field);
        self
    }

    /// Creates a new method member and hands it out for further
    /// construction.
    pub fn new_method(&mut self, name: &str, ty: Type) -> (r: &mut Method)
        ensures
            r.name@ == name@,
            r.ret == ty,
            r.visibility == Visibility::Private,
            final(self).methods@ == old(self).methods@.push(*final(r)),
            *final(self) == (Class { methods: final(self).methods, ..*old(self) }),
    {
        self.methods.push(Method::new(name, ty));
        let n = self.methods.len();
        &mut self.methods[n - 1]
    }

    /// Pushes a method member onto the class.
    pub fn push_method(&mut self, method: Method) -> (r: &mut Self)
        ensures
            r.methods@ == old(self).methods@.push(method),
            *r == (Class { methods: r.methods, ..*old(self) }),
            *final(self) == *final(r),
    {
        self.methods.push(method);
        self
    }

    /// Creates a new constructor for the class and hands it out for further
    /// construction.
    pub fn new_constructor(&mut self) -> (r: &mut Constructor)
        ensures
            r.name@ == old(self).name@,
            r.visibility == Visibility::Public,
            final(self).constructors@ == old(self).constructors@.push(*final(r)),
            *final(self) == (Class { constructors: final(self).constructors, ..*old(self) }),
    {
        let c = Constructor::new(self.name.as_str());
        self.constructors.push(c);
        let n = self.constructors.len();
        &mut self.constructors[n - 1]
    }

    /// Creates a new destructor for the class and hands it out for further
    /// construction.
    pub fn new_destructor(&mut self) -> (r: &mut Destructor)
        ensures
            r.name@ == old(self).name@,
            final(self).destructor == Some(*final(r)),
            *final(self) == (Class { destructor: final(self).destructor, ..*old(self) }),
    {
        self.destructor = Some(Destructor::new(self.name.as_str()));
        match &mut self.destructor {
            Some(d) => d,
            None => vstd::pervasive::unreached(),
        }
    }

    /// Writes one visibility section of the class declaration.
    #[verifier::rlimit(80)]
    #[verifier::spinoff_prover]
    fn fmt_class_section(
        &self,
        fmt: &mut Formatter,
        filter: Option<Visibility>,
        show: bool,
        hdr: &str,
        with_dtor: bool,
    )
        requires
            old(fmt).spaces + INDENT_STEP * (2 + ctors_size(self.constructors@) + dtor_size(
                self.destructor,
            ) + methods_size(self.methods@)) <= usize::MAX,
            show == (if with_dtor {
                shows_public(*self)
            } else {
                show
            }),
        ensures
            final(fmt).out@ == old(fmt).out@ + class_section_text(
                *self,
                filter,
                show,
                hdr@,
                with_dtor,
                old(fmt).scopes.deep_view(),
                old(fmt).spaces as nat,
                line_start(old(fmt).out@),
            ),
            final(fmt).spaces == old(fmt).spaces,
            final(fmt).scopes == old(fmt).scopes,
    {
        let ghost ind = fmt.spaces as nat;
        let ghost st0 = line_start(fmt.out@);
        let ghost out0 = fmt.out@;
        let ghost scs = fmt.scopes.deep_view();
        let ghost h = section_hdr(show, hdr@, ind, st0);
        if show {
            fmt.write_str(hdr);
        } else {
            proof {
                assert(out0 + h =~= out0);
            }
        }
        proof {
            lemma_line_start_concat(out0, h);
        }
        fmt_ctors_pass(fmt, &self.constructors, filter, true);
        let ghost t1 = ctors_pass(self.constructors@, filter, scs, ind, nst(h, st0), true);
        proof {
            lemma_out_assoc(out0, h, t1);
            lemma_line_start_concat(out0 + h, t1);
        }
        let ghost t2 = if with_dtor {
            dtor_part(self.destructor, ind, nst(t1, nst(h, st0)))
        } else {
            Seq::<char>::empty()
        };
        if with_dtor {
            match &self.destructor {
                Some(d) => {
                    d.do_fmt(fmt, true);
                    proof {
                        lemma_out_assoc(out0, h + t1, t2);
                        lemma_line_start_concat(out0 + (h + t1), t2);
                    }
                },
                None => {
                    proof {
                        assert((h + t1) + t2 =~= h + t1);
                        assert(fmt.out@ + t2 =~= fmt.out@);
                    }
                },
            }
        } else {
            proof {
                assert((h + t1) + t2 =~= h + t1);
                assert(fmt.out@ + t2 =~= fmt.out@);
            }
        }
        proof {
            lemma_line_start_concat(out0, h + t1 + t2);
            assert(out0 + ((h + t1) + t2) =~= (out0 + (h + t1)) + t2);
        }
        fmt_attrs_pass(fmt, &self.attributes, filter, false, true);
        let ghost t3 = attrs_pass(
            self.attributes@,
            filter,
            false,
            ind,
            nst(t2, nst(t1, nst(h, st0))),
            true,
        );
        proof {
            lemma_out_assoc(out0, h + t1 + t2, t3);
            lemma_line_start_concat(out0 + (h + t1 + t2), t3);
        }
        fmt_methods_pass(fmt, &self.methods, filter, true);
        proof {
            let t4 = methods_pass(
                self.methods@,
                filter,
                ind,
                nst(t3, nst(t2, nst(t1, nst(h, st0)))),
                true,
            );
            lemma_out_assoc(out0, h + t1 + t2 + t3, t4);
            assert(class_section_text(*self, filter, show, hdr@, with_dtor, scs, ind, st0) == h
                + t1 + t2 + t3 + t4);
        }
    }

    /// Writes the body of the class declaration: its three visibility
    /// sections.
    #[verifier::rlimit(80)]
    #[verifier::spinoff_prover]
    fn fmt_class_body(&self, fmt: &mut Formatter)
        requires
            old(fmt).spaces + INDENT_STEP * (2 + ctors_size(self.constructors@) + dtor_size(
                self.destructor,
            ) + methods_size(self.methods@)) <= usize::MAX,
            line_start(old(fmt).out@),
        ensures
            final(fmt).out@ == old(fmt).out@ + class_body_text(
                *self,
                old(fmt).scopes.deep_view(),
                old(fmt).spaces as nat,
            ),
            final(fmt).spaces == old(fmt).spaces,
            final(fmt).scopes == old(fmt).scopes,
    {
        let ghost ind = fmt.spaces as nat;
        let ghost out0 = fmt.out@;
        let ghost scs = fmt.scopes.deep_view();
        let show_pub = self.destructor.is_some() || any_attr_exec(
            &self.attributes,
            Some(Visibility::Public),
        ) || any_method_exec(&self.methods, Some(Visibility::Public)) || any_ctor_exec(
            &self.constructors,
            Some(Visibility::Public),
        );
        self.fmt_class_section(fmt, Some(Visibility::Public), show_pub, "\npublic:\n", true);
        let ghost p1 = class_section_text(
            *self,
            Some(Visibility::Public),
            shows_public(*self),
            "\npublic:\n"@,
            true,
            scs,
            ind,
            true,
        );
        proof {
            lemma_line_start_concat(out0, p1);
        }
        let show_prot = any_attr_exec(&self.attributes, Some(Visibility::Protected))
            || any_ctor_exec(&self.constructors, Some(Visibility::Protected));
        self.fmt_class_section(
            fmt,
            Some(Visibility::Protected),
            show_prot,
            "\nprotected:\n",
            false,
        );
        let ghost p2 = class_section_text(
            *self,
            Some(Visibility::Protected),
            shows_protected(*self),
            "\nprotected:\n"@,
            false,
            scs,
            ind,
            nst(p1, true),
        );
        proof {
            lemma_out_assoc(out0, p1, p2);
            lemma_line_start_concat(out0 + p1, p2);
        }
        let show_priv = any_attr_exec(&self.attributes, Some(Visibility::Private))
            || any_ctor_exec(&self.constructors, Some(Visibility::Private));
        self.fmt_class_section(fmt, Some(Visibility::Private), show_priv, "\nprivate:\n", false);
        proof {
            let p3 = class_section_text(
                *self,
                Some(Visibility::Private),
                shows_private(*self),
                "\nprivate:\n"@,
                false,
                scs,
                ind,
                nst(p2, nst(p1, true)),
            );
            lemma_out_assoc(out0, p1 + p2, p3);
            assert(class_body_text(*self, scs, ind) == p1 + p2 + p3);
        }
    }

    /// Writes what the class emits inside its own scope: the declaration or
    /// the out-of-class definitions.
    #[verifier::rlimit(80)]
    #[verifier::spinoff_prover]
    pub fn do_fmt_class_scope(&self, fmt: &mut Formatter, decl_only: bool)
        requires
            old(fmt).spaces + INDENT_STEP * class_size(*self) <= usize::MAX,
        ensures
            final(fmt).out@ == old(fmt).out@ + class_scope_text(
                *self,
                old(fmt).scopes.deep_view(),
                old(fmt).spaces as nat,
                line_start(old(fmt).out@),
                decl_only,
            ),
            final(fmt).spaces == old(fmt).spaces,
            final(fmt).scopes == old(fmt).scopes,
    {
        let ghost ind = fmt.spaces as nat;
        let ghost st0 = line_start(fmt.out@);
        let ghost out0 = fmt.out@;
        let ghost scs = fmt.scopes.deep_view();
        if !decl_only {
            let ghost df = opt_doc_flat(self.doc);
            let ghost d = written(df, ind, st0);
            let ghost s1 = nst(df, st0);
            let mut docs = String::new();
            push_opt_doc(&self.doc, &mut docs);
            proof {
                assert(docs@ =~= df);
            }
            fmt.write_str(docs.as_str());
            proof {
                lemma_written_nst(df, ind, st0);
                lemma_line_start_concat(out0, d);
                assert(line_start(fmt.out@) == s1);
            }
            fmt_ctors_pass(fmt, &self.constructors, None, false);
            let ghost t1 = ctors_pass(self.constructors@, None, scs, ind, s1, false);
            let ghost s2 = nst(t1, s1);
            proof {
                lemma_out_assoc(out0, d, t1);
                lemma_line_start_concat(out0 + d, t1);
                assert(line_start(fmt.out@) == s2);
            }
            fmt_attrs_pass(fmt, &self.attributes, None, true, false);
            let ghost t2 = attrs_pass(self.attributes@, None, true, ind, s2, false);
            let ghost s3 = nst(t2, s2);
            proof {
                lemma_out_assoc(out0, d + t1, t2);
                lemma_line_start_concat(out0 + (d + t1), t2);
                assert(line_start(fmt.out@) == s3);
            }
            fmt_methods_pass(fmt, &self.methods, None, false);
            proof {
                let t3 = methods_pass(self.methods@, None, ind, s3, false);
                lemma_out_assoc(out0, d + t1 + t2, t3);
                assert(class_defs_text(*self, scs, ind, st0) == d + t1 + t2 + t3);
            }
            return ;
        }
        let mut head = String::new();
        push_opt_doc(&self.doc, &mut head);
        head.append("class ");
        head.append(self.name.as_str());
        match &self.base {
            Some(b) => {
                head.append(" : ");
                let v = b.0.to_string();
                head.append(v.as_str());
                head.append(" ");
                head.append(b.1.as_str());
            },
            None => {},
        }
        proof {
            assert(head@ =~= class_head_flat(*self));
        }
        let empty_class = self.destructor.is_none() && self.constructors.len() == 0
            && self.methods.len() == 0 && self.attributes.len() == 0;
        if empty_class {
            head.append(" { };\n");
            proof {
                assert(head@ =~= class_head_flat(*self) + " { };\n"@);
            }
            fmt.write_str(head.as_str());
            return ;
        }
        let ghost h = written(class_head_flat(*self), ind, st0);
        let ghost st1 = nst(class_head_flat(*self), st0);
        let ghost b = written(brace_open(st1), ind, st1);
        fmt.write_str(head.as_str());
        proof {
            lemma_written_nst(class_head_flat(*self), ind, st0);
            lemma_line_start_concat(out0, h);
        }
        fmt.block_open();
        proof {
            lemma_out_assoc(out0, h, b);
        }
        self.fmt_class_body(fmt);
        let ghost t = class_body_text(*self, scs, (ind + INDENT_STEP) as nat);
        proof {
            lemma_out_assoc(out0, h + b, t);
            lemma_line_start_concat(out0 + (h + b), t);
        }
        fmt.block_close();
        let ghost c = written("}\n"@, ind, nst(t, true));
        proof {
            lemma_out_assoc(out0, h + b + t, c);
        }
        fmt.write_str(";\n");
        proof {
            let sc = written(";\n"@, ind, true);
            lemma_out_assoc(out0, h + b + t + c, sc);
            assert(class_decl_text(*self, scs, ind, st0) == h + b + t + c + sc);
        }
    }

    /// Writes the class through the formatter, inside its own scope.
    pub fn do_fmt(&self, fmt: &mut Formatter, decl_only: bool)
        requires
            old(fmt).spaces + INDENT_STEP * class_size(*self) <= usize::MAX,
        ensures
            final(fmt).out@ == old(fmt).out@ + class_text(
                *self,
                old(fmt).scopes.deep_view(),
                old(fmt).spaces as nat,
                line_start(old(fmt).out@),
                decl_only,
            ),
            final(fmt).spaces == old(fmt).spaces,
            final(fmt).scopes.deep_view() == old(fmt).scopes.deep_view(),
    {
        fmt.scope_enter(self.name.as_str());
        self.do_fmt_class_scope(fmt, decl_only);
        fmt.scope_exit();
        proof {
            assert(final(fmt).scopes.deep_view() =~~= old(fmt).scopes.deep_view());
        }
    }

    /// Writes the out-of-class definitions of the class.
    pub fn fmt(&self, fmt: &mut Formatter)
        requires
            old(fmt).spaces + INDENT_STEP * class_size(*self) <= usize::MAX,
        ensures
            final(fmt).out@ == old(fmt).out@ + class_text(
                *self,
                old(fmt).scopes.deep_view(),
                old(fmt).spaces as nat,
                line_start(old(fmt).out@),
                false,
            ),
            final(fmt).spaces == old(fmt).spaces,
            final(fmt).scopes.deep_view() == old(fmt).scopes.deep_view(),
    {
        self.do_fmt(fmt, false)
    }

    /// Writes the declaration of the class.
    pub fn fmt_decl(&self, fmt: &mut Formatter)
        requires
            old(fmt).spaces + INDENT_STEP * class_size(*self) <= usize::MAX,
        ensures
            final(fmt).out@ == old(fmt).out@ + class_text(
                *self,
                old(fmt).scopes.deep_view(),
                old(fmt).spaces as nat,
                line_start(old(fmt).out@),
                true,
            ),
            final(fmt).spaces == old(fmt).spaces,
            final(fmt).scopes.deep_view() == old(fmt).scopes.deep_view(),
    {
        self.do_fmt(fmt, true)
    }

    /// Writes the out-of-class definitions of the class.
    pub fn fmt_def(&self, fmt: &mut Formatter)
        requires
            old(fmt).spaces + INDENT_STEP * class_size(*self) <= usize::MAX,
        ensures
            final(fmt).out@ == old(fmt).out@ + class_text(
                *self,
                old(fmt).scopes.deep_view(),
                old(fmt).spaces as nat,
                line_start(old(fmt).out@),
                false,
            ),
            final(fmt).spaces == old(fmt).spaces,
            final(fmt).scopes.deep_view() == old(fmt).scopes.deep_view(),
    {
        self.do_fmt(fmt, false)
    }
}

/// Checks whether any constructor of the list falls in the given pass.
fn any_ctor_exec(cs: &Vec<Constructor>, filter: Option<Visibility>) -> (r: bool)
    ensures
        r == any_ctor(cs@, filter),
{
    let mut i: usize = 0;
    while i < cs.len()
        invariant
            i <= cs@.len(),
            forall|j: int| 0 <= j < i ==> !vis_selects(filter, #[trigger] cs@[j].visibility),
        decreases cs@.len() - i,
    {
        if vis_selects_exec(filter, cs[i].visibility) {
            return true;
        }
        i += 1;
    }
    false
}

/// Checks whether any attribute of the list falls in the given pass.
fn any_attr_exec(ats: &Vec<Attribute>, filter: Option<Visibility>) -> (r: bool)
    ensures
        r == any_attr(ats@, filter),
{
    let mut i: usize = 0;
    while i < ats.len()
        invariant
            i <= ats@.len(),
            forall|j: int| 0 <= j < i ==> !vis_selects(filter, #[trigger] ats@[j].visibility),
        decreases ats@.len() - i,
    {
        if vis_selects_exec(filter, ats[i].visibility) {
            return true;
        }
        i += 1;
    }
    false
}

/// Checks whether any method of the list falls in the given pass.
fn any_method_exec(ms: &Vec<Method>, filter: Option<Visibility>) -> (r: bool)
    ensures
        r == any_method(ms@, filter),
{
    let mut i: usize = 0;
    while i < ms.len()
        invariant
            i <= ms@.len(),
            forall|j: int| 0 <= j < i ==> !vis_selects(filter, #[trigger] ms@[j].visibility),
        decreases ms@.len() - i,
    {
        if vis_selects_exec(filter, ms[i].visibility) {
            return true;
        }
        i += 1;
    }
    false
}

} // verus!
