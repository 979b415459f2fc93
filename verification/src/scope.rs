//! Scopes of the generated code: the top level of a file, holding comments,
//! header references, type definitions, functions, classes and conditional
//! compilation regions.

use vstd::prelude::*;

use crate::block::bitems_size;
use crate::class::Class;
use crate::class::class_size;
use crate::class::class_text;
use crate::comment::Comment;
use crate::comment::comment_flat;
use crate::doc::Doc;
use crate::doc::add_text_entries;
use crate::doc::doc_add_text;
use crate::doc::opt_doc_flat;
use crate::doc::opt_doc_lines;
use crate::doc::push_opt_doc;
use crate::enums::Enum;
use crate::enums::enum_text;
use crate::formatter::Formatter;
use crate::formatter::INDENT_STEP;
use crate::formatter::lemma_line_start_concat;
use crate::formatter::lemma_out_assoc;
use crate::formatter::lemma_written_nst;
use crate::formatter::line_start;
use crate::formatter::nst;
use crate::formatter::written;
use crate::function::Function;
use crate::function::function_text;
use crate::header::Include;
use crate::header::include_flat;
use crate::macros::Macro;
use crate::macros::macro_text;
use crate::structs::Struct;
use crate::structs::struct_text;
use crate::types::Type;
use crate::union::Union;
use crate::union::union_text;
use crate::variable::Variable;
use crate::variable::var_flat;

verus! {

/// One item of a scope.
#[derive(Debug)]
pub enum Item {
    /// a comment.
    Comment(Comment),
    /// an enum definition.
    Enum(Enum),
    /// a conditional compilation region.
    IfDef(IfDef),
    /// a header reference.
    Include(Include),
    /// a preprocessor macro definition.
    Macro(Macro),
    /// a struct definition.
    Struct(Struct),
    /// a union definition.
    Union(Union),
    /// a function.
    Function(Function),
    /// a class.
    Class(Class),
    /// a variable.
    Variable(Variable),
    /// an additional empty line.
    NewLine,
}

/// The scope of the generated code: an ordered sequence of items with an
/// optional header documentation block.
#[derive(Debug)]
pub struct Scope {
    /// The header documentation of the scope.
    pub doc: Option<Doc>,
    /// The items of the scope, rendered in insertion order.
    pub items: Vec<Item>,
    /// The output file name the scope is meant for, if any.
    pub file: Option<String>,
}

/// A conditional compilation region holding two nested scopes.
#[derive(Debug)]
pub struct IfDef {
    /// The symbol the region is conditional on.
    pub sym: String,
    /// The scope emitted when the symbol is defined.
    pub then_part: Scope,
    /// Whether the region is a header guard, defining its own symbol.
    pub is_guard: bool,
    /// The scope emitted otherwise, if any.
    pub other_part: Option<Scope>,
}

/// A bound on the block nesting one scope item opens.
pub open spec fn scope_item_size(it: Item) -> nat
    decreases it,
{
    match it {
        Item::Class(c) => class_size(c),
        Item::Function(f) => 2 + bitems_size(f.body.items@),
        Item::Struct(_) => 2,
        Item::Union(_) => 2,
        Item::Enum(_) => 2,
        Item::Macro(_) => 2,
        Item::IfDef(d) => 1 + scope_size(d.then_part) + (match d.other_part {
            Some(o) => scope_size(o),
            None => 0,
        }),
        _ => 0,
    }
}

/// The combined nesting bound of a sequence of scope items.
pub open spec fn scope_items_size(items: Seq<Item>) -> nat
    decreases items,
{
    if items.len() == 0 {
        0
    } else {
        scope_item_size(items[0]) + scope_items_size(items.subrange(1, items.len() as int))
    }
}

/// The nesting bound of a whole scope.
pub open spec fn scope_size(s: Scope) -> nat
    decreases s,
{
    scope_items_size(s.items@)
}

pub proof fn lemma_scope_items_size_elem(items: Seq<Item>, i: int)
    requires
        0 <= i < items.len(),
    ensures
        scope_item_size(items[i]) <= scope_items_size(items),
    decreases items.len(),
{
    if i > 0 {
        lemma_scope_items_size_elem(items.subrange(1, items.len() as int), i - 1);
    }
}

/// The rendered text of one scope item at indentation `ind` with line-start
/// state `st`, inside the given scope-name stack.
pub open spec fn scope_item_text(it: Item, scopes: Seq<Seq<char>>, ind: nat, st: bool) -> Seq<
    char,
>
    decreases it,
{
    match it {
        Item::Comment(c) => written(comment_flat(c, ind), ind, st),
        Item::Include(i) => written(include_flat(i), ind, st),
        Item::Struct(s) => struct_text(s, ind, st),
        Item::Macro(m) => macro_text(m, ind, st),
        Item::Enum(e) => enum_text(e, ind, st),
        Item::Variable(v) => written(var_flat(v), ind, st),
        Item::IfDef(d) => ifdef_text(d, scopes, ind, st),
        Item::Union(u) => union_text(u, ind, st),
        Item::Function(f) => function_text(f, ind, st, false),
        Item::Class(c) => class_text(c, scopes, ind, st, false),
        Item::NewLine => written("\n"@, ind, st),
    }
}

/// The rendered text of a sequence of scope items, threading the line-start
/// state from one item to the next.
pub open spec fn scope_items_text(items: Seq<Item>, scopes: Seq<Seq<char>>, ind: nat, st: bool)
    -> Seq<char>
    decreases items,
{
    if items.len() == 0 {
        Seq::empty()
    } else {
        let first = scope_item_text(items[0], scopes, ind, st);
        first + scope_items_text(
            items.subrange(1, items.len() as int),
            scopes,
            ind,
            nst(first, st),
        )
    }
}

/// The rendered text of a scope: its header documentation, then its items
/// in insertion order.
pub open spec fn scope_text(s: Scope, scopes: Seq<Seq<char>>, ind: nat, st: bool) -> Seq<char>
    decreases s,
{
    written(opt_doc_flat(s.doc), ind, st) + scope_items_text(
        s.items@,
        scopes,
        ind,
        nst(opt_doc_flat(s.doc), st),
    )
}

/// The opening lines of a conditional compilation region: a header guard
/// defines its own symbol.
pub open spec fn ifdef_head_flat(d: IfDef) -> Seq<char> {
    if d.is_guard {
        "#ifndef "@ + d.sym@ + "\n"@ + "#define "@ + d.sym@ + " 1\n"@
    } else {
        "#ifdef "@ + d.sym@ + "\n"@
    }
}

/// The else branch of a conditional compilation region, when present.
pub open spec fn ifdef_else_part(d: IfDef, scopes: Seq<Seq<char>>, ind: nat, st: bool) -> Seq<
    char,
>
    decreases d, 0nat,
{
    match d.other_part {
        Some(o) => written("#else // !"@ + d.sym@ + "\n"@, ind, st) + scope_text(
            o,
            scopes,
            ind,
            nst("#else // !"@ + d.sym@ + "\n"@, st),
        ),
        None => Seq::<char>::empty(),
    }
}

/// The rendered text of a conditional compilation region.
pub open spec fn ifdef_text(d: IfDef, scopes: Seq<Seq<char>>, ind: nat, st: bool) -> Seq<char>
    decreases d, 1nat,
{
    let lead = written("\n\n"@, ind, st);
    let h = written(ifdef_head_flat(d), ind, true);
    let t = scope_text(d.then_part, scopes, ind, nst(ifdef_head_flat(d), true));
    let s2 = nst(t, nst(ifdef_head_flat(d), true));
    let e = ifdef_else_part(d, scopes, ind, s2);
    let s3 = nst(e, s2);
    lead + h + t + e + written("\n#endif // "@ + d.sym@ + "\n"@, ind, s3)
}

impl IfDef {
    /// Creates a new conditional compilation region on the given symbol.
    pub fn new(sym: &str) -> (r: Self)
        ensures
            r.sym@ == sym@,
            r.then_part.doc is None,
            r.then_part.items@ == Seq::<Item>::empty(),
            !r.is_guard,
            r.other_part is None,
    {
        IfDef { sym: sym.to_owned(), then_part: Scope::new(), is_guard: false, other_part: None }
    }

    /// A mutable reference to the scope emitted when the symbol is defined.
    pub fn then_scope(&mut self) -> (r: &mut Scope)
        ensures
            *r == old(self).then_part,
            *final(self) == (IfDef { then_part: *final(r), ..*old(self) }),
    {
        &mut self.then_part
    }

    /// A mutable reference meant for the other branch; despite its name it
    /// hands out the same scope as the then branch.
    pub fn other_scope(&mut self) -> (r: &mut Scope)
        ensures
            *r == old(self).then_part,
            *final(self) == (IfDef { then_part: *final(r), ..*old(self) }),
    {
        &mut self.then_part
    }

    /// Turns the region into a header guard.
    pub fn guard(&mut self) -> (r: &mut Self)
        ensures
            *r == (IfDef { is_guard: true, ..*old(self) }),
            *final(self) == *final(r),
    {
        self.is_guard = true;
        self
    }

    /// Writes the conditional compilation region through the formatter.
    #[verifier::rlimit(80)]
    #[verifier::spinoff_prover]
    pub fn fmt(&self, fmt: &mut Formatter)
        requires
            old(fmt).spaces + INDENT_STEP * (1 + scope_size(self.then_part) + (match self
                .other_part {
                Some(o) => scope_size(o),
                None => 0,
            })) <= usize::MAX,
        ensures
            final(fmt).out@ == old(fmt).out@ + ifdef_text(
                *self,
                old(fmt).scopes.deep_view(),
                old(fmt).spaces as nat,
                line_start(old(fmt).out@),
            ),
            final(fmt).spaces == old(fmt).spaces,
            final(fmt).scopes.deep_view() == old(fmt).scopes.deep_view(),
        decreases *self, 0nat,
    {
        let ghost ind = fmt.spaces as nat;
        let ghost st0 = line_start(fmt.out@);
        let ghost out0 = fmt.out@;
        let ghost scs = fmt.scopes.deep_view();
        let ghost lead = written("\n\n"@, ind, st0);
        fmt.write_str("\n\n");
        proof {
            reveal_strlit("\n\n");
            lemma_written_nst("\n\n"@, ind, st0);
            lemma_line_start_concat(out0, lead);
            assert(line_start(fmt.out@));
        }
        let mut head = String::new();
        if self.is_guard {
            head.append("#ifndef ");
            head.append(self.sym.as_str());
            head.append("\n");
            head.append("#define ");
            head.append(self.sym.as_str());
            head.append(" 1\n");
        } else {
            head.append("#ifdef ");
            head.append(self.sym.as_str());
            head.append("\n");
        }
        proof {
            assert(head@ =~= ifdef_head_flat(*self));
        }
        let ghost h = written(ifdef_head_flat(*self), ind, true);
        fmt.write_str(head.as_str());
        proof {
            lemma_out_assoc(out0, lead, h);
            lemma_written_nst(ifdef_head_flat(*self), ind, true);
            lemma_line_start_concat(out0 + lead, h);
        }
        self.then_part.fmt(fmt);
        let ghost t = scope_text(self.then_part, scs, ind, nst(ifdef_head_flat(*self), true));
        proof {
            lemma_out_assoc(out0, lead + h, t);
            lemma_line_start_concat(out0 + (lead + h), t);
        }
        let ghost s2 = nst(t, nst(ifdef_head_flat(*self), true));
        let ghost e = ifdef_else_part(*self, scs, ind, s2);
        match &self.other_part {
            Some(o) => {
                let mut el = String::new();
                el.append("#else // !");
                el.append(self.sym.as_str());
                el.append("\n");
                proof {
                    assert(el@ =~= "#else // !"@ + self.sym@ + "\n"@);
                }
                let ghost ew = written(el@, ind, s2);
                let ghost prev = fmt.out@;
                fmt.write_str(el.as_str());
                proof {
                    lemma_written_nst(el@, ind, s2);
                    lemma_line_start_concat(prev, ew);
                }
                o.fmt(fmt);
                proof {
                    let ot = scope_text(*o, scs, ind, nst(el@, s2));
                    lemma_out_assoc(prev, ew, ot);
                    lemma_line_start_concat(prev, ew + ot);
                    lemma_out_assoc(out0, lead + h + t, ew + ot);
                }
            },
            None => {
                proof {
                    assert(fmt.out@ + e =~= fmt.out@);
                    assert((lead + h + t) + e =~= lead + h + t);
                }
            },
        }
        let mut tail = String::new();
        tail.append("\n#endif // ");
        tail.append(self.sym.as_str());
        tail.append("\n");
        proof {
            assert(tail@ =~= "\n#endif // "@ + self.sym@ + "\n"@);
            lemma_line_start_concat(out0, lead + h + t + e);
            assert(out0 + ((lead + h + t) + e) =~= (out0 + (lead + h + t)) + e);
        }
        fmt.write_str(tail.as_str());
        proof {
            let ghost tw = written("\n#endif // "@ + self.sym@ + "\n"@, ind, nst(e, s2));
            lemma_out_assoc(out0, lead + h + t + e, tw);
            assert(ifdef_text(*self, scs, ind, st0) == lead + h + t + e + tw);
        }
    }
}

/// Writes one scope item through the formatter.
#[verifier::rlimit(60)]
#[verifier::spinoff_prover]
fn fmt_scope_item(fmt: &mut Formatter, it: &Item, g: Ghost<Item>)
    requires
        g@ == *it,
        old(fmt).spaces + INDENT_STEP * scope_item_size(g@) <= usize::MAX,
        old(fmt).spaces + INDENT_STEP <= usize::MAX,
    ensures
        final(fmt).out@ == old(fmt).out@ + scope_item_text(
            g@,
            old(fmt).scopes.deep_view(),
            old(fmt).spaces as nat,
            line_start(old(fmt).out@),
        ),
        final(fmt).spaces == old(fmt).spaces,
        final(fmt).scopes.deep_view() == old(fmt).scopes.deep_view(),
    decreases g@, 0nat,
{
    match it {
        Item::Comment(c) => {
            c.fmt(fmt);
        },
        Item::Include(i) => {
            i.fmt(fmt);
        },
        Item::Struct(s) => {
            s.fmt(fmt);
        },
        Item::Macro(m) => {
            m.fmt(fmt);
        },
        Item::Enum(e) => {
            e.fmt(fmt);
        },
        Item::Variable(v) => {
            v.fmt(fmt);
        },
        Item::Union(u) => {
            u.fmt(fmt);
        },
        Item::Function(f) => {
            f.fmt(fmt);
        },
        Item::Class(c) => {
            c.fmt(fmt);
        },
        Item::IfDef(d) => {
            proof {
                assert(decreases_to!(g@ => *d)) by {
                    assert(*d == g@->IfDef_0);
                    assert(decreases_to!(g@ => g@->IfDef_0));
                }
            }
            d.fmt(fmt);
        },
        Item::NewLine => {
            fmt.write_str("\n");
        },
    }
}

impl Scope {
    /// Creates a new, empty scope.
    pub fn new() -> (r: Self)
        ensures
            r.doc is None,
            r.items@ == Seq::<Item>::empty(),
            r.file is None,
    {
        Scope { doc: None, items: Vec::new(), file: None }
    }

    /// Adds a string to the header documentation of the scope.
    pub fn push_doc_str(&mut self, doc: &str) -> (r: &mut Self)
        ensures
            opt_doc_lines(r.doc) == opt_doc_lines(old(self).doc) + add_text_entries(doc@),
            *r == (Scope { doc: r.doc, ..*old(self) }),
            *final(self) == *final(r),
    {
        doc_add_text(&mut self.doc, doc);
        self
    }

    /// Adds an empty line to the scope.
    pub fn push_empty_line(&mut self) -> (r: &mut Self)
        ensures
            r.items@ == old(self).items@.push(Item::NewLine),
            *final(self) == *final(r),
    {
        self.items.push(Item::NewLine);
        self
    }

    /// Replaces the header documentation of the scope.
    pub fn doc(&mut self, doc: Doc) -> (r: &mut Self)
        ensures
            *r == (Scope { doc: Some(doc), ..*old(self) }),
            *final(self) == *final(r),
    {
        self.doc = Some(doc);
        self
    }

    /// Sets the output file name the scope is meant for.
    pub fn set_filename(&mut self, file: &str) -> (r: &mut Self)
        ensures
            r.file matches Some(f) && f@ == file@,
            *r == (Scope { file: r.file, ..*old(self) }),
            *final(self) == *final(r),
    {
        self.file = Some(file.to_owned());
        self
    }

    /// Creates a new comment in the scope and hands it out for further
    /// construction.
    pub fn new_comment(&mut self, comment: &str) -> (r: &mut Comment)
        ensures
            r.comment@ == comment@,
            !r.is_heading,
            final(self).items@ == old(self).items@.push(Item::Comment(*final(r))),
            *final(self) == (Scope { items: final(self).items, ..*old(self) }),
    {
        self.items.push(Item::Comment(Comment::with_str(comment)));
        let n = self.items.len();
        match &mut self.items[n - 1] {
            Item::Comment(v) => v,
            _ => vstd::pervasive::unreached(),
        }
    }

    /// Pushes a comment onto the scope.
    pub fn push_comment(&mut self, comment: Comment) -> (r: &mut Self)
        ensures
            r.items@ == old(self).items@.push(Item::Comment(comment)),
            *final(self) == *final(r),
    {
        self.items.push(Item::Comment(comment));
        self
    }

    /// Creates a new header reference in the scope and hands it out for
    /// further construction.
    pub fn new_include(&mut self, inc: &str, system: bool) -> (r: &mut Include)
        ensures
            r.path@ == inc@,
            r.is_system == system,
            r.doc is None,
            final(self).items@ == old(self).items@.push(Item::Include(*final(r))),
            *final(self) == (Scope { items: final(self).items, ..*old(self) }),
    {
        if system {
            self.items.push(Item::Include(Include::new_system(inc)));
        } else {
            self.items.push(Item::Include(Include::new(inc)));
        }
        let n = self.items.len();
        match &mut self.items[n - 1] {
            Item::Include(v) => v,
            _ => vstd::pervasive::unreached(),
        }
    }

    /// Pushes a header reference onto the scope.
    pub fn push_include(&mut self, inc: Include) -> (r: &mut Self)
        ensures
            r.items@ == old(self).items@.push(Item::Include(inc)),
            *final(self) == *final(r),
    {
        self.items.push(Item::Include(inc));
        self
    }

    /// Creates a new enum in the scope and hands it out for further
    /// construction.
    pub fn new_enum(&mut self, name: &str) -> (r: &mut Enum)
        ensures
            r.name@ == name@,
            r.variants@.len() == 0,
            r.doc is None,
            final(self).items@ == old(self).items@.push(Item::Enum(*final(r))),
            *final(self) == (Scope { items: final(self).items, ..*old(self) }),
    {
        self.items.push(Item::Enum(Enum::new(name)));
        let n = self.items.len();
        match &mut self.items[n - 1] {
            Item::Enum(v) => v,
            _ => vstd::pervasive::unreached(),
        }
    }

    /// Pushes an enum onto the scope.
    pub fn push_enum(&mut self, def: Enum) -> (r: &mut Self)
        ensures
            r.items@ == old(self).items@.push(Item::Enum(def)),
            *final(self) == *final(r),
    {
        self.items.push(Item::Enum(def));
        self
    }

    /// Creates a new struct in the scope and hands it out for further
    /// construction.
    pub fn new_struct(&mut self, name: &str) -> (r: &mut Struct)
        ensures
            r.name@ == name@,
            r.fields@.len() == 0,
            r.doc is None,
            final(self).items@ == old(self).items@.push(Item::Struct(*final(r))),
            *final(self) == (Scope { items: final(self).items, ..*old(self) }),
    {
        self.items.push(Item::Struct(Struct::new(name)));
        let n = self.items.len();
        match &mut self.items[n - 1] {
            Item::Struct(v) => v,
            _ => vstd::pervasive::unreached(),
        }
    }

    /// Pushes a struct onto the scope.
    pub fn push_struct(&mut self, inc: Struct) -> (r: &mut Self)
        ensures
            r.items@ == old(self).items@.push(Item::Struct(inc)),
            *final(self) == *final(r),
    {
        self.items.push(Item::Struct(inc));
        self
    }

    /// Creates a new class in the scope and hands it out for further
    /// construction.
    pub fn new_class(&mut self, name: &str) -> (r: &mut Class)
        ensures
            r.name@ == name@,
            r.constructors@.len() == 0,
            r.destructor is None,
            r.methods@.len() == 0,
            r.attributes@.len() == 0,
            r.doc is None,
            r.base is None,
            final(self).items@ == old(self).items@.push(Item::Class(*final(r))),
            *final(self) == (Scope { items: final(self).items, ..*old(self) }),
    {
        self.items.push(Item::Class(Class::new(name)));
        let n = self.items.len();
        match &mut self.items[n - 1] {
            Item::Class(v) => v,
            _ => vstd::pervasive::unreached(),
        }
    }

    /// Pushes a class onto the scope.
    pub fn push_class(&mut self, c: Class) -> (r: &mut Self)
        ensures
            r.items@ == old(self).items@.push(Item::Class(c)),
            *final(self) == *final(r),
    {
        self.items.push(Item::Class(c));
        self
    }

    /// Creates a new union in the scope and hands it out for further
    /// construction.
    pub fn new_union(&mut self, name: &str) -> (r: &mut Union)
        ensures
            r.name@ == name@,
            r.fields@.len() == 0,
            r.doc is None,
            final(self).items@ == old(self).items@.push(Item::Union(*final(r))),
            *final(self) == (Scope { items: final(self).items, ..*old(self) }),
    {
        self.items.push(Item::Union(Union::new(name)));
        let n = self.items.len();
        match &mut self.items[n - 1] {
            Item::Union(v) => v,
            _ => vstd::pervasive::unreached(),
        }
    }

    /// Pushes a union onto the scope.
    pub fn push_union(&mut self, c: Union) -> (r: &mut Self)
        ensures
            r.items@ == old(self).items@.push(Item::Union(c)),
            *final(self) == *final(r),
    {
        self.items.push(Item::Union(c));
        self
    }

    /// Creates a new function in the scope and hands it out for further
    /// construction.
    pub fn new_function(&mut self, name: &str, ty: Type) -> (r: &mut Function)
        ensures
            r.name@ == name@,
            r.ret == ty,
            r.params@.len() == 0,
            r.body.items@.len() == 0,
            final(self).items@ == old(self).items@.push(Item::Function(*final(r))),
            *final(self) == (Scope { items: final(self).items, ..*old(self) }),
    {
        self.items.push(Item::Function(Function::new(name, ty)));
        let n = self.items.len();
        match &mut self.items[n - 1] {
            Item::Function(v) => v,
            _ => vstd::pervasive::unreached(),
        }
    }

    /// Pushes a function onto the scope.
    pub fn push_function(&mut self, c: Function) -> (r: &mut Self)
        ensures
            r.items@ == old(self).items@.push(Item::Function(c)),
            *final(self) == *final(r),
    {
        self.items.push(Item::Function(c));
        self
    }

    /// Creates a new macro in the scope and hands it out for further
    /// construction.
    pub fn new_macro(&mut self, name: &str) -> (r: &mut Macro)
        ensures
            r.name@ == name@,
            r.args@.len() == 0,
            r.value is None,
            r.doc is None,
            final(self).items@ == old(self).items@.push(Item::Macro(*final(r))),
            *final(self) == (Scope { items: final(self).items, ..*old(self) }),
    {
        self.items.push(Item::Macro(Macro::new(name)));
        let n = self.items.len();
        match &mut self.items[n - 1] {
            Item::Macro(v) => v,
            _ => vstd::pervasive::unreached(),
        }
    }

    /// Pushes a macro onto the scope.
    pub fn push_macro(&mut self, mac: Macro) -> (r: &mut Self)
        ensures
            r.items@ == old(self).items@.push(Item::Macro(mac)),
            *final(self) == *final(r),
    {
        self.items.push(Item::Macro(mac));
        self
    }

    /// Creates a new variable in the scope and hands it out for further
    /// construction.
    pub fn new_variable(&mut self, name: &str, ty: Type) -> (r: &mut Variable)
        ensures
            r.name@ == name@,
            r.ty == ty,
            r.value is None,
            !r.is_static,
            !r.is_extern,
            r.doc is None,
            final(self).items@ == old(self).items@.push(Item::Variable(*final(r))),
            *final(self) == (Scope { items: final(self).items, ..*old(self) }),
    {
        self.items.push(Item::Variable(Variable::new(name, ty)));
        let n = self.items.len();
        match &mut self.items[n - 1] {
            Item::Variable(v) => v,
            _ => vstd::pervasive::unreached(),
        }
    }

    /// Pushes a variable onto the scope.
    pub fn push_variable(&mut self, mac: Variable) -> (r: &mut Self)
        ensures
            r.items@ == old(self).items@.push(Item::Variable(mac)),
            *final(self) == *final(r),
    {
        self.items.push(Item::Variable(mac));
        self
    }

    /// Creates a new conditional compilation region in the scope and hands
    /// it out for further construction.
    pub fn new_ifdef(&mut self, sym: &str) -> (r: &mut IfDef)
        ensures
            r.sym@ == sym@,
            !r.is_guard,
            r.other_part is None,
            final(self).items@ == old(self).items@.push(Item::IfDef(*final(r))),
            *final(self) == (Scope { items: final(self).items, ..*old(self) }),
    {
        self.items.push(Item::IfDef(IfDef::new(sym)));
        let n = self.items.len();
        match &mut self.items[n - 1] {
            Item::IfDef(v) => v,
            _ => vstd::pervasive::unreached(),
        }
    }

    /// Pushes a conditional compilation region onto the scope.
    pub fn push_ifdef(&mut self, ifdef: IfDef) -> (r: &mut Self)
        ensures
            r.items@ == old(self).items@.push(Item::IfDef(ifdef)),
            *final(self) == *final(r),
    {
        self.items.push(Item::IfDef(ifdef));
        self
    }

    /// Writes the scope through the formatter: its header documentation,
    /// then every item in insertion order.  Declarations and definitions
    /// are not separated here: every item writes its full form.
    #[verifier::loop_isolation(false)]
    #[verifier::rlimit(60)]
    pub fn do_fmt(&self, fmt: &mut Formatter, only_decls: bool)
        requires
            old(fmt).spaces + INDENT_STEP * (1 + scope_size(*self)) <= usize::MAX,
        ensures
            final(fmt).out@ == old(fmt).out@ + scope_text(
                *self,
                old(fmt).scopes.deep_view(),
                old(fmt).spaces as nat,
                line_start(old(fmt).out@),
            ),
            final(fmt).spaces == old(fmt).spaces,
            final(fmt).scopes.deep_view() == old(fmt).scopes.deep_view(),
        decreases *self, 0nat,
    {
        let _ = only_decls;
        let ghost ind = fmt.spaces as nat;
        let ghost st0 = line_start(fmt.out@);
        let ghost out0 = fmt.out@;
        let ghost scs = fmt.scopes.deep_view();
        let ghost d = written(opt_doc_flat(self.doc), ind, st0);
        let mut docs = String::new();
        push_opt_doc(&self.doc, &mut docs);
        proof {
            assert(docs@ =~= opt_doc_flat(self.doc));
        }
        fmt.write_str(docs.as_str());
        proof {
            lemma_written_nst(opt_doc_flat(self.doc), ind, st0);
            lemma_line_start_concat(out0, d);
        }
        let ghost itemsv = self.items@;
        let ghost target = fmt.out@ + scope_items_text(
            itemsv,
            scs,
            ind,
            nst(opt_doc_flat(self.doc), st0),
        );
        let mut i: usize = 0;
        proof {
            assert(itemsv.subrange(0, itemsv.len() as int) =~= itemsv);
        }
        while i < self.items.len()
            invariant
                i <= itemsv.len(),
                target == fmt.out@ + scope_items_text(
                    itemsv.subrange(i as int, itemsv.len() as int),
                    scs,
                    ind,
                    line_start(fmt.out@),
                ),
                fmt.spaces == old(fmt).spaces,
                fmt.scopes.deep_view() == scs,
            decreases itemsv.len() - i,
        {
            let ghost rest = itemsv.subrange(i as int, itemsv.len() as int);
            let ghost rest1 = itemsv.subrange(i as int + 1, itemsv.len() as int);
            let ghost stc = line_start(fmt.out@);
            let ghost prev = fmt.out@;
            proof {
                assert(rest.subrange(1, rest.len() as int) =~= rest1);
                assert(rest[0] == itemsv[i as int]);
                lemma_scope_items_size_elem(itemsv, i as int);
                assert(decreases_to!(*self => itemsv[i as int])) by {
                    assert(decreases_to!(*self => self.items));
                    assert(decreases_to!(self.items => itemsv));
                    assert(decreases_to!(itemsv => itemsv[i as int]));
                }
            }
            fmt_scope_item(fmt, &self.items[i], Ghost(itemsv[i as int]));
            proof {
                let ft = scope_item_text(itemsv[i as int], scs, ind, stc);
                lemma_line_start_concat(prev, ft);
                lemma_out_assoc(prev, ft, scope_items_text(rest1, scs, ind, nst(ft, stc)));
            }
            i += 1;
        }
        proof {
            assert(itemsv.subrange(itemsv.len() as int, itemsv.len() as int) =~= Seq::<
                Item,
            >::empty());
            assert(fmt.out@ + scope_items_text(
                Seq::<Item>::empty(),
                scs,
                ind,
                line_start(fmt.out@),
            ) =~= fmt.out@);
            lemma_out_assoc(
                out0,
                d,
                scope_items_text(itemsv, scs, ind, nst(opt_doc_flat(self.doc), st0)),
            );
        }
    }

    /// Writes the scope through the formatter.
    pub fn fmt(&self, fmt: &mut Formatter)
        requires
            old(fmt).spaces + INDENT_STEP * (1 + scope_size(*self)) <= usize::MAX,
        ensures
            final(fmt).out@ == old(fmt).out@ + scope_text(
                *self,
                old(fmt).scopes.deep_view(),
                old(fmt).spaces as nat,
                line_start(old(fmt).out@),
            ),
            final(fmt).spaces == old(fmt).spaces,
            final(fmt).scopes.deep_view() == old(fmt).scopes.deep_view(),
        decreases *self, 1nat,
    {
        self.do_fmt(fmt, false)
    }

    /// Renders the scope as a string, keeping any trailing newline.
    pub fn render(&self) -> (r: String)
        requires
            INDENT_STEP * (1 + scope_size(*self)) <= usize::MAX,
        ensures
            r@ == scope_text(*self, Seq::empty(), 0, true),
    {
        let mut f = Formatter::new();
        self.fmt(&mut f);
        proof {
            assert(f.scopes.deep_view() =~~= Seq::<Seq<char>>::empty());
            assert(Seq::<char>::empty() + scope_text(*self, Seq::empty(), 0, true) =~= scope_text(
                *self,
                Seq::empty(),
                0,
                true,
            ));
        }
        f.output()
    }

    /// Renders the scope as a string, without a trailing newline.
    pub fn to_string(&self) -> (r: String)
        requires
            INDENT_STEP * (1 + scope_size(*self)) <= usize::MAX,
        ensures
            r@ == trim_nl(scope_text(*self, Seq::empty(), 0, true)),
    {
        let mut f = Formatter::new();
        self.fmt(&mut f);
        proof {
            assert(f.scopes.deep_view() =~~= Seq::<Seq<char>>::empty());
            assert(Seq::<char>::empty() + scope_text(*self, Seq::empty(), 0, true) =~= scope_text(
                *self,
                Seq::empty(),
                0,
                true,
            ));
        }
        let mut out = f.output();
        let n = out.as_str().unicode_len();
        if n > 0 {
            let last = out.as_str().get_char(n - 1);
            if last == '\n' {
                pop_last_char(&mut out);
            }
        }
        out
    }
}

/// A text without its trailing newline, when it ends with one.
pub open spec fn trim_nl(s: Seq<char>) -> Seq<char> {
    if s.len() > 0 && s.last() == '\n' {
        s.drop_last()
    } else {
        s
    }
}

/// Relies on String::pop: removes the last character of the string.
#[verifier::external_body]
fn pop_last_char(s: &mut String)
    requires
        old(s)@.len() > 0,
    ensures
        final(s)@ == old(s)@.drop_last(),
{
    let _ = s.pop();
}

impl Default for Scope {
    /// The default scope is empty.
    fn default() -> (r: Self)
        ensures
            r.doc is None,
            r.items@ == Seq::<Item>::empty(),
            r.file is None,
    {
        Scope::new()
    }
}

/// Law: rendering is a function of the tree alone.  The contract of every
/// rendering function fixes the text it appends as a function of the node,
/// the indentation and the line-start state, so rendering the same
/// unchanged tree twice yields byte-identical text.
pub proof fn lemma_render_deterministic(
    s: Scope,
    scopes: Seq<Seq<char>>,
    ind: nat,
    st: bool,
    a: Seq<char>,
    b: Seq<char>,
)
    requires
        a == scope_text(s, scopes, ind, st),
        b == scope_text(s, scopes, ind, st),
    ensures
        a == b,
{
}

} // verus!
