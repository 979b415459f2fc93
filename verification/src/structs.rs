//! Structs of the generated C code: a name with an ordered list of fields.

use vstd::prelude::*;

use crate::doc::Doc;
use crate::doc::add_text_entries;
use crate::doc::doc_add_text;
use crate::doc::opt_doc_flat;
use crate::doc::opt_doc_lines;
use crate::doc::push_opt_doc;
use crate::field::Field;
use crate::field::field_flat;
use crate::formatter::Formatter;
use crate::formatter::INDENT_STEP;
use crate::formatter::brace_open;
use crate::formatter::line_start;
use crate::formatter::nst;
use crate::formatter::written;
use crate::types::Type;
use crate::types::type_text;

verus! {

/// A C struct.
#[derive(Debug)]
pub struct Struct {
    /// The name of the struct.
    pub name: String,
    /// The fields of the struct, in insertion order.
    pub fields: Vec<Field>,
    /// The documentation comment of the struct.
    pub doc: Option<Doc>,
    /// Attribute annotations of the struct.
    pub attributes: Vec<String>,
}

/// The text of a run of fields, each beginning at the start of a line at
/// indentation `ind`.
pub open spec fn fields_text(fs: Seq<Field>, ind: nat) -> Seq<char>
    decreases fs.len(),
{
    if fs.len() == 0 {
        Seq::empty()
    } else {
        fields_text(fs.drop_last(), ind) + written(field_flat(fs.last()), ind, true)
    }
}

/// The closing tail of a struct or union: the attribute placeholder when
/// annotations are present, then `;` on its own line.
pub open spec fn record_tail_flat(has_attributes: bool) -> Seq<char> {
    (if has_attributes {
        "__attribute__() // TODO"@
    } else {
        Seq::<char>::empty()
    }) + ";\n"@
}

/// The rendered text of a struct at indentation `ind` with line-start state
/// `st`: documentation and `struct <name>`, then either a bare `;` for a
/// forward declaration without fields, or a brace-delimited block of fields.
pub open spec fn struct_text(s: Struct, ind: nat, st: bool) -> Seq<char> {
    let head = opt_doc_flat(s.doc) + "struct "@ + s.name@;
    if s.fields@.len() == 0 {
        written(head + ";\n"@, ind, st)
    } else {
        let h = written(head, ind, st);
        let st1 = nst(head, st);
        h + written(brace_open(st1), ind, st1) + fields_text(s.fields@, (ind + INDENT_STEP) as nat)
            + written("}\n"@, ind, true) + written(record_tail_flat(s.attributes@.len() > 0), ind, true)
    }
}

/// The flat text of a struct forward declaration.
pub open spec fn struct_decl_flat(s: Struct) -> Seq<char> {
    "struct "@ + s.name@ + ";   // forward declaration"@
}

impl Struct {
    /// Returns a new struct with the given name and no fields.
    pub fn new(name: &str) -> (r: Self)
        ensures
            r.name@ == name@,
            r.fields@ == Seq::<Field>::empty(),
            r.doc is None,
            r.attributes@ == Seq::<String>::empty(),
    {
        Struct { name: name.to_owned(), fields: Vec::new(), doc: None, attributes: Vec::new() }
    }

    /// Creates a new struct with the given name and the supplied fields.
    /// The fields are not checked for duplicates.
    pub fn with_fields(name: &str, fields: Vec<Field>) -> (r: Self)
        ensures
            r.name@ == name@,
            r.fields == fields,
            r.doc is None,
            r.attributes@ == Seq::<String>::empty(),
    {
        Struct { name: name.to_owned(), fields, doc: None, attributes: Vec::new() }
    }

    /// The corresponding type reference for this struct.
    pub fn to_type(&self) -> (r: Type)
        ensures
            r.unmodified(),
            r.wf(),
            type_text(r) == "struct "@ + self.name@,
    {
        Type::new_struct(self.name.as_str())
    }

    /// Replaces the documentation comment of the struct.
    pub fn doc(&mut self, doc: Doc) -> (r: &mut Self)
        ensures
            r.name == old(self).name,
            r.fields == old(self).fields,
            r.attributes == old(self).attributes,
            r.doc == Some(doc),
            *final(self) == *final(r),
    {
        self.doc = Some(doc);
        self
    }

    /// Adds a string to the documentation comment of the struct.
    pub fn push_doc_str(&mut self, doc: &str) -> (r: &mut Self)
        ensures
            r.name == old(self).name,
            r.fields == old(self).fields,
            r.attributes == old(self).attributes,
            opt_doc_lines(r.doc) == opt_doc_lines(old(self).doc) + add_text_entries(doc@),
            *final(self) == *final(r),
    {
        doc_add_text(&mut self.doc, doc);
        self
    }

    /// Creates a new field of the struct and hands it out for further
    /// construction.  The field is not checked for duplicates.
    pub fn new_field(&mut self, name: &str, ty: Type) -> (r: &mut Field)
        ensures
            r.name@ == name@,
            r.ty == ty,
            r.width is None,
            r.doc is None,
            final(self).name == old(self).name,
            final(self).doc == old(self).doc,
            final(self).attributes == old(self).attributes,
            final(self).fields@ == old(self).fields@.push(*final(r)),
    {
        self.fields.push(Field::new(name, ty));
        let n = self.fields.len();
        &mut self.fields[n - 1]
    }

    /// Pushes a field onto the struct.  The field is not checked for
    /// duplicates.
    pub fn push_field(&mut self, item: Field) -> (r: &mut Self)
        ensures
            r.name == old(self).name,
            r.doc == old(self).doc,
            r.attributes == old(self).attributes,
            r.fields@ == old(self).fields@.push(item),
            *final(self) == *final(r),
    {
        self.fields.push(item);
        self
    }

    /// A reference to the field with the given name, if any.
    pub fn field_by_name(&self, name: &str) -> (r: Option<&Field>)
        ensures
            r matches Some(f) ==> exists|i: int|
                0 <= i < self.fields@.len() && self.fields@[i] == *f && f.name@ == name@,
            r is None ==> forall|i: int|
                0 <= i < self.fields@.len() ==> #[trigger] self.fields@[i].name@ != name@,
    {
        let mut i: usize = 0;
        while i < self.fields.len()
            invariant
                i <= self.fields@.len(),
                forall|j: int| 0 <= j < i ==> #[trigger] self.fields@[j].name@ != name@,
            decreases self.fields@.len() - i,
        {
            if str_eq(self.fields[i].name.as_str(), name) {
                return Some(&self.fields[i]);
            }
            i += 1;
        }
        None
    }

    /// A mutable reference to the field with the given name, if any.
    pub fn field_by_name_mut(&mut self, name: &str) -> (r: Option<&mut Field>)
        ensures
            r is None ==> *final(self) == *old(self),
    {
        let mut i: usize = 0;
        while i < self.fields.len()
            invariant
                i <= self.fields@.len(),
                *self == *old(self),
            decreases self.fields@.len() - i,
        {
            if str_eq(self.fields[i].name.as_str(), name) {
                return Some(&mut self.fields[i]);
            }
            i += 1;
        }
        None
    }

    /// A reference to the field at the given index, if it exists.
    pub fn field_by_idx(&self, idx: usize) -> (r: Option<&Field>)
        ensures
            idx < self.fields@.len() ==> (r matches Some(f) && *f == self.fields@[idx as int]),
            idx >= self.fields@.len() ==> r is None,
    {
        if idx < self.fields.len() {
            Some(&self.fields[idx])
        } else {
            None
        }
    }

    /// A mutable reference to the field at the given index, if it exists.
    pub fn field_by_idx_mut(&mut self, idx: usize) -> (r: Option<&mut Field>)
        ensures
            idx < old(self).fields@.len() ==> (r matches Some(f) && *f == old(
                self,
            ).fields@[idx as int]),
            idx >= old(self).fields@.len() ==> (r is None && *final(self) == *old(self)),
    {
        if idx < self.fields.len() {
            Some(&mut self.fields[idx])
        } else {
            None
        }
    }

    /// Adds an attribute annotation to the struct.
    pub fn push_attribute(&mut self, attr: String) -> (r: &mut Self)
        ensures
            r.name == old(self).name,
            r.doc == old(self).doc,
            r.fields == old(self).fields,
            r.attributes@ == old(self).attributes@.push(attr),
            *final(self) == *final(r),
    {
        self.attributes.push(attr);
        self
    }

    /// Writes a forward declaration for the struct.
    pub fn fmt_decl(&self, fmt: &mut Formatter)
        ensures
            final(fmt).out@ == old(fmt).out@ + written(
                struct_decl_flat(*self),
                old(fmt).spaces as nat,
                line_start(old(fmt).out@),
            ),
            final(fmt).spaces == old(fmt).spaces,
            final(fmt).scopes == old(fmt).scopes,
    {
        let mut s = String::new();
        s.append("struct ");
        s.append(self.name.as_str());
        s.append(";   // forward declaration");
        proof {
            assert(s@ =~= struct_decl_flat(*self));
        }
        fmt.write_str(s.as_str());
    }

    /// Writes the struct through the formatter: a forward declaration when
    /// it has no fields, a brace-delimited block of fields otherwise.
    #[verifier::loop_isolation(false)]
    #[verifier::rlimit(100)]
    #[verifier::spinoff_prover]
    pub fn fmt(&self, fmt: &mut Formatter)
        requires
            old(fmt).spaces + INDENT_STEP <= usize::MAX,
        ensures
            final(fmt).out@ == old(fmt).out@ + struct_text(
                *self,
                old(fmt).spaces as nat,
                line_start(old(fmt).out@),
            ),
            final(fmt).spaces == old(fmt).spaces,
            final(fmt).scopes == old(fmt).scopes,
    {
        let ghost ind = fmt.spaces as nat;
        let ghost st0 = line_start(fmt.out@);
        let mut head = String::new();
        push_opt_doc(&self.doc, &mut head);
        head.append("struct ");
        head.append(self.name.as_str());
        proof {
            assert(head@ =~= opt_doc_flat(self.doc) + "struct "@ + self.name@);
        }
        if self.fields.len() == 0 {
            head.append(";\n");
            proof {
                assert(head@ =~= (opt_doc_flat(self.doc) + "struct "@ + self.name@) + ";\n"@);
            }
            fmt.write_str(head.as_str());
            return ;
        }
        fmt.write_str(head.as_str());
        fmt.block_open();
        let ghost base = fmt.out@;
        let ghost fsv = self.fields@;
        let mut i: usize = 0;
        proof {
            assert(base + fields_text(fsv.subrange(0, 0), (ind + INDENT_STEP) as nat) =~= base);
        }
        while i < self.fields.len()
            invariant
                i <= fsv.len(),
                fmt.out@ == base + fields_text(fsv.subrange(0, i as int), (ind + INDENT_STEP) as nat),
                line_start(fmt.out@),
                fmt.spaces == old(fmt).spaces + INDENT_STEP,
                fmt.scopes == old(fmt).scopes,
            decreases fsv.len() - i,
        {
            proof {
                assert(fsv.subrange(0, i as int + 1).drop_last() =~= fsv.subrange(0, i as int));
                assert(fsv.subrange(0, i as int + 1).last() == fsv[i as int]);
            }
            self.fields[i].fmt(fmt);
            proof {
                reveal_strlit(";\n");
                let flat = field_flat(fsv[i as int]);
                assert(flat.last() == '\n');
                crate::formatter::lemma_written_nst(flat, (ind + INDENT_STEP) as nat, true);
                crate::formatter::lemma_line_start_concat(
                    base + fields_text(fsv.subrange(0, i as int), (ind + INDENT_STEP) as nat),
                    written(flat, (ind + INDENT_STEP) as nat, true),
                );
                assert(fmt.out@ =~= base + fields_text(
                    fsv.subrange(0, i as int + 1),
                    (ind + INDENT_STEP) as nat,
                ));
            }
            i += 1;
        }
        proof {
            assert(fsv.subrange(0, fsv.len() as int) =~= fsv);
        }
        fmt.block_close();
        let mut tail = String::new();
        if self.attributes.len() > 0 {
            tail.append("__attribute__() // TODO");
        }
        tail.append(";\n");
        proof {
            assert(tail@ =~= record_tail_flat(self.attributes@.len() > 0));
        }
        fmt.write_str(tail.as_str());
        proof {
            assert(final(fmt).out@ =~= old(fmt).out@ + struct_text(*self, ind, st0));
        }
    }
}

/// Relies on str::eq (String equality): compares two strings character by
/// character.
#[verifier::external_body]
pub(crate) fn str_eq(a: &str, b: &str) -> (r: bool)
    ensures
        r == (a@ == b@),
{
    a == b
}

} // verus!
