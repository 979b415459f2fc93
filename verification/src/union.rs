//! Unions of the generated C code: a name with an ordered list of fields.

use vstd::prelude::*;

use crate::doc::Doc;
use crate::doc::add_text_entries;
use crate::doc::doc_add_text;
use crate::doc::opt_doc_flat;
use crate::doc::opt_doc_lines;
use crate::doc::push_opt_doc;
use crate::field::Field;
use crate::field::field_flat;
use crate::formatter::Formatter;
use crate::formatter::INDENT_STEP;
use crate::formatter::brace_open;
use crate::formatter::line_start;
use crate::formatter::nst;
use crate::formatter::written;
use crate::structs::fields_text;
use crate::structs::record_tail_flat;
use crate::types::Type;
use crate::types::type_text;

verus! {

/// A C union.
#[derive(Debug)]
pub struct Union {
    /// The name of the union.
    pub name: String,
    /// The fields of the union, in insertion order.
    pub fields: Vec<Field>,
    /// The documentation comment of the union.
    pub doc: Option<Doc>,
    /// Attribute annotations of the union.
    pub attributes: Vec<String>,
}

/// The rendered text of a union at indentation `ind` with line-start state
/// `st`: documentation and `union <name>`, then either a bare `;` for a
/// forward declaration without fields, or a brace-delimited block of fields.
pub open spec fn union_text(u: Union, ind: nat, st: bool) -> Seq<char> {
    let head = opt_doc_flat(u.doc) + "union "@ + u.name@;
    if u.fields@.len() == 0 {
        written(head + ";\n"@, ind, st)
    } else {
        let h = written(head, ind, st);
        let st1 = nst(head, st);
        h + written(brace_open(st1), ind, st1) + fields_text(
            u.fields@,
            (ind + INDENT_STEP) as nat,
        ) + written("}\n"@, ind, true) + written(
            record_tail_flat(u.attributes@.len() > 0),
            ind,
            true,
        )
    }
}

/// The flat text of a union forward declaration.
pub open spec fn union_decl_flat(u: Union) -> Seq<char> {
    "union "@ + u.name@ + ";   // forward declaration"@
}

impl Union {
    /// Returns a new union with the given name and no fields.
    pub fn new(name: &str) -> (r: Self)
        ensures
            r.name@ == name@,
            r.fields@ == Seq::<Field>::empty(),
            r.doc is None,
            r.attributes@ == Seq::<String>::empty(),
    {
        Union { name: name.to_owned(), fields: Vec::new(), doc: None, attributes: Vec::new() }
    }

    /// Creates a new union with the given name and the supplied fields.
    /// The fields are not checked for duplicates.
    pub fn with_fields(name: &str, fields: Vec<Field>) -> (r: Self)
        ensures
            r.name@ == name@,
            r.fields == fields,
            r.doc is None,
            r.attributes@ == Seq::<String>::empty(),
    {
        Union { name: name.to_owned(), fields, doc: None, attributes: Vec::new() }
    }

    /// The corresponding type reference for this union.
    pub fn to_type(&self) -> (r: Type)
        ensures
            r.unmodified(),
            r.wf(),
            type_text(r) == "union "@ + self.name@,
    {
        Type::new_union(self.name.as_str())
    }

    /// Replaces the documentation comment of the union.
    pub fn doc(&mut self, doc: Doc) -> (r: &mut Self)
        ensures
            r.name == old(self).name,
            r.fields == old(self).fields,
            r.attributes == old(self).attributes,
            r.doc == Some(doc),
            *final(self) == *final(r),
    {
        self.doc = Some(doc);
        self
    }

    /// Adds a string to the documentation comment of the union.
    pub fn push_doc_str(&mut self, doc: &str) -> (r: &mut Self)
        ensures
            r.name == old(self).name,
            r.fields == old(self).fields,
            r.attributes == old(self).attributes,
            opt_doc_lines(r.doc) == opt_doc_lines(old(self).doc) + add_text_entries(doc@),
            *final(self) == *final(r),
    {
        doc_add_text(&mut self.doc, doc);
        self
    }

    /// Creates a new field of the union and hands it out for further
    /// construction.
    pub fn new_field(&mut self, name: &str, ty: Type) -> (r: &mut Field)
        ensures
            r.name@ == name@,
            r.ty == ty,
            r.width is None,
            r.doc is None,
            final(self).name == old(self).name,
            final(self).doc == old(self).doc,
            final(self).attributes == old(self).attributes,
            final(self).fields@ == old(self).fields@.push(*final(r)),
    {
        self.fields.push(Field::new(name, ty));
        let n = self.fields.len();
        &mut self.fields[n - 1]
    }

    /// Pushes a field onto the union.
    pub fn push_field(&mut self, item: Field) -> (r: &mut Self)
        ensures
            r.name == old(self).name,
            r.doc == old(self).doc,
            r.attributes == old(self).attributes,
            r.fields@ == old(self).fields@.push(item),
            *final(self) == *final(r),
    {
        self.fields.push(item);
        self
    }

    /// Adds an attribute annotation to the union.
    pub fn push_attribute(&mut self, attr: String) -> (r: &mut Self)
        ensures
            r.name == old(self).name,
            r.doc == old(self).doc,
            r.fields == old(self).fields,
            r.attributes@ == old(self).attributes@.push(attr),
            *final(self) == *final(r),
    {
        self.attributes.push(attr);
        self
    }

    /// Writes a forward declaration for the union.
    pub fn fmt_decl(&self, fmt: &mut Formatter)
        ensures
            final(fmt).out@ == old(fmt).out@ + written(
                union_decl_flat(*self),
                old(fmt).spaces as nat,
                line_start(old(fmt).out@),
            ),
            final(fmt).spaces == old(fmt).spaces,
            final(fmt).scopes == old(fmt).scopes,
    {
        let mut s = String::new();
        s.append("union ");
        s.append(self.name.as_str());
        s.append(";   // forward declaration");
        proof {
            assert(s@ =~= union_decl_flat(*self));
        }
        fmt.write_str(s.as_str());
    }

    /// Writes the union through the formatter: a forward declaration when
    /// it has no fields, a brace-delimited block of fields otherwise.
    #[verifier::loop_isolation(false)]
    #[verifier::rlimit(100)]
    #[verifier::spinoff_prover]
    pub fn fmt(&self, fmt: &mut Formatter)
        requires
            old(fmt).spaces + INDENT_STEP <= usize::MAX,
        ensures
            final(fmt).out@ == old(fmt).out@ + union_text(
                *self,
                old(fmt).spaces as nat,
                line_start(old(fmt).out@),
            ),
            final(fmt).spaces == old(fmt).spaces,
            final(fmt).scopes == old(fmt).scopes,
    {
        let ghost ind = fmt.spaces as nat;
        let ghost st0 = line_start(fmt.out@);
        let mut head = String::new();
        push_opt_doc(&self.doc, &mut head);
        head.append("union ");
        head.append(self.name.as_str());
        proof {
            assert(head@ =~= opt_doc_flat(self.doc) + "union "@ + self.name@);
        }
        if self.fields.len() == 0 {
            head.append(";\n");
            proof {
                assert(head@ =~= (opt_doc_flat(self.doc) + "union "@ + self.name@) + ";\n"@);
            }
            fmt.write_str(head.as_str());
            return ;
        }
        fmt.write_str(head.as_str());
        fmt.block_open();
        let ghost base = fmt.out@;
        let ghost fsv = self.fields@;
        let mut i: usize = 0;
        proof {
            assert(base + fields_text(fsv.subrange(0, 0), (ind + INDENT_STEP) as nat) =~= base);
        }
        while i < self.fields.len()
            invariant
                i <= fsv.len(),
                fmt.out@ == base + fields_text(
                    fsv.subrange(0, i as int),
                    (ind + INDENT_STEP) as nat,
                ),
                line_start(fmt.out@),
                fmt.spaces == old(fmt).spaces + INDENT_STEP,
                fmt.scopes == old(fmt).scopes,
            decreases fsv.len() - i,
        {
            proof {
                assert(fsv.subrange(0, i as int + 1).drop_last() =~= fsv.subrange(0, i as int));
                assert(fsv.subrange(0, i as int + 1).last() == fsv[i as int]);
            }
            self.fields[i].fmt(fmt);
            proof {
                reveal_strlit(";\n");
                let flat = field_flat(fsv[i as int]);
                assert(flat.last() == '\n');
                crate::formatter::lemma_written_nst(flat, (ind + INDENT_STEP) as nat, true);
                crate::formatter::lemma_line_start_concat(
                    base + fields_text(fsv.subrange(0, i as int), (ind + INDENT_STEP) as nat),
                    written(flat, (ind + INDENT_STEP) as nat, true),
                );
                assert(fmt.out@ =~= base + fields_text(
                    fsv.subrange(0, i as int + 1),
                    (ind + INDENT_STEP) as nat,
                ));
            }
            i += 1;
        }
        proof {
            assert(fsv.subrange(0, fsv.len() as int) =~= fsv);
        }
        fmt.block_close();
        let mut tail = String::new();
        if self.attributes.len() > 0 {
            tail.append("__attribute__() // TODO");
        }
        tail.append(";\n");
        proof {
            assert(tail@ =~= record_tail_flat(self.attributes@.len() > 0));
        }
        fmt.write_str(tail.as_str());
        proof {
            assert(final(fmt).out@ =~= old(fmt).out@ + union_text(*self, ind, st0));
        }
    }
}

} // verus!
