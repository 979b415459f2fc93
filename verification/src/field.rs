//! Struct fields of the generated C code, with optional bitfield widths.
//! For data members of classes see the attribute module.

use vstd::prelude::*;

use crate::doc::Doc;
use crate::doc::add_text_entries;
use crate::doc::doc_add_text;
use crate::doc::opt_doc_flat;
use crate::doc::opt_doc_lines;
use crate::doc::push_opt_doc;
use crate::formatter::Formatter;
use crate::formatter::lemma_written_zero_indent;
use crate::formatter::line_start;
use crate::formatter::written;
use crate::text::dec_text;
use crate::text::push_dec;
use crate::types::Type;
use crate::types::type_text;

verus! {

/// A field of a generated struct or union.
#[derive(Debug)]
pub struct Field {
    /// The name of the field.
    pub name: String,
    /// The type of the field.
    pub ty: Type,
    /// The number of bits of a bitfield, if any.
    pub width: Option<u8>,
    /// The documentation comment of the field.
    pub doc: Option<Doc>,
}

/// The bitfield part of a field: ` : <width>` when a width is set.
pub open spec fn width_flat(w: Option<u8>) -> Seq<char> {
    match w {
        Some(x) => " : "@ + dec_text(x as nat),
        None => Seq::empty(),
    }
}

/// The flat text of a field: its documentation, its type, its name, its
/// bitfield width, and a closing `;`.
pub open spec fn field_flat(f: Field) -> Seq<char> {
    opt_doc_flat(f.doc) + type_text(f.ty) + " "@ + f.name@ + width_flat(f.width) + ";\n"@
}

impl Field {
    /// Creates a new field with the given name and type.
    pub fn new(name: &str, ty: Type) -> (r: Self)
        ensures
            r.name@ == name@,
            r.ty == ty,
            r.width is None,
            r.doc is None,
    {
        Field { name: name.to_owned(), ty, width: None, doc: None }
    }

    /// The name of the field.
    pub fn name(&self) -> (r: &str)
        ensures
            r@ == self.name@,
    {
        self.name.as_str()
    }

    /// A copy of the type of the field.
    pub fn as_type(&self) -> (r: Type)
        ensures
            r.same_base(self.ty),
            r.mods@ == self.ty.mods@,
            r.nptr == self.ty.nptr,
            r.is_const == self.ty.is_const,
            r.is_volatile == self.ty.is_volatile,
            type_text(r) == type_text(self.ty),
    {
        self.ty.clone()
    }

    /// A reference to the type of the field.
    pub fn as_type_ref(&self) -> (r: &Type)
        ensures
            *r == self.ty,
    {
        &self.ty
    }

    /// Adds a string to the documentation comment of the field.
    pub fn push_doc_str(&mut self, doc: &str) -> (r: &mut Self)
        ensures
            r.name == old(self).name,
            r.ty == old(self).ty,
            r.width == old(self).width,
            opt_doc_lines(r.doc) == opt_doc_lines(old(self).doc) + add_text_entries(doc@),
            *final(self) == *final(r),
    {
        doc_add_text(&mut self.doc, doc);
        self
    }

    /// Replaces the documentation comment of the field.
    pub fn set_doc(&mut self, doc: Doc) -> (r: &mut Self)
        ensures
            r.name == old(self).name,
            r.ty == old(self).ty,
            r.width == old(self).width,
            r.doc == Some(doc),
            *final(self) == *final(r),
    {
        self.doc = Some(doc);
        self
    }

    /// Sets the bitfield width of the field.
    pub fn bitfield_width(&mut self, width: u8) -> (r: &mut Self)
        ensures
            r.name == old(self).name,
            r.ty == old(self).ty,
            r.doc == old(self).doc,
            r.width == Some(width),
            *final(self) == *final(r),
    {
        self.width = Some(width);
        self
    }

    /// Appends the flat text of the field to `s`.
    pub fn push_flat(&self, s: &mut String)
        ensures
            final(s)@ == old(s)@ + field_flat(*self),
    {
        push_opt_doc(&self.doc, s);
        self.ty.push_text(s);
        s.append(" ");
        s.append(self.name.as_str());
        match self.width {
            Some(w) => {
                s.append(" : ");
                push_dec(s, w as u64);
            },
            None => {},
        }
        s.append(";\n");
        proof {
            assert(s@ =~= old(s)@ + field_flat(*self));
        }
    }

    /// Renders the field as a string, as it stands at the start of a line
    /// with no indentation.
    pub fn to_string(&self) -> (r: String)
        ensures
            r@ == field_flat(*self),
    {
        let mut s = String::new();
        self.push_flat(&mut s);
        proof {
            assert(Seq::<char>::empty() + field_flat(*self) =~= field_flat(*self));
            lemma_written_zero_indent(field_flat(*self), true);
        }
        s
    }

    /// Writes the field through the formatter.
    pub fn fmt(&self, fmt: &mut Formatter)
        ensures
            final(fmt).out@ == old(fmt).out@ + written(
                field_flat(*self),
                old(fmt).spaces as nat,
                line_start(old(fmt).out@),
            ),
            final(fmt).spaces == old(fmt).spaces,
            final(fmt).scopes == old(fmt).scopes,
    {
        let mut s = String::new();
        self.push_flat(&mut s);
        proof {
            assert(Seq::<char>::empty() + field_flat(*self) =~= field_flat(*self));
        }
        fmt.write_str(s.as_str());
    }
}

} // verus!
