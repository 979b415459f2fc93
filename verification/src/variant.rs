//! Enumeration variants of the generated C code.

use vstd::prelude::*;

use crate::doc::Doc;
use crate::doc::add_text_entries;
use crate::doc::doc_add_text;
use crate::doc::opt_doc_flat;
use crate::doc::opt_doc_lines;
use crate::doc::push_opt_doc;
use crate::formatter::Formatter;
use crate::formatter::line_start;
use crate::formatter::written;
use crate::text::dec_text;
use crate::text::push_dec;

verus! {

/// An enumeration variant: a name with an optional numeric value.
#[derive(Debug)]
pub struct Variant {
    /// The name of the variant.
    pub name: String,
    /// The value of the variant, if any.
    pub value: Option<u64>,
    /// The documentation comment of the variant.
    pub doc: Option<Doc>,
}

/// The flat text of a variant: documentation, its name, and its value as
/// ` = <value>` when one is set.  No newline closes it; the enclosing enum
/// writes the separators.
pub open spec fn variant_flat(v: Variant) -> Seq<char> {
    opt_doc_flat(v.doc) + v.name@ + (match v.value {
        Some(x) => " = "@ + dec_text(x as nat),
        None => Seq::<char>::empty(),
    })
}

impl Variant {
    /// Creates a new variant with the given name.
    pub fn new(name: &str) -> (r: Self)
        ensures
            r.name@ == name@,
            r.value is None,
            r.doc is None,
    {
        Variant::with_string(name.to_owned())
    }

    /// Creates a new variant, consuming the given name.
    pub fn with_string(name: String) -> (r: Self)
        ensures
            r.name@ == name@,
            r.value is None,
            r.doc is None,
    {
        Variant { name, value: None, doc: None }
    }

    /// Creates a new variant with a given value.
    pub fn new_with_value(name: &str, value: u64) -> (r: Self)
        ensures
            r.name@ == name@,
            r.value == Some(value),
            r.doc is None,
    {
        Variant::with_string_and_value(name.to_owned(), value)
    }

    /// Creates a new variant with a given value, consuming the given name.
    pub fn with_string_and_value(name: String, value: u64) -> (r: Self)
        ensures
            r.name@ == name@,
            r.value == Some(value),
            r.doc is None,
    {
        Variant { name, value: Some(value), doc: None }
    }

    /// Adds a string to the documentation comment of the variant.
    pub fn doc_str(&mut self, doc: &str) -> (r: &mut Self)
        ensures
            r.name == old(self).name,
            r.value == old(self).value,
            opt_doc_lines(r.doc) == opt_doc_lines(old(self).doc) + add_text_entries(doc@),
            *final(self) == *final(r),
    {
        doc_add_text(&mut self.doc, doc);
        self
    }

    /// Replaces the documentation comment of the variant.
    pub fn doc(&mut self, doc: Doc) -> (r: &mut Self)
        ensures
            *r == (Variant { doc: Some(doc), ..*old(self) }),
            *final(self) == *final(r),
    {
        self.doc = Some(doc);
        self
    }

    /// Sets the value of the variant.
    pub fn set_value(&mut self, value: u64) -> (r: &mut Self)
        ensures
            *r == (Variant { value: Some(value), ..*old(self) }),
            *final(self) == *final(r),
    {
        self.value = Some(value);
        self
    }

    /// The name of the variant.
    pub fn name(&self) -> (r: &str)
        ensures
            r@ == self.name@,
    {
        self.name.as_str()
    }

    /// The value of the variant, if any.
    pub fn value(&self) -> (r: Option<u64>)
        ensures
            r == self.value,
    {
        self.value
    }

    /// Appends the flat text of the variant to `s`.
    pub fn push_flat(&self, s: &mut String)
        ensures
            final(s)@ == old(s)@ + variant_flat(*self),
    {
        push_opt_doc(&self.doc, s);
        s.append(self.name.as_str());
        match self.value {
            Some(x) => {
                s.append(" = ");
                push_dec(s, x);
            },
            None => {},
        }
        proof {
            assert(s@ =~= old(s)@ + variant_flat(*self));
        }
    }

    /// Writes the variant through the formatter.
    pub fn fmt(&self, fmt: &mut Formatter)
        ensures
            final(fmt).out@ == old(fmt).out@ + written(
                variant_flat(*self),
                old(fmt).spaces as nat,
                line_start(old(fmt).out@),
            ),
            final(fmt).spaces == old(fmt).spaces,
            final(fmt).scopes == old(fmt).scopes,
    {
        let mut s = String::new();
        self.push_flat(&mut s);
        proof {
            assert(Seq::<char>::empty() + variant_flat(*self) =~= variant_flat(*self));
        }
        fmt.write_str(s.as_str());
    }
}

} // verus!
