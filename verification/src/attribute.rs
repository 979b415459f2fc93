//! Class attributes (data members) of the generated C++ code, with
//! visibility, bitfield widths, initializer values and a static marker.
//! For C struct fields see the field module.

use vstd::prelude::*;

use crate::doc::Doc;
use crate::doc::add_text_entries;
use crate::doc::doc_add_text;
use crate::doc::opt_doc_flat;
use crate::doc::opt_doc_lines;
use crate::doc::push_opt_doc;
use crate::expr::Expr;
use crate::expr::expr_is_ptr;
use crate::expr::expr_is_struct;
use crate::expr::expr_text;
use crate::field::width_flat;
use crate::formatter::Formatter;
use crate::formatter::line_start;
use crate::formatter::written;
use crate::text::push_dec;
use crate::types::Type;
use crate::types::Visibility;
use crate::types::type_is_integer;
use crate::types::type_is_ptr;
use crate::types::type_is_struct;
use crate::types::type_text;

verus! {

/// A C++ class attribute: a data member with a type and a name.
#[derive(Debug)]
pub struct Attribute {
    /// The name of the attribute.
    pub name: String,
    /// The visibility of the attribute.
    pub visibility: Visibility,
    /// The type of the attribute.
    pub ty: Type,
    /// The number of bits of a bitfield attribute, if any.
    pub width: Option<u8>,
    /// The initializer value, if any.
    pub value: Option<Expr>,
    /// Whether the attribute is static.
    pub is_static: bool,
    /// The documentation comment of the attribute.
    pub doc: Option<Doc>,
}

/// The flat text of an attribute: documentation, a static marker, type and
/// name, a bitfield width, and outside declaration mode its initializer.
pub open spec fn attr_flat(a: Attribute, decl_only: bool) -> Seq<char> {
    opt_doc_flat(a.doc) + (if a.is_static {
        "static "@
    } else {
        Seq::<char>::empty()
    }) + type_text(a.ty) + " "@ + a.name@ + width_flat(a.width) + (match a.value {
        Some(e) => if decl_only {
            Seq::<char>::empty()
        } else {
            " = "@ + expr_text(e)
        },
        None => Seq::<char>::empty(),
    }) + ";\n"@
}

/// The definition-mode emission of an attribute: nothing for a non-static
/// attribute, whose storage lives inside the class; for a static one its
/// full statement with the initializer.
pub open spec fn attr_def_flat(a: Attribute) -> Seq<char> {
    if !a.is_static {
        Seq::empty()
    } else {
        attr_flat(a, false)
    }
}

impl Attribute {
    /// Creates a new attribute with a given name and type, private by
    /// default.
    pub fn new(name: &str, ty: Type) -> (r: Self)
        ensures
            r.name@ == name@,
            r.ty == ty,
            r.visibility == Visibility::Default,
            r.width is None,
            r.value is None,
            !r.is_static,
            r.doc is None,
    {
        Attribute::with_string(name.to_owned(), ty)
    }

    /// Creates a new attribute, consuming the given name.
    pub fn with_string(name: String, ty: Type) -> (r: Self)
        ensures
            r.name@ == name@,
            r.ty == ty,
            r.visibility == Visibility::Default,
            r.width is None,
            r.value is None,
            !r.is_static,
            r.doc is None,
    {
        Attribute {
            name,
            ty,
            visibility: Visibility::Default,
            width: None,
            value: None,
            is_static: false,
            doc: None,
        }
    }

    /// The name of the attribute.
    pub fn name(&self) -> (r: &str)
        ensures
            r@ == self.name@,
    {
        self.name.as_str()
    }

    /// A copy of the type of the attribute.
    pub fn to_type(&self) -> (r: Type)
        ensures
            r.same_base(self.ty),
            r.mods@ == self.ty.mods@,
            r.nptr == self.ty.nptr,
            r.is_const == self.ty.is_const,
            r.is_volatile == self.ty.is_volatile,
            type_text(r) == type_text(self.ty),
    {
        self.ty.clone()
    }

    /// A reference to the type of the attribute.
    pub fn as_type(&self) -> (r: &Type)
        ensures
            *r == self.ty,
    {
        &self.ty
    }

    /// A variable reference expression naming the attribute, without the
    /// `this->` operator.
    pub fn to_expr(&self) -> (r: Expr)
        ensures
            expr_text(r) == self.name@,
            expr_is_ptr(r) == type_is_ptr(self.ty),
            expr_is_struct(r) == type_is_struct(self.ty),
    {
        Expr::Variable { name: self.name.clone(), ty: self.ty.clone() }
    }

    /// The visibility of the attribute.
    pub fn visibility(&self) -> (r: Visibility)
        ensures
            r == self.visibility,
    {
        self.visibility
    }

    /// Checks whether the attribute is public.
    pub fn is_public(&self) -> (r: bool)
        ensures
            r == (self.visibility == Visibility::Public),
    {
        self.visibility == Visibility::Public
    }

    /// Checks whether the attribute is protected.
    pub fn is_protected(&self) -> (r: bool)
        ensures
            r == (self.visibility == Visibility::Protected),
    {
        self.visibility == Visibility::Protected
    }

    /// Checks whether the attribute is private; the default visibility
    /// counts as private.
    pub fn is_private(&self) -> (r: bool)
        ensures
            r == (self.visibility == Visibility::Private || self.visibility
                == Visibility::Default),
    {
        self.visibility == Visibility::Private || self.visibility == Visibility::Default
    }

    /// Sets the visibility of the attribute.
    pub fn set_visibility(&mut self, vis: Visibility) -> (r: &mut Self)
        ensures
            *r == (Attribute { visibility: vis, ..*old(self) }),
            *final(self) == *final(r),
    {
        self.visibility = vis;
        self
    }

    /// Makes the attribute public.
    pub fn set_public(&mut self) -> (r: &mut Self)
        ensures
            *r == (Attribute { visibility: Visibility::Public, ..*old(self) }),
            *final(self) == *final(r),
    {
        self.set_visibility(Visibility::Public)
    }

    /// Makes the attribute protected.
    pub fn set_protected(&mut self) -> (r: &mut Self)
        ensures
            *r == (Attribute { visibility: Visibility::Protected, ..*old(self) }),
            *final(self) == *final(r),
    {
        self.set_visibility(Visibility::Protected)
    }

    /// Makes the attribute private.
    pub fn set_private(&mut self) -> (r: &mut Self)
        ensures
            *r == (Attribute { visibility: Visibility::Private, ..*old(self) }),
            *final(self) == *final(r),
    {
        self.set_visibility(Visibility::Private)
    }

    /// Adds a string to the documentation comment of the attribute.
    pub fn push_doc_str(&mut self, doc: &str) -> (r: &mut Self)
        ensures
            r.name == old(self).name,
            r.ty == old(self).ty,
            r.visibility == old(self).visibility,
            r.width == old(self).width,
            r.value == old(self).value,
            r.is_static == old(self).is_static,
            opt_doc_lines(r.doc) == opt_doc_lines(old(self).doc) + add_text_entries(doc@),
            *final(self) == *final(r),
    {
        doc_add_text(&mut self.doc, doc);
        self
    }

    /// Replaces the documentation comment of the attribute.
    pub fn set_doc(&mut self, doc: Doc) -> (r: &mut Self)
        ensures
            *r == (Attribute { doc: Some(doc), ..*old(self) }),
            *final(self) == *final(r),
    {
        self.doc = Some(doc);
        self
    }

    /// Sets the bitfield width of the attribute; only an attribute of
    /// integer type takes a width, any other type leaves it unchanged.
    pub fn set_bitfield_width(&mut self, width: u8) -> (r: &mut Self)
        ensures
            *r == (Attribute {
                width: if type_is_integer(old(self).ty) {
                    Some(width)
                } else {
                    old(self).width
                },
                ..*old(self)
            }),
            *final(self) == *final(r),
    {
        if self.ty.is_integer() {
            self.width = Some(width);
        }
        self
    }

    /// Checks whether this is a bitfield attribute.
    pub fn is_bitfield(&self) -> (r: bool)
        ensures
            r == (self.width is Some),
    {
        self.width.is_some()
    }

    /// Toggles the static marker of the attribute.
    pub fn toggle_static(&mut self, val: bool) -> (r: &mut Self)
        ensures
            *r == (Attribute { is_static: val, ..*old(self) }),
            *final(self) == *final(r),
    {
        self.is_static = val;
        self
    }

    /// Makes the attribute static.
    pub fn set_static(&mut self) -> (r: &mut Self)
        ensures
            *r == (Attribute { is_static: true, ..*old(self) }),
            *final(self) == *final(r),
    {
        self.toggle_static(true)
    }

    /// Checks whether the attribute is static.
    pub fn is_static(&self) -> (r: bool)
        ensures
            r == self.is_static,
    {
        self.is_static
    }

    /// Sets the initializer value of the attribute.
    pub fn set_value(&mut self, val: Expr) -> (r: &mut Self)
        ensures
            *r == (Attribute { value: Some(val), ..*old(self) }),
            *final(self) == *final(r),
    {
        self.value = Some(val);
        self
    }

    /// A reference to the initializer value of the attribute.
    pub fn value(&self) -> (r: Option<&Expr>)
        ensures
            r is Some <==> self.value is Some,
            self.value matches Some(e) ==> r matches Some(i) && *i == e,
    {
        self.value.as_ref()
    }

    /// Appends documentation, static marker, type, name and width to `s`.
    fn push_head_flat(&self, s: &mut String)
        ensures
            final(s)@ == old(s)@ + (opt_doc_flat(self.doc) + (if self.is_static {
                "static "@
            } else {
                Seq::<char>::empty()
            }) + type_text(self.ty) + " "@ + self.name@ + width_flat(self.width)),
    {
        push_opt_doc(&self.doc, s);
        if self.is_static {
            s.append("static ");
        }
        self.ty.push_text(s);
        s.append(" ");
        s.append(self.name.as_str());
        match self.width {
            Some(w) => {
                s.append(" : ");
                push_dec(s, w as u64);
            },
            None => {},
        }
        proof {
            assert(s@ =~= old(s)@ + (opt_doc_flat(self.doc) + (if self.is_static {
                "static "@
            } else {
                Seq::<char>::empty()
            }) + type_text(self.ty) + " "@ + self.name@ + width_flat(self.width)));
        }
    }

    /// Writes the attribute through the formatter; declaration mode leaves
    /// the initializer out.
    pub fn do_fmt(&self, fmt: &mut Formatter, decl_only: bool)
        ensures
            final(fmt).out@ == old(fmt).out@ + written(
                attr_flat(*self, decl_only),
                old(fmt).spaces as nat,
                line_start(old(fmt).out@),
            ),
            final(fmt).spaces == old(fmt).spaces,
            final(fmt).scopes == old(fmt).scopes,
    {
        let mut s = String::new();
        self.push_head_flat(&mut s);
        match &self.value {
            Some(e) => {
                if !decl_only {
                    s.append(" = ");
                    e.push_text(&mut s);
                }
            },
            None => {},
        }
        s.append(";\n");
        proof {
            assert(s@ =~= attr_flat(*self, decl_only));
        }
        fmt.write_str(s.as_str());
    }

    /// Writes the declaration of the attribute: its statement without the
    /// initializer.
    pub fn fmt_decl(&self, fmt: &mut Formatter)
        ensures
            final(fmt).out@ == old(fmt).out@ + written(
                attr_flat(*self, true),
                old(fmt).spaces as nat,
                line_start(old(fmt).out@),
            ),
            final(fmt).spaces == old(fmt).spaces,
            final(fmt).scopes == old(fmt).scopes,
    {
        self.do_fmt(fmt, true)
    }

    /// Writes the definition of the attribute: nothing for a non-static
    /// attribute, the full statement with the initializer for a static one.
    pub fn fmt_def(&self, fmt: &mut Formatter)
        ensures
            final(fmt).out@ == old(fmt).out@ + written(
                attr_def_flat(*self),
                old(fmt).spaces as nat,
                line_start(old(fmt).out@),
            ),
            final(fmt).spaces == old(fmt).spaces,
            final(fmt).scopes == old(fmt).scopes,
    {
        if !self.is_static {
            proof {
                assert(old(fmt).out@ + written(
                    attr_def_flat(*self),
                    old(fmt).spaces as nat,
                    line_start(old(fmt).out@),
                ) =~= old(fmt).out@);
            }
            return ;
        }
        self.do_fmt(fmt, false)
    }

    /// Writes the attribute through the formatter, with its initializer.
    pub fn fmt(&self, fmt: &mut Formatter)
        ensures
            final(fmt).out@ == old(fmt).out@ + written(
                attr_flat(*self, false),
                old(fmt).spaces as nat,
                line_start(old(fmt).out@),
            ),
            final(fmt).spaces == old(fmt).spaces,
            final(fmt).scopes == old(fmt).scopes,
    {
        self.do_fmt(fmt, false)
    }
}

} // verus!
