//! Variables of the generated code: named storage with a type, an optional
//! initializer, and C linkage or storage-class markers.

use vstd::prelude::*;

use crate::doc::Doc;
use crate::doc::add_text_entries;
use crate::doc::doc_add_text;
use crate::doc::opt_doc_flat;
use crate::doc::opt_doc_lines;
use crate::doc::push_opt_doc;
use crate::expr::Expr;
use crate::expr::expr_is_ptr;
use crate::expr::expr_is_struct;
use crate::expr::expr_text;
use crate::formatter::Formatter;
use crate::formatter::line_start;
use crate::formatter::written;
use crate::types::Type;
use crate::types::type_is_ptr;
use crate::types::type_is_struct;
use crate::types::type_text;

verus! {

/// A variable of the generated code.
#[derive(Debug)]
pub struct Variable {
    /// The name of the variable.
    pub name: String,
    /// The type of the variable.
    pub ty: Type,
    /// The initializer value, if any.
    pub value: Option<Expr>,
    /// Whether the variable is static.
    pub is_static: bool,
    /// Whether the variable has external linkage.
    pub is_extern: bool,
    /// The documentation comment of the variable.
    pub doc: Option<Doc>,
}

/// The storage and linkage prefix of a variable.
pub open spec fn var_prefix_flat(v: Variable) -> Seq<char> {
    (if v.is_extern {
        "extern "@
    } else {
        Seq::<char>::empty()
    }) + (if v.is_static {
        "static "@
    } else {
        Seq::<char>::empty()
    })
}

/// The flat text that `fmt` produces for a variable: documentation, prefix,
/// type and name, with no initializer and no closing `;`.
pub open spec fn var_flat(v: Variable) -> Seq<char> {
    opt_doc_flat(v.doc) + var_prefix_flat(v) + type_text(v.ty) + " "@ + v.name@
}

/// The initializer part of a variable in a full statement: skipped in
/// declaration-only mode, for a variable with external linkage, and when no
/// value is set.
pub open spec fn var_value_flat(v: Variable, decl_only: bool) -> Seq<char> {
    match v.value {
        Some(e) => if decl_only || v.is_extern {
            Seq::<char>::empty()
        } else {
            " = "@ + expr_text(e)
        },
        None => Seq::<char>::empty(),
    }
}

/// The flat text of a full variable statement, closed by `;`.
pub open spec fn var_stmt_flat(v: Variable, decl_only: bool) -> Seq<char> {
    var_flat(v) + var_value_flat(v, decl_only) + ";\n"@
}

impl Variable {
    /// Creates a new variable with the given name and type.
    pub fn new(name: &str, ty: Type) -> (r: Self)
        ensures
            r.name@ == name@,
            r.ty == ty,
            r.value is None,
            !r.is_static,
            !r.is_extern,
            r.doc is None,
    {
        Variable::with_string(name.to_owned(), ty)
    }

    /// Creates a new variable, consuming the given name.
    pub fn with_string(name: String, ty: Type) -> (r: Self)
        ensures
            r.name@ == name@,
            r.ty == ty,
            r.value is None,
            !r.is_static,
            !r.is_extern,
            r.doc is None,
    {
        Variable { name, ty, value: None, is_static: false, is_extern: false, doc: None }
    }

    /// A variable reference expression naming the variable.
    pub fn to_expr(&self) -> (r: Expr)
        ensures
            expr_text(r) == self.name@,
            expr_is_ptr(r) == type_is_ptr(self.ty),
            expr_is_struct(r) == type_is_struct(self.ty),
    {
        Expr::Variable { name: self.name.clone(), ty: self.ty.clone() }
    }

    /// Creates a new variable with an initializer value.
    pub fn with_value(name: &str, ty: Type, val: Expr) -> (r: Self)
        ensures
            r.name@ == name@,
            r.ty == ty,
            r.value == Some(val),
            !r.is_static,
            !r.is_extern,
            r.doc is None,
    {
        Variable::with_string_and_value(name.to_owned(), ty, val)
    }

    /// Creates a new variable with an initializer value, consuming the given
    /// name.
    pub fn with_string_and_value(name: String, ty: Type, val: Expr) -> (r: Self)
        ensures
            r.name@ == name@,
            r.ty == ty,
            r.value == Some(val),
            !r.is_static,
            !r.is_extern,
            r.doc is None,
    {
        Variable { name, ty, value: Some(val), is_static: false, is_extern: false, doc: None }
    }

    /// A copy of the type of the variable.
    pub fn to_type(&self) -> (r: Type)
        ensures
            r.same_base(self.ty),
            r.mods@ == self.ty.mods@,
            r.nptr == self.ty.nptr,
            r.is_const == self.ty.is_const,
            r.is_volatile == self.ty.is_volatile,
            type_text(r) == type_text(self.ty),
    {
        self.ty.clone()
    }

    /// A reference to the type of the variable.
    pub fn as_type(&self) -> (r: &Type)
        ensures
            *r == self.ty,
    {
        &self.ty
    }

    /// Adds a string to the documentation comment of the variable.
    pub fn push_doc_str(&mut self, doc: &str) -> (r: &mut Self)
        ensures
            r.name == old(self).name,
            r.ty == old(self).ty,
            r.value == old(self).value,
            r.is_static == old(self).is_static,
            r.is_extern == old(self).is_extern,
            opt_doc_lines(r.doc) == opt_doc_lines(old(self).doc) + add_text_entries(doc@),
            *final(self) == *final(r),
    {
        doc_add_text(&mut self.doc, doc);
        self
    }

    /// Replaces the documentation comment of the variable.
    pub fn doc(&mut self, doc: Doc) -> (r: &mut Self)
        ensures
            *r == (Variable { doc: Some(doc), ..*old(self) }),
            *final(self) == *final(r),
    {
        self.doc = Some(doc);
        self
    }

    /// Toggles the static storage class; setting it clears the external
    /// linkage marker.
    pub fn toggle_static(&mut self, val: bool) -> (r: &mut Self)
        ensures
            r.name == old(self).name,
            r.ty == old(self).ty,
            r.value == old(self).value,
            r.doc == old(self).doc,
            r.is_static == val,
            r.is_extern == (if val {
                false
            } else {
                old(self).is_extern
            }),
            *final(self) == *final(r),
    {
        if val {
            self.is_extern = false;
        }
        self.is_static = val;
        self
    }

    /// Makes the variable static.
    pub fn set_static(&mut self) -> (r: &mut Self)
        ensures
            r.name == old(self).name,
            r.ty == old(self).ty,
            r.value == old(self).value,
            r.doc == old(self).doc,
            r.is_static == true,
            r.is_extern == false,
            *final(self) == *final(r),
    {
        self.toggle_static(true)
    }

    /// Toggles the external linkage marker; setting it clears the static
    /// storage class.
    pub fn toggle_extern(&mut self, val: bool) -> (r: &mut Self)
        ensures
            r.name == old(self).name,
            r.ty == old(self).ty,
            r.value == old(self).value,
            r.doc == old(self).doc,
            r.is_extern == val,
            r.is_static == (if val {
                false
            } else {
                old(self).is_static
            }),
            *final(self) == *final(r),
    {
        if val {
            self.is_static = false;
        }
        self.is_extern = val;
        self
    }

    /// Marks the variable as having external linkage.
    pub fn set_extern(&mut self) -> (r: &mut Self)
        ensures
            r.name == old(self).name,
            r.ty == old(self).ty,
            r.value == old(self).value,
            r.doc == old(self).doc,
            r.is_extern == true,
            r.is_static == false,
            *final(self) == *final(r),
    {
        self.toggle_extern(true)
    }

    /// Sets the initializer value of the variable.
    pub fn set_value(&mut self, val: Expr) -> (r: &mut Self)
        ensures
            *r == (Variable { value: Some(val), ..*old(self) }),
            *final(self) == *final(r),
    {
        self.value = Some(val);
        self
    }

    /// Sets the initializer of the variable to a raw token.
    pub fn set_value_raw(&mut self, val: &str) -> (r: &mut Self)
        ensures
            r.name == old(self).name,
            r.ty == old(self).ty,
            r.doc == old(self).doc,
            r.is_static == old(self).is_static,
            r.is_extern == old(self).is_extern,
            r.value matches Some(e) && expr_text(e) == val@,
            *final(self) == *final(r),
    {
        self.set_value(Expr::Raw(val.to_owned()))
    }

    /// Writes the full variable statement through the formatter; declaration
    /// mode leaves the initializer out.
    pub fn do_fmt(&self, fmt: &mut Formatter, decl_only: bool)
        ensures
            final(fmt).out@ == old(fmt).out@ + written(
                var_stmt_flat(*self, decl_only),
                old(fmt).spaces as nat,
                line_start(old(fmt).out@),
            ),
            final(fmt).spaces == old(fmt).spaces,
            final(fmt).scopes == old(fmt).scopes,
    {
        let mut s = String::new();
        self.push_head_flat(&mut s);
        match &self.value {
            Some(e) => {
                if !decl_only && !self.is_extern {
                    s.append(" = ");
                    e.push_text(&mut s);
                }
            },
            None => {},
        }
        s.append(";\n");
        proof {
            assert(s@ =~= Seq::<char>::empty() + var_stmt_flat(*self, decl_only));
            assert(s@ =~= var_stmt_flat(*self, decl_only));
        }
        fmt.write_str(s.as_str());
    }

    /// Appends documentation, prefix, type and name to `s`.
    fn push_head_flat(&self, s: &mut String)
        ensures
            final(s)@ == old(s)@ + var_flat(*self),
    {
        push_opt_doc(&self.doc, s);
        if self.is_extern {
            s.append("extern ");
        }
        if self.is_static {
            s.append("static ");
        }
        self.ty.push_text(s);
        s.append(" ");
        s.append(self.name.as_str());
        proof {
            assert(s@ =~= old(s)@ + var_flat(*self));
        }
    }

    /// Writes documentation, prefix, type and name through the formatter,
    /// with no initializer and no closing `;`.
    pub fn fmt(&self, fmt: &mut Formatter)
        ensures
            final(fmt).out@ == old(fmt).out@ + written(
                var_flat(*self),
                old(fmt).spaces as nat,
                line_start(old(fmt).out@),
            ),
            final(fmt).spaces == old(fmt).spaces,
            final(fmt).scopes == old(fmt).scopes,
    {
        let mut s = String::new();
        self.push_head_flat(&mut s);
        proof {
            assert(Seq::<char>::empty() + var_flat(*self) =~= var_flat(*self));
        }
        fmt.write_str(s.as_str());
    }
}

} // verus!
