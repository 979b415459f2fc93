//! Function and method parameters of the generated code.

use vstd::prelude::*;

use crate::doc::Doc;
use crate::doc::add_text_entries;
use crate::doc::doc_add_text;
use crate::doc::opt_doc_lines;
use crate::expr::Expr;
use crate::expr::expr_is_ptr;
use crate::expr::expr_is_struct;
use crate::expr::expr_text;
use crate::formatter::Formatter;
use crate::formatter::line_start;
use crate::formatter::written;
use crate::types::Type;
use crate::types::type_is_ptr;
use crate::types::type_is_struct;
use crate::types::type_text;

verus! {

/// A parameter of a C-style function.
#[derive(Debug)]
pub struct FunctionParam {
    /// The name of the parameter.
    pub name: String,
    /// The type of the parameter.
    pub ty: Type,
    /// The documentation comment of the parameter.
    pub doc: Option<Doc>,
}

/// The flat text of a function parameter: its type, a space, its name.
pub open spec fn fn_param_flat(p: FunctionParam) -> Seq<char> {
    type_text(p.ty) + " "@ + p.name@
}

impl FunctionParam {
    /// Creates a new parameter with the given name and type.
    pub fn new(name: &str, ty: Type) -> (r: Self)
        ensures
            r.name@ == name@,
            r.ty == ty,
            r.doc is None,
    {
        Self::with_string(name.to_owned(), ty)
    }

    /// Creates a new parameter, consuming the given name.
    pub fn with_string(name: String, ty: Type) -> (r: Self)
        ensures
            r.name@ == name@,
            r.ty == ty,
            r.doc is None,
    {
        FunctionParam { name, ty, doc: None }
    }

    /// The name of the parameter.
    pub fn name(&self) -> (r: &str)
        ensures
            r@ == self.name@,
    {
        self.name.as_str()
    }

    /// A reference to the type of the parameter.
    pub fn type_ref(&self) -> (r: &Type)
        ensures
            *r == self.ty,
    {
        &self.ty
    }

    /// A copy of the type of the parameter.
    pub fn to_type(&self) -> (r: Type)
        ensures
            r.same_base(self.ty),
            r.mods@ == self.ty.mods@,
            r.nptr == self.ty.nptr,
            r.is_const == self.ty.is_const,
            r.is_volatile == self.ty.is_volatile,
            type_text(r) == type_text(self.ty),
    {
        self.ty.clone()
    }

    /// A variable reference expression naming the parameter.
    pub fn to_expr(&self) -> (r: Expr)
        ensures
            expr_text(r) == self.name@,
            expr_is_ptr(r) == type_is_ptr(self.ty),
            expr_is_struct(r) == type_is_struct(self.ty),
    {
        Expr::Variable { name: self.name.clone(), ty: self.ty.clone() }
    }

    /// Adds a string to the documentation comment of the parameter.
    pub fn push_doc_str(&mut self, doc: &str) -> (r: &mut Self)
        ensures
            r.name == old(self).name,
            r.ty == old(self).ty,
            opt_doc_lines(r.doc) == opt_doc_lines(old(self).doc) + add_text_entries(doc@),
            *final(self) == *final(r),
    {
        doc_add_text(&mut self.doc, doc);
        self
    }

    /// Replaces the documentation comment of the parameter.
    pub fn doc(&mut self, doc: Doc) -> (r: &mut Self)
        ensures
            r.name == old(self).name,
            r.ty == old(self).ty,
            r.doc == Some(doc),
            *final(self) == *final(r),
    {
        self.doc = Some(doc);
        self
    }

    /// Appends the flat text of the parameter to `s`.
    pub fn push_flat(&self, s: &mut String)
        ensures
            final(s)@ == old(s)@ + fn_param_flat(*self),
    {
        self.ty.push_text(s);
        s.append(" ");
        s.append(self.name.as_str());
        proof {
            assert(s@ =~= old(s)@ + fn_param_flat(*self));
        }
    }

    /// Writes the parameter through the formatter.
    pub fn fmt(&self, fmt: &mut Formatter)
        ensures
            final(fmt).out@ == old(fmt).out@ + written(
                fn_param_flat(*self),
                old(fmt).spaces as nat,
                line_start(old(fmt).out@),
            ),
            final(fmt).spaces == old(fmt).spaces,
            final(fmt).scopes == old(fmt).scopes,
    {
        let mut s = String::new();
        self.push_flat(&mut s);
        proof {
            assert(Seq::<char>::empty() + fn_param_flat(*self) =~= fn_param_flat(*self));
        }
        fmt.write_str(s.as_str());
    }
}

/// A parameter of a C++ method, with an optional default value.
#[derive(Debug)]
pub struct MethodParam {
    /// The name of the parameter.
    pub name: String,
    /// The default value for the parameter, if any.
    pub default: Option<String>,
    /// The type of the parameter.
    pub ty: Type,
    /// The documentation comment of the parameter.
    pub doc: Option<Doc>,
}

/// The flat text of a method parameter: its type, a space, its name, and in
/// declaration mode its default value.
pub open spec fn method_param_flat(p: MethodParam, decl_only: bool) -> Seq<char> {
    type_text(p.ty) + " "@ + p.name@ + (match p.default {
        Some(d) => if decl_only {
            " = "@ + d@
        } else {
            Seq::<char>::empty()
        },
        None => Seq::<char>::empty(),
    })
}

impl MethodParam {
    /// Creates a new method parameter with the given name and type.
    pub fn new(name: &str, ty: Type) -> (r: Self)
        ensures
            r.name@ == name@,
            r.ty == ty,
            r.default is None,
            r.doc is None,
    {
        MethodParam { name: name.to_owned(), default: None, ty, doc: None }
    }

    /// The name of the parameter.
    pub fn name(&self) -> (r: &str)
        ensures
            r@ == self.name@,
    {
        self.name.as_str()
    }

    /// A reference to the type of the parameter.
    pub fn type_ref(&self) -> (r: &Type)
        ensures
            *r == self.ty,
    {
        &self.ty
    }

    /// A copy of the type of the parameter.
    pub fn to_type(&self) -> (r: Type)
        ensures
            r.same_base(self.ty),
            r.mods@ == self.ty.mods@,
            r.nptr == self.ty.nptr,
            r.is_const == self.ty.is_const,
            r.is_volatile == self.ty.is_volatile,
            type_text(r) == type_text(self.ty),
    {
        self.ty.clone()
    }

    /// A variable reference expression naming the parameter.
    pub fn to_expr(&self) -> (r: Expr)
        ensures
            expr_text(r) == self.name@,
            expr_is_ptr(r) == type_is_ptr(self.ty),
            expr_is_struct(r) == type_is_struct(self.ty),
    {
        Expr::Variable { name: self.name.clone(), ty: self.ty.clone() }
    }

    /// Adds a string to the documentation comment of the parameter.
    pub fn doc_str(&mut self, doc: &str) -> (r: &mut Self)
        ensures
            r.name == old(self).name,
            r.ty == old(self).ty,
            r.default == old(self).default,
            opt_doc_lines(r.doc) == opt_doc_lines(old(self).doc) + add_text_entries(doc@),
            *final(self) == *final(r),
    {
        doc_add_text(&mut self.doc, doc);
        self
    }

    /// Replaces the documentation comment of the parameter.
    pub fn doc(&mut self, doc: Doc) -> (r: &mut Self)
        ensures
            r.name == old(self).name,
            r.ty == old(self).ty,
            r.default == old(self).default,
            r.doc == Some(doc),
            *final(self) == *final(r),
    {
        self.doc = Some(doc);
        self
    }

    /// Sets the default value of the method parameter.
    pub fn set_default_value(&mut self, val: &str) -> (r: &mut Self)
        ensures
            r.name == old(self).name,
            r.ty == old(self).ty,
            r.doc == old(self).doc,
            r.default matches Some(d) && d@ == val@,
            *final(self) == *final(r),
    {
        self.default = Some(val.to_owned());
        self
    }

    /// Appends the flat text of the parameter to `s`, with the default value
    /// in declaration mode.
    pub fn push_flat(&self, s: &mut String, decl_only: bool)
        ensures
            final(s)@ == old(s)@ + method_param_flat(*self, decl_only),
    {
        self.ty.push_text(s);
        s.append(" ");
        s.append(self.name.as_str());
        match &self.default {
            Some(d) => {
                if decl_only {
                    s.append(" = ");
                    s.append(d.as_str());
                }
            },
            None => {},
        }
        proof {
            assert(s@ =~= old(s)@ + method_param_flat(*self, decl_only));
        }
    }

    /// Writes the parameter through the formatter, with the default value in
    /// declaration mode.
    pub fn do_fmt(&self, fmt: &mut Formatter, decl_only: bool)
        ensures
            final(fmt).out@ == old(fmt).out@ + written(
                method_param_flat(*self, decl_only),
                old(fmt).spaces as nat,
                line_start(old(fmt).out@),
            ),
            final(fmt).spaces == old(fmt).spaces,
            final(fmt).scopes == old(fmt).scopes,
    {
        let mut s = String::new();
        self.push_flat(&mut s, decl_only);
        proof {
            assert(Seq::<char>::empty() + method_param_flat(*self, decl_only) =~= method_param_flat(
                *self,
                decl_only,
            ));
        }
        fmt.write_str(s.as_str());
    }

    /// Writes the parameter through the formatter, without its default value.
    pub fn fmt(&self, fmt: &mut Formatter)
        ensures
            final(fmt).out@ == old(fmt).out@ + written(
                method_param_flat(*self, false),
                old(fmt).spaces as nat,
                line_start(old(fmt).out@),
            ),
            final(fmt).spaces == old(fmt).spaces,
            final(fmt).scopes == old(fmt).scopes,
    {
        self.do_fmt(fmt, false)
    }
}

} // verus!
