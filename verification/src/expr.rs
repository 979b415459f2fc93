//! Expressions of the generated code: a recursive tree of variables,
//! literals, calls, member accesses and operators that renders itself to
//! flat text, choosing between `.` and `->` by the pointer-ness of the
//! receiver.

use vstd::prelude::*;

use crate::formatter::Formatter;
use crate::formatter::line_start;
use crate::formatter::written;
use crate::text::hex_text;
use crate::text::push_hex;
use crate::types::Type;
use crate::types::type_is_ptr;
use crate::types::type_is_struct;
use crate::types::type_text;

verus! {

/// An expression of the generated code.
#[derive(Debug)]
pub enum Expr {
    /// a variable with a given type.
    Variable { name: String, ty: Type },
    /// a numeric constant, rendered in hexadecimal.
    ConstNum(u64),
    /// a string constant, rendered double-quoted and unescaped.
    ConstString(String),
    /// a boolean constant.
    ConstBool(bool),
    /// a `new` object construction.
    NewObject { name: String, args: Vec<Expr> },
    /// a `delete[]` disposal.
    DeleteObject { var: Box<Expr> },
    /// a function call.
    FnCall { name: String, args: Vec<Expr> },
    /// a method call; the flag records whether the receiver is a pointer.
    MethodCall { var: Box<Expr>, method: String, args: Vec<Expr>, is_ptr: bool },
    /// the dereference operator `*(expr)`.
    Deref(Box<Expr>),
    /// the address-of operator `&(expr)`.
    AddrOf(Box<Expr>),
    /// the size-of operator `sizeof(expr)`.
    SizeOf(Box<Expr>),
    /// a field access; the flag records whether the receiver is a pointer.
    FieldAccess { var: Box<Expr>, field: String, is_ptr: bool },
    /// an array element access.
    ArrayElementAccess { var: Box<Expr>, idx: Box<Expr>, is_ptr: bool },
    /// a binary operation `(lhs op rhs)`.
    BinOp { lhs: Box<Expr>, rhs: Box<Expr>, op: String },
    /// a unary operation `op(expr)`.
    UnOp { expr: Box<Expr>, op: String },
    /// a conditional ternary expression.
    Ternary { cond: Box<Expr>, then_expr: Box<Expr>, other_expr: Box<Expr> },
    /// a cast `(type)(expr)`.
    Cast { expr: Box<Expr>, ty: Type },
    /// a raw expression token, passed through verbatim.
    Raw(String),
}

/// The member access spelling for a receiver: `->` behind a pointer, `.`
/// otherwise.
pub open spec fn member_sep(receiver_is_ptr: bool) -> Seq<char> {
    if receiver_is_ptr {
        "->"@
    } else {
        "."@
    }
}

/// Whether an expression yields a pointer value.  A dereference asks its
/// inner expression, so the answer is total and never aborts; member and
/// array accesses answer from their explicit flag.
pub open spec fn expr_is_ptr(e: Expr) -> bool
    decreases e,
{
    match e {
        Expr::Variable { ty, .. } => type_is_ptr(ty),
        Expr::Deref(inner) => expr_is_ptr(*inner),
        Expr::AddrOf(_) => true,
        Expr::Raw(_) => true,
        Expr::NewObject { .. } => true,
        Expr::MethodCall { is_ptr, .. } => is_ptr,
        Expr::FieldAccess { is_ptr, .. } => is_ptr,
        Expr::ArrayElementAccess { is_ptr, .. } => is_ptr,
        Expr::Cast { ty, .. } => type_is_ptr(ty),
        _ => false,
    }
}

/// Whether an expression yields a value of structured type.
pub open spec fn expr_is_struct(e: Expr) -> bool {
    match e {
        Expr::Variable { ty, .. } => type_is_struct(ty),
        Expr::Cast { ty, .. } => type_is_struct(ty),
        Expr::NewObject { .. } => true,
        Expr::Raw(_) => true,
        _ => false,
    }
}

/// The flat text of an expression.
pub open spec fn expr_text(e: Expr) -> Seq<char>
    decreases e, 1nat,
{
    match e {
        Expr::Variable { name, .. } => name@,
        Expr::ConstNum(x) => "0x"@ + hex_text(x as nat),
        Expr::ConstString(x) => "\""@ + x@ + "\""@,
        Expr::ConstBool(b) => if b {
            "true"@
        } else {
            "false"@
        },
        Expr::NewObject { name, args } => "new "@ + name@ + "("@ + args_text(args@) + ")"@,
        Expr::DeleteObject { var } => "delete[] "@ + expr_text(*var),
        Expr::FnCall { name, args } => name@ + "("@ + args_text(args@) + ")"@,
        Expr::MethodCall { var, method, args, .. } => expr_text(*var) + member_sep(
            expr_is_ptr(*var),
        ) + method@ + "("@ + args_text(args@) + ")"@,
        Expr::Deref(inner) => "*("@ + expr_text(*inner) + ")"@,
        Expr::AddrOf(inner) => "&("@ + expr_text(*inner) + ")"@,
        Expr::SizeOf(inner) => "sizeof("@ + expr_text(*inner) + ")"@,
        Expr::FieldAccess { var, field, .. } => "("@ + expr_text(*var) + ")"@ + member_sep(
            expr_is_ptr(*var),
        ) + field@,
        Expr::ArrayElementAccess { var, idx, .. } => expr_text(*var) + "["@ + expr_text(*idx)
            + "]"@,
        Expr::BinOp { lhs, rhs, op } => "("@ + expr_text(*lhs) + " "@ + op@ + " "@ + expr_text(
            *rhs,
        ) + ")"@,
        Expr::UnOp { expr, op } => op@ + "("@ + expr_text(*expr) + ")"@,
        Expr::Ternary { cond, then_expr, other_expr } => "("@ + expr_text(*cond) + ") ? ("@
            + expr_text(*then_expr) + ") : ("@ + expr_text(*other_expr) + ")"@,
        Expr::Cast { expr, ty } => "("@ + type_text(ty) + ")("@ + expr_text(*expr) + ")"@,
        Expr::Raw(s) => s@,
    }
}

/// The flat text of an argument list: the arguments separated by `, `.
pub open spec fn args_text(args: Seq<Expr>) -> Seq<char>
    decreases args, 0nat,
{
    if args.len() == 0 {
        Seq::empty()
    } else if args.len() == 1 {
        expr_text(args[0])
    } else {
        args_text(args.subrange(0, args.len() - 1)) + ", "@ + expr_text(args[args.len() - 1])
    }
}

impl Expr {
    /// Checks whether the expression yields a pointer value; a dereference
    /// asks its inner expression, so the check is total.
    pub fn is_ptr(&self) -> (r: bool)
        ensures
            r == expr_is_ptr(*self),
        decreases *self,
    {
        match self {
            Expr::Variable { ty, .. } => ty.is_ptr(),
            Expr::Deref(inner) => inner.is_ptr(),
            Expr::AddrOf(_) => true,
            Expr::Raw(_) => true,
            Expr::NewObject { .. } => true,
            Expr::MethodCall { is_ptr, .. } => *is_ptr,
            Expr::FieldAccess { is_ptr, .. } => *is_ptr,
            Expr::ArrayElementAccess { is_ptr, .. } => *is_ptr,
            Expr::Cast { ty, .. } => ty.is_ptr(),
            _ => false,
        }
    }

    /// Checks whether the expression yields a value of structured type.
    pub fn is_struct(&self) -> (r: bool)
        ensures
            r == expr_is_struct(*self),
    {
        match self {
            Expr::Variable { ty, .. } => ty.is_struct(),
            Expr::Cast { ty, .. } => ty.is_struct(),
            Expr::NewObject { .. } => true,
            Expr::Raw(_) => true,
            _ => false,
        }
    }

    /// Appends the flat text of the expression to `s`.
    pub fn push_text(&self, s: &mut String)
        ensures
            final(s)@ == old(s)@ + expr_text(*self),
        decreases *self, 1nat,
    {
        match self {
            Expr::Variable { name, .. } => {
                s.append(name.as_str());
            },
            Expr::ConstNum(x) => {
                s.append("0x");
                push_hex(s, *x);
                proof {
                    assert(s@ =~= old(s)@ + expr_text(*self));
                }
            },
            Expr::ConstString(x) => {
                s.append("\"");
                s.append(x.as_str());
                s.append("\"");
                proof {
                    assert(s@ =~= old(s)@ + expr_text(*self));
                }
            },
            Expr::ConstBool(b) => {
                if *b {
                    s.append("true");
                } else {
                    s.append("false");
                }
            },
            Expr::NewObject { name, args } => {
                s.append("new ");
                s.append(name.as_str());
                s.append("(");
                proof {
                    assert(decreases_to!(*self => args@)) by {
                        assert(*args == self->NewObject_args);
                        assert(decreases_to!(*self => self->NewObject_args));
                        assert(decreases_to!(*args => args@));
                    }
                }
                push_args(s, args);
                s.append(")");
                proof {
                    assert(s@ =~= old(s)@ + expr_text(*self));
                }
            },
            Expr::DeleteObject { var } => {
                s.append("delete[] ");
                var.push_text(s);
                proof {
                    assert(s@ =~= old(s)@ + expr_text(*self));
                }
            },
            Expr::FnCall { name, args } => {
                s.append(name.as_str());
                s.append("(");
                proof {
                    assert(decreases_to!(*self => args@)) by {
                        assert(*args == self->FnCall_args);
                        assert(decreases_to!(*self => self->FnCall_args));
                        assert(decreases_to!(*args => args@));
                    }
                }
                push_args(s, args);
                s.append(")");
                proof {
                    assert(s@ =~= old(s)@ + expr_text(*self));
                }
            },
            Expr::MethodCall { var, method, args, .. } => {
                var.push_text(s);
                if var.is_ptr() {
                    s.append("->");
                } else {
                    s.append(".");
                }
                s.append(method.as_str());
                s.append("(");
                proof {
                    assert(decreases_to!(*self => args@)) by {
                        assert(*args == self->MethodCall_args);
                        assert(decreases_to!(*self => self->MethodCall_args));
                        assert(decreases_to!(*args => args@));
                    }
                }
                push_args(s, args);
                s.append(")");
                proof {
                    assert(s@ =~= old(s)@ + expr_text(*self));
                }
            },
            Expr::Deref(inner) => {
                s.append("*(");
                inner.push_text(s);
                s.append(")");
                proof {
                    assert(s@ =~= old(s)@ + expr_text(*self));
                }
            },
            Expr::AddrOf(inner) => {
                s.append("&(");
                inner.push_text(s);
                s.append(")");
                proof {
                    assert(s@ =~= old(s)@ + expr_text(*self));
                }
            },
            Expr::SizeOf(inner) => {
                s.append("sizeof(");
                inner.push_text(s);
                s.append(")");
                proof {
                    assert(s@ =~= old(s)@ + expr_text(*self));
                }
            },
            Expr::FieldAccess { var, field, .. } => {
                s.append("(");
                var.push_text(s);
                s.append(")");
                if var.is_ptr() {
                    s.append("->");
                } else {
                    s.append(".");
                }
                s.append(field.as_str());
                proof {
                    assert(s@ =~= old(s)@ + expr_text(*self));
                }
            },
            Expr::ArrayElementAccess { var, idx, .. } => {
                var.push_text(s);
                s.append("[");
                idx.push_text(s);
                s.append("]");
                proof {
                    assert(s@ =~= old(s)@ + expr_text(*self));
                }
            },
            Expr::BinOp { lhs, rhs, op } => {
                s.append("(");
                lhs.push_text(s);
                s.append(" ");
                s.append(op.as_str());
                s.append(" ");
                rhs.push_text(s);
                s.append(")");
                proof {
                    assert(s@ =~= old(s)@ + expr_text(*self));
                }
            },
            Expr::UnOp { expr, op } => {
                s.append(op.as_str());
                s.append("(");
                expr.push_text(s);
                s.append(")");
                proof {
                    assert(s@ =~= old(s)@ + expr_text(*self));
                }
            },
            Expr::Ternary { cond, then_expr, other_expr } => {
                s.append("(");
                cond.push_text(s);
                s.append(") ? (");
                then_expr.push_text(s);
                s.append(") : (");
                other_expr.push_text(s);
                s.append(")");
                proof {
                    assert(s@ =~= old(s)@ + expr_text(*self));
                }
            },
            Expr::Cast { expr, ty } => {
                s.append("(");
                ty.push_text(s);
                s.append(")(");
                expr.push_text(s);
                s.append(")");
                proof {
                    assert(s@ =~= old(s)@ + expr_text(*self));
                }
            },
            Expr::Raw(raw) => {
                s.append(raw.as_str());
            },
        }
    }

    /// Renders the flat text of the expression as a string.
    pub fn to_string(&self) -> (r: String)
        ensures
            r@ == expr_text(*self),
    {
        let mut s = String::new();
        self.push_text(&mut s);
        proof {
            assert(Seq::<char>::empty() + expr_text(*self) =~= expr_text(*self));
        }
        s
    }

    /// Writes the flat text of the expression through the formatter.
    pub fn fmt(&self, fmt: &mut Formatter)
        ensures
            final(fmt).out@ == old(fmt).out@ + written(
                expr_text(*self),
                old(fmt).spaces as nat,
                line_start(old(fmt).out@),
            ),
            final(fmt).spaces == old(fmt).spaces,
            final(fmt).scopes == old(fmt).scopes,
    {
        let s = self.to_string();
        fmt.write_str(s.as_str());
    }
}

impl Expr {
    /// Creates a string constant expression.
    pub fn new_str(s: &str) -> (r: Self)
        ensures
            expr_text(r) == "\""@ + s@ + "\""@,
            !expr_is_ptr(r),
            !expr_is_struct(r),
    {
        Expr::ConstString(s.to_owned())
    }

    /// Creates a numeric constant expression.
    pub fn new_num(n: u64) -> (r: Self)
        ensures
            expr_text(r) == "0x"@ + hex_text(n as nat),
            !expr_is_ptr(r),
            !expr_is_struct(r),
    {
        Expr::ConstNum(n)
    }

    /// Creates a variable reference expression of the given type.
    pub fn new_var(name: &str, ty: Type) -> (r: Self)
        ensures
            expr_text(r) == name@,
            expr_is_ptr(r) == type_is_ptr(ty),
            expr_is_struct(r) == type_is_struct(ty),
    {
        Expr::Variable { name: name.to_owned(), ty }
    }

    /// The constant `true`.
    pub fn btrue() -> (r: Self)
        ensures
            expr_text(r) == "true"@,
            !expr_is_ptr(r),
            !expr_is_struct(r),
    {
        Expr::ConstBool(true)
    }

    /// The constant `false`.
    pub fn bfalse() -> (r: Self)
        ensures
            expr_text(r) == "false"@,
            !expr_is_ptr(r),
            !expr_is_struct(r),
    {
        Expr::ConstBool(false)
    }

    /// Creates a unary operation on an expression.
    pub fn uop(op: &str, expr: Expr) -> (r: Self)
        ensures
            expr_text(r) == op@ + "("@ + expr_text(expr) + ")"@,
            !expr_is_ptr(r),
            !expr_is_struct(r),
    {
        Expr::UnOp { expr: Box::new(expr), op: op.to_owned() }
    }

    /// Creates a logical negation of an expression.
    pub fn lnot(expr: Expr) -> (r: Self)
        ensures
            expr_text(r) == "!"@ + "("@ + expr_text(expr) + ")"@,
            !expr_is_ptr(r),
            !expr_is_struct(r),
    {
        Expr::uop("!", expr)
    }

    /// Creates a binary operation on two expressions.
    pub fn binop(lhs: Expr, op: &str, rhs: Expr) -> (r: Self)
        ensures
            expr_text(r) == "("@ + expr_text(lhs) + " "@ + op@ + " "@ + expr_text(rhs) + ")"@,
            !expr_is_ptr(r),
            !expr_is_struct(r),
    {
        Expr::BinOp { lhs: Box::new(lhs), rhs: Box::new(rhs), op: op.to_owned() }
    }

    /// Creates a logical conjunction of two expressions.
    pub fn land(lhs: Expr, rhs: Expr) -> (r: Self)
        ensures
            expr_text(r) == "("@ + expr_text(lhs) + " "@ + "&&"@ + " "@ + expr_text(rhs) + ")"@,
            !expr_is_ptr(r),
            !expr_is_struct(r),
    {
        Self::binop(lhs, "&&", rhs)
    }

    /// Creates a conditional ternary expression.
    pub fn ternary(cond: Expr, then_expr: Expr, other_expr: Expr) -> (r: Self)
        ensures
            expr_text(r) == "("@ + expr_text(cond) + ") ? ("@ + expr_text(then_expr) + ") : ("@
                + expr_text(other_expr) + ")"@,
            !expr_is_ptr(r),
            !expr_is_struct(r),
    {
        Expr::Ternary {
            cond: Box::new(cond),
            then_expr: Box::new(then_expr),
            other_expr: Box::new(other_expr),
        }
    }

    /// A variable reference naming a function parameter.
    pub fn from_fn_param(p: &crate::param::FunctionParam) -> (r: Self)
        ensures
            expr_text(r) == p.name@,
            expr_is_ptr(r) == type_is_ptr(p.ty),
            expr_is_struct(r) == type_is_struct(p.ty),
    {
        p.to_expr()
    }

    /// A variable reference naming a method parameter.
    pub fn from_method_param(p: &crate::param::MethodParam) -> (r: Self)
        ensures
            expr_text(r) == p.name@,
            expr_is_ptr(r) == type_is_ptr(p.ty),
            expr_is_struct(r) == type_is_struct(p.ty),
    {
        p.to_expr()
    }

    /// A variable reference naming a class attribute.
    pub fn from_attribuge(p: &crate::attribute::Attribute) -> (r: Self)
        ensures
            expr_text(r) == p.name@,
            expr_is_ptr(r) == type_is_ptr(p.ty),
            expr_is_struct(r) == type_is_struct(p.ty),
    {
        p.to_expr()
    }

    /// The `this` pointer of the enclosing class.
    pub fn this() -> (r: Self)
        ensures
            expr_text(r) == "this"@,
            expr_is_ptr(r),
            expr_is_struct(r),
    {
        let ty = Type::new(crate::types::BaseType::Class("auto".to_owned()));
        Expr::Variable { name: "this".to_owned(), ty: ty.to_ptr() }
    }

    /// The null pointer constant.
    pub fn null() -> (r: Self)
        ensures
            expr_text(r) == "NULL"@,
            expr_is_ptr(r),
            !expr_is_struct(r),
    {
        let ty = Type::new(crate::types::BaseType::Void);
        Expr::Variable { name: "NULL".to_owned(), ty: ty.to_ptr() }
    }

    /// Creates a `new` object construction for a class.
    pub fn new(class: &str, args: Vec<Expr>) -> (r: Self)
        ensures
            expr_text(r) == "new "@ + class@ + "("@ + args_text(args@) + ")"@,
            expr_is_ptr(r),
            expr_is_struct(r),
    {
        Expr::NewObject { name: class.to_owned(), args }
    }

    /// Creates a `delete[]` disposal of an object.
    pub fn delete(var: Expr) -> (r: Self)
        ensures
            expr_text(r) == "delete[] "@ + expr_text(var),
            !expr_is_ptr(r),
            !expr_is_struct(r),
    {
        Expr::DeleteObject { var: Box::new(var) }
    }

    /// Takes the address of this expression.
    pub fn addr_of(&self) -> (r: Self)
        ensures
            expr_text(r) == "&("@ + expr_text(*self) + ")"@,
            expr_is_ptr(r),
            !expr_is_struct(r),
    {
        Expr::AddrOf(Box::new(self.clone()))
    }

    /// Takes the size of this expression.
    pub fn size_of(&self) -> (r: Self)
        ensures
            expr_text(r) == "sizeof("@ + expr_text(*self) + ")"@,
            !expr_is_ptr(r),
            !expr_is_struct(r),
    {
        Expr::SizeOf(Box::new(self.clone()))
    }

    /// Dereferences this expression; the result is a pointer exactly when
    /// the dereferenced expression still answers as one.
    pub fn deref(&self) -> (r: Self)
        ensures
            expr_text(r) == "*("@ + expr_text(*self) + ")"@,
            expr_is_ptr(r) == expr_is_ptr(*self),
            !expr_is_struct(r),
    {
        Expr::Deref(Box::new(self.clone()))
    }

    /// Accesses a field of this expression; the spelling of the access
    /// follows the receiver's pointer-ness.
    pub fn field_access(&self, field: &str) -> (r: Self)
        ensures
            expr_text(r) == "("@ + expr_text(*self) + ")"@ + member_sep(expr_is_ptr(*self))
                + field@,
            !expr_is_ptr(r),
            !expr_is_struct(r),
    {
        Expr::FieldAccess { var: Box::new(self.clone()), field: field.to_owned(), is_ptr: false }
    }

    /// Accesses an array element.
    pub fn array_access(var: &Expr, idx: &Expr) -> (r: Self)
        ensures
            expr_text(r) == expr_text(*var) + "["@ + expr_text(*idx) + "]"@,
            !expr_is_ptr(r),
            !expr_is_struct(r),
    {
        Expr::ArrayElementAccess {
            var: Box::new(var.clone()),
            idx: Box::new(idx.clone()),
            is_ptr: false,
        }
    }

    /// Calls a method on a receiver expression; the spelling of the access
    /// follows the receiver's pointer-ness.
    pub fn method_call(var: &Expr, method: &str, args: Vec<Expr>) -> (r: Self)
        ensures
            expr_text(r) == expr_text(*var) + member_sep(expr_is_ptr(*var)) + method@ + "("@
                + args_text(args@) + ")"@,
            !expr_is_ptr(r),
            !expr_is_struct(r),
    {
        Expr::MethodCall {
            var: Box::new(var.clone()),
            method: method.to_owned(),
            args,
            is_ptr: false,
        }
    }

    /// Calls a function by name.
    pub fn fn_call(name: &str, args: Vec<Expr>) -> (r: Self)
        ensures
            expr_text(r) == name@ + "("@ + args_text(args@) + ")"@,
            !expr_is_ptr(r),
            !expr_is_struct(r),
    {
        Expr::FnCall { name: name.to_owned(), args }
    }

    /// Casts this expression to the given type.
    pub fn cast_to(&self, ty: Type) -> (r: Self)
        ensures
            expr_text(r) == "("@ + type_text(ty) + ")("@ + expr_text(*self) + ")"@,
            expr_is_ptr(r) == type_is_ptr(ty),
            expr_is_struct(r) == type_is_struct(ty),
    {
        Expr::Cast { expr: Box::new(self.clone()), ty }
    }

    /// Marks a member or array access as going through a pointer; any other
    /// expression is left unchanged.  The rendered text never changes: the
    /// spelling of an access follows the receiver, not this flag.
    pub fn set_ptr(&mut self)
        ensures
            expr_text(*final(self)) == expr_text(*old(self)),
            expr_is_struct(*final(self)) == expr_is_struct(*old(self)),
            expr_is_ptr(*final(self)) == (if *old(self) is MethodCall || *old(self) is FieldAccess
                || *old(self) is ArrayElementAccess {
                true
            } else {
                expr_is_ptr(*old(self))
            }),
    {
        match self {
            Expr::MethodCall { is_ptr, .. } => {
                *is_ptr = true;
            },
            Expr::FieldAccess { is_ptr, .. } => {
                *is_ptr = true;
            },
            Expr::ArrayElementAccess { is_ptr, .. } => {
                *is_ptr = true;
            },
            _ => (),
        }
    }
}

impl Clone for Expr {
    /// Clones the expression; the copy renders to the same text and answers
    /// the pointer and struct questions as the original.
    fn clone(&self) -> (r: Self)
        ensures
            expr_text(r) == expr_text(*self),
            expr_is_ptr(r) == expr_is_ptr(*self),
            expr_is_struct(r) == expr_is_struct(*self),
        decreases *self, 1nat,
    {
        match self {
            Expr::Variable { name, ty } => Expr::Variable { name: name.clone(), ty: ty.clone() },
            Expr::ConstNum(x) => Expr::ConstNum(*x),
            Expr::ConstString(x) => Expr::ConstString(x.clone()),
            Expr::ConstBool(b) => Expr::ConstBool(*b),
            Expr::NewObject { name, args } => {
                proof {
                    assert(decreases_to!(*self => args@)) by {
                        assert(*args == self->NewObject_args);
                        assert(decreases_to!(*self => self->NewObject_args));
                        assert(decreases_to!(*args => args@));
                    }
                }
                let r = Expr::NewObject { name: name.clone(), args: clone_exprs(args) };
                proof {
                    assert(expr_text(r) == expr_text(*self));
                }
                r
            },
            Expr::DeleteObject { var } => Expr::DeleteObject { var: Box::new((**var).clone()) },
            Expr::FnCall { name, args } => {
                proof {
                    assert(decreases_to!(*self => args@)) by {
                        assert(*args == self->FnCall_args);
                        assert(decreases_to!(*self => self->FnCall_args));
                        assert(decreases_to!(*args => args@));
                    }
                }
                Expr::FnCall { name: name.clone(), args: clone_exprs(args) }
            },
            Expr::MethodCall { var, method, args, is_ptr } => {
                proof {
                    assert(decreases_to!(*self => args@)) by {
                        assert(*args == self->MethodCall_args);
                        assert(decreases_to!(*self => self->MethodCall_args));
                        assert(decreases_to!(*args => args@));
                    }
                }
                Expr::MethodCall {
                    var: Box::new((**var).clone()),
                    method: method.clone(),
                    args: clone_exprs(args),
                    is_ptr: *is_ptr,
                }
            },
            Expr::Deref(inner) => Expr::Deref(Box::new((**inner).clone())),
            Expr::AddrOf(inner) => Expr::AddrOf(Box::new((**inner).clone())),
            Expr::SizeOf(inner) => Expr::SizeOf(Box::new((**inner).clone())),
            Expr::FieldAccess { var, field, is_ptr } => Expr::FieldAccess {
                var: Box::new((**var).clone()),
                field: field.clone(),
                is_ptr: *is_ptr,
            },
            Expr::ArrayElementAccess { var, idx, is_ptr } => Expr::ArrayElementAccess {
                var: Box::new((**var).clone()),
                idx: Box::new((**idx).clone()),
                is_ptr: *is_ptr,
            },
            Expr::BinOp { lhs, rhs, op } => Expr::BinOp {
                lhs: Box::new((**lhs).clone()),
                rhs: Box::new((**rhs).clone()),
                op: op.clone(),
            },
            Expr::UnOp { expr, op } => Expr::UnOp {
                expr: Box::new((**expr).clone()),
                op: op.clone(),
            },
            Expr::Ternary { cond, then_expr, other_expr } => Expr::Ternary {
                cond: Box::new((**cond).clone()),
                then_expr: Box::new((**then_expr).clone()),
                other_expr: Box::new((**other_expr).clone()),
            },
            Expr::Cast { expr, ty } => Expr::Cast {
                expr: Box::new((**expr).clone()),
                ty: ty.clone(),
            },
            Expr::Raw(raw) => Expr::Raw(raw.clone()),
        }
    }
}

/// Clones a list of expressions; each copy renders and classifies as its
/// original, so the argument list renders to the same text.
#[verifier::loop_isolation(false)]
fn clone_exprs(v: &Vec<Expr>) -> (r: Vec<Expr>)
    ensures
        r@.len() == v@.len(),
        args_text(r@) == args_text(v@),
    decreases v@, 0nat,
{
    let mut r: Vec<Expr> = Vec::new();
    let mut i: usize = 0;
    while i < v.len()
        invariant
            i <= v.len(),
            r@.len() == i,
            forall|j: int|
                0 <= j < i ==> #[trigger] expr_text(r@[j]) == expr_text(v@[j]) && expr_is_ptr(
                    r@[j],
                ) == expr_is_ptr(v@[j]) && expr_is_struct(r@[j]) == expr_is_struct(v@[j]),
        decreases v.len() - i,
    {
        proof {
            assert(decreases_to!(v@, 0nat => v@[i as int], 1nat)) by {
                assert(decreases_to!(v@ => v@[i as int]));
            }
        }
        r.push(v[i].clone());
        i += 1;
    }
    proof {
        lemma_args_text_congruence(r@, v@);
    }
    r
}

/// Argument lists of pairwise equal-rendering expressions render to the
/// same text.
pub proof fn lemma_args_text_congruence(a: Seq<Expr>, b: Seq<Expr>)
    requires
        a.len() == b.len(),
        forall|i: int| 0 <= i < a.len() ==> #[trigger] expr_text(a[i]) == expr_text(b[i]),
    ensures
        args_text(a) == args_text(b),
    decreases a.len(),
{
    if a.len() > 1 {
        let a1 = a.subrange(0, a.len() - 1);
        let b1 = b.subrange(0, b.len() - 1);
        assert forall|i: int| 0 <= i < a1.len() implies #[trigger] expr_text(a1[i]) == expr_text(
            b1[i],
        ) by {
            assert(a1[i] == a[i]);
            assert(b1[i] == b[i]);
            assert(expr_text(a[i]) == expr_text(b[i]));
        }
        lemma_args_text_congruence(a1, b1);
        assert(expr_text(a[a.len() - 1]) == expr_text(b[b.len() - 1]));
    } else if a.len() == 1 {
        assert(expr_text(a[0]) == expr_text(b[0]));
    }
}

/// Law: a member access spells `.` behind a receiver that is not a pointer,
/// and `->` behind one that is; for a variable receiver this is decided by
/// the receiver's type, so a type with pointer count zero and no
/// pointer-like typedef base yields `.`, and a type with at least one
/// pointer modifier yields `->`.
pub proof fn lemma_member_access_spelling(e: Expr)
    requires
        e is FieldAccess,
    ensures
        e matches Expr::FieldAccess { var, field, .. } ==> expr_text(e) == "("@ + expr_text(*var)
            + ")"@ + member_sep(expr_is_ptr(*var)) + field@,
        e matches Expr::FieldAccess { var, field, .. } && (*var) matches Expr::Variable {
            ty,
            ..
        } ==> expr_is_ptr(*var) == (ty.nptr > 0 || crate::types::base_is_typedef_ptr(ty.base)),
        member_sep(false) == "."@,
        member_sep(true) == "->"@,
{
}

/// Appends a `, `-separated argument list to `s`.
#[verifier::loop_isolation(false)]
pub(crate) fn push_args(s: &mut String, args: &Vec<Expr>)
    ensures
        final(s)@ == old(s)@ + args_text(args@),
    decreases args@, 0nat,
{
    let mut i: usize = 0;
    proof {
        assert(args@.subrange(0, 0) =~= Seq::<Expr>::empty());
        assert(s@ + args_text(args@.subrange(0, 0)) =~= s@);
    }
    while i < args.len()
        invariant
            i <= args.len(),
            s@ == old(s)@ + args_text(args@.subrange(0, i as int)),
        decreases args.len() - i,
    {
        if i > 0 {
            s.append(", ");
        }
        proof {
            assert(decreases_to!(args@, 0nat => args@[i as int], 1nat)) by {
                assert(decreases_to!(args@ => args@[i as int]));
            }
        }
        args[i].push_text(s);
        proof {
            let cur = args@.subrange(0, i as int + 1);
            assert(cur.subrange(0, cur.len() - 1) =~= args@.subrange(0, i as int));
            assert(cur[cur.len() - 1] == args@[i as int]);
            assert(s@ =~= old(s)@ + args_text(cur));
        }
        i += 1;
    }
    proof {
        assert(args@.subrange(0, args@.len() as int) =~= args@);
    }
}

} // verus!
