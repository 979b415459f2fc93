//! Statements of the generated code, as used in method bodies: variable
//! declarations, calls, assignments, structured control flow and raw text.

use vstd::prelude::*;

use crate::expr::Expr;
use crate::expr::expr_text;
use crate::formatter::Formatter;
use crate::formatter::INDENT_STEP;
use crate::formatter::brace_open;
use crate::formatter::line_start;
use crate::formatter::lemma_line_start_concat;
use crate::formatter::lemma_out_assoc;
use crate::formatter::lemma_written_nst;
use crate::formatter::nst;
use crate::formatter::written;
use crate::types::Type;
use crate::types::type_text;

verus! {

/// A statement of the generated code.
#[derive(Debug)]
pub enum Stmt {
    /// a variable declaration.
    VarDecl { name: String, ty: Type, is_static: bool },
    /// an expression evaluated for effect, closed by `;`.
    FnCall(Expr),
    /// an assignment.
    Assign { lhs: Expr, rhs: Expr },
    /// a conditional with a then branch and an optional else branch.
    IfElse { cond: Expr, then_blk: Vec<Stmt>, other_blk: Vec<Stmt> },
    /// a while loop.
    WhileLoop { cond: Expr, body: Vec<Stmt> },
    /// a for loop.
    ForLoop { init: Expr, cond: Expr, step: Expr, body: Vec<Stmt> },
    /// a return, with an optional value.
    Return(Option<Expr>),
    /// a raw statement, closed by `;`.
    Raw(String),
}

/// A bound on the block nesting a statement opens, used to keep the
/// indentation within machine limits.
pub open spec fn stmt_size(s: Stmt) -> nat
    decreases s, 1nat,
{
    match s {
        Stmt::IfElse { then_blk, other_blk, .. } => 2 + stmts_size(then_blk@) + stmts_size(
            other_blk@,
        ),
        Stmt::WhileLoop { body, .. } => 2 + stmts_size(body@),
        Stmt::ForLoop { body, .. } => 2 + stmts_size(body@),
        _ => 2,
    }
}

/// The combined nesting bound of a list of statements.
pub open spec fn stmts_size(ss: Seq<Stmt>) -> nat
    decreases ss, 0nat,
{
    if ss.len() == 0 {
        0
    } else {
        stmt_size(ss[0]) + stmts_size(ss.subrange(1, ss.len() as int))
    }
}

/// Each statement's nesting bound is within the bound of any list holding
/// it.
pub proof fn lemma_stmts_size_elem(ss: Seq<Stmt>, i: int)
    requires
        0 <= i < ss.len(),
    ensures
        stmt_size(ss[i]) <= stmts_size(ss),
    decreases ss.len(),
{
    if i > 0 {
        lemma_stmts_size_elem(ss.subrange(1, ss.len() as int), i - 1);
    }
}

/// The head of a conditional.
pub open spec fn if_head(cond: Expr) -> Seq<char> {
    "if ("@ + expr_text(cond) + ")"@
}

/// The head of a while loop.
pub open spec fn while_head(cond: Expr) -> Seq<char> {
    "while ("@ + expr_text(cond) + ")"@
}

/// The head of a for loop.
pub open spec fn for_head(init: Expr, cond: Expr, step: Expr) -> Seq<char> {
    "for ("@ + expr_text(init) + "; "@ + expr_text(cond) + "; "@ + expr_text(step) + ")"@
}

/// The rendered text of one statement at indentation `ind` with line-start
/// state `st`.
pub open spec fn stmt_text(s: Stmt, ind: nat, st: bool) -> Seq<char>
    decreases s, 1nat,
{
    match s {
        Stmt::VarDecl { name, ty, is_static } => written(
            (if is_static {
                "static "@
            } else {
                Seq::<char>::empty()
            }) + type_text(ty) + " "@ + name@ + ";\n"@,
            ind,
            st,
        ),
        Stmt::FnCall(e) => written(expr_text(e) + ";\n"@, ind, st),
        Stmt::Assign { lhs, rhs } => written(
            expr_text(lhs) + " = "@ + expr_text(rhs) + ";\n"@,
            ind,
            st,
        ),
        Stmt::Return(v) => written(
            match v {
                Some(e) => "return "@ + expr_text(e) + ";\n"@,
                None => "return;\n"@,
            },
            ind,
            st,
        ),
        Stmt::Raw(v) => written(v@ + ";\n"@, ind, st),
        Stmt::IfElse { cond, then_blk, other_blk } => {
            let head = if_head(cond);
            let st1 = nst(head, st);
            written(head, ind, st) + written(brace_open(st1), ind, st1) + stmts_text(
                then_blk@,
                (ind + INDENT_STEP) as nat,
            ) + written("}\n"@, ind, true) + (if other_blk@.len() > 0 {
                written(" else "@, ind, true) + written(" {\n"@, ind, false) + stmts_text(
                    other_blk@,
                    (ind + INDENT_STEP) as nat,
                ) + written("}\n"@, ind, true)
            } else {
                Seq::<char>::empty()
            }) + written("\n"@, ind, true)
        },
        Stmt::WhileLoop { cond, body } => {
            let head = while_head(cond);
            let stw = nst(head, true);
            written(brace_open(st), ind, st) + written(head, (ind + INDENT_STEP) as nat, true) + (
            if body@.len() > 0 {
                written(brace_open(stw), (ind + INDENT_STEP) as nat, stw) + stmts_text(
                    body@,
                    (ind + 2 * INDENT_STEP) as nat,
                ) + written("}\n"@, (ind + INDENT_STEP) as nat, true)
            } else {
                written(";\n"@, (ind + INDENT_STEP) as nat, stw)
            }) + written("}\n"@, ind, true)
        },
        Stmt::ForLoop { init, cond, step, body } => {
            let head = for_head(init, cond, step);
            let st1 = nst(head, st);
            written(head, ind, st) + (if body@.len() > 0 {
                written(brace_open(st1), ind, st1) + stmts_text(
                    body@,
                    (ind + INDENT_STEP) as nat,
                ) + written("}\n"@, ind, true)
            } else {
                written(";\n"@, ind, st1)
            })
        },
    }
}

/// The rendered text of a run of statements, each beginning at the start of
/// a line at indentation `ind`.
pub open spec fn stmts_text(ss: Seq<Stmt>, ind: nat) -> Seq<char>
    decreases ss, 0nat,
{
    if ss.len() == 0 {
        Seq::empty()
    } else {
        stmts_text(ss.subrange(0, ss.len() - 1), ind) + stmt_text(ss[ss.len() - 1], ind, true)
    }
}

/// Every statement closes its last line, so a rendered statement leaves the
/// buffer at the start of a line.
pub proof fn lemma_stmt_text_line_start(s: Stmt, ind: nat, st: bool)
    ensures
        line_start(stmt_text(s, ind, st)),
        stmt_text(s, ind, st).len() > 0,
    decreases s,
{
    reveal_strlit(";\n");
    reveal_strlit("}\n");
    reveal_strlit("\n");
    reveal_strlit("return;\n");
    match s {
        Stmt::VarDecl { name, ty, is_static } => {
            let flat = (if is_static {
                "static "@
            } else {
                Seq::<char>::empty()
            }) + type_text(ty) + " "@ + name@ + ";\n"@;
            assert(flat.last() == '\n');
            lemma_written_nst(flat, ind, st);
        },
        Stmt::FnCall(e) => {
            let flat = expr_text(e) + ";\n"@;
            assert(flat.last() == '\n');
            lemma_written_nst(flat, ind, st);
        },
        Stmt::Assign { lhs, rhs } => {
            let flat = expr_text(lhs) + " = "@ + expr_text(rhs) + ";\n"@;
            assert(flat.last() == '\n');
            lemma_written_nst(flat, ind, st);
        },
        Stmt::Return(v) => {
            match v {
                Some(e) => {
                    let flat = "return "@ + expr_text(e) + ";\n"@;
                    assert(flat.last() == '\n');
                    lemma_written_nst(flat, ind, st);
                },
                None => {
                    let flat = "return;\n"@;
                    assert(flat.last() == '\n');
                    lemma_written_nst(flat, ind, st);
                },
            }
        },
        Stmt::Raw(v) => {
            let flat = v@ + ";\n"@;
            assert(flat.last() == '\n');
            lemma_written_nst(flat, ind, st);
        },
        Stmt::IfElse { cond, then_blk, other_blk } => {
            let head = if_head(cond);
            let st1 = nst(head, st);
            let pre = written(head, ind, st) + written(brace_open(st1), ind, st1) + stmts_text(
                then_blk@,
                (ind + INDENT_STEP) as nat,
            ) + written("}\n"@, ind, true) + (if other_blk@.len() > 0 {
                written(" else "@, ind, true) + written(" {\n"@, ind, false) + stmts_text(
                    other_blk@,
                    (ind + INDENT_STEP) as nat,
                ) + written("}\n"@, ind, true)
            } else {
                Seq::<char>::empty()
            });
            lemma_written_nst("\n"@, ind, true);
            lemma_line_start_concat(pre, written("\n"@, ind, true));
        },
        Stmt::WhileLoop { cond, body } => {
            let head = while_head(cond);
            let stw = nst(head, true);
            let pre = written(brace_open(st), ind, st) + written(
                head,
                (ind + INDENT_STEP) as nat,
                true,
            ) + (if body@.len() > 0 {
                written(brace_open(stw), (ind + INDENT_STEP) as nat, stw) + stmts_text(
                    body@,
                    (ind + 2 * INDENT_STEP) as nat,
                ) + written("}\n"@, (ind + INDENT_STEP) as nat, true)
            } else {
                written(";\n"@, (ind + INDENT_STEP) as nat, stw)
            });
            lemma_written_nst("}\n"@, ind, true);
            lemma_line_start_concat(pre, written("}\n"@, ind, true));
        },
        Stmt::ForLoop { init, cond, step, body } => {
            let head = for_head(init, cond, step);
            let st1 = nst(head, st);
            if body@.len() > 0 {
                let pre = written(head, ind, st) + written(brace_open(st1), ind, st1)
                    + stmts_text(body@, (ind + INDENT_STEP) as nat);
                lemma_written_nst("}\n"@, ind, true);
                lemma_line_start_concat(pre, written("}\n"@, ind, true));
                assert(stmt_text(s, ind, st) =~= pre + written("}\n"@, ind, true));
            } else {
                lemma_written_nst(";\n"@, ind, st1);
                lemma_line_start_concat(written(head, ind, st), written(";\n"@, ind, st1));
                assert(stmt_text(s, ind, st) =~= written(head, ind, st) + written(
                    ";\n"@,
                    ind,
                    st1,
                ));
            }
        },
    }
}

impl Stmt {
    /// Creates a local variable declaration statement.
    pub fn localvar(name: &str, ty: Type) -> (r: Self)
        ensures
            r matches Stmt::VarDecl { name: n, ty: t, is_static } && n@ == name@ && t == ty
                && !is_static,
    {
        Stmt::VarDecl { name: name.to_owned(), ty, is_static: false }
    }

    /// Creates a static variable declaration statement.
    pub fn staticvar(name: &str, ty: Type) -> (r: Self)
        ensures
            r matches Stmt::VarDecl { name: n, ty: t, is_static } && n@ == name@ && t == ty
                && is_static,
    {
        Stmt::VarDecl { name: name.to_owned(), ty, is_static: true }
    }

    /// Creates a statement evaluating an expression for effect.
    pub fn fn_call(expr: Expr) -> (r: Self)
        ensures
            r == Stmt::FnCall(expr),
    {
        Stmt::FnCall(expr)
    }

    /// Creates a bare return statement.
    pub fn retnone() -> (r: Self)
        ensures
            r == Stmt::Return(None),
    {
        Stmt::Return(None)
    }

    /// Creates a return statement with a value.
    pub fn retval(expr: &Expr) -> (r: Self)
        ensures
            r matches Stmt::Return(v) && v matches Some(e) && expr_text(e) == expr_text(*expr),
    {
        Stmt::Return(Some(expr.clone()))
    }

    /// Creates a conditional without an else branch.
    pub fn ifthen(cond: Expr, then_blk: Vec<Stmt>) -> (r: Self)
        ensures
            r matches Stmt::IfElse { cond: c, then_blk: t, other_blk: o } && c == cond && t
                == then_blk && o@ == Seq::<Stmt>::empty(),
    {
        Self::ifthenelse(cond, then_blk, Vec::new())
    }

    /// Creates a conditional with both branches.
    pub fn ifthenelse(cond: Expr, then_blk: Vec<Stmt>, other_blk: Vec<Stmt>) -> (r: Self)
        ensures
            r == (Stmt::IfElse { cond, then_blk, other_blk }),
    {
        Stmt::IfElse { cond, then_blk, other_blk }
    }

    /// Writes the statement through the formatter.
    #[verifier::rlimit(100)]
    #[verifier::spinoff_prover]
    pub fn fmt(&self, fmt: &mut Formatter)
        requires
            old(fmt).spaces + INDENT_STEP * stmt_size(*self) <= usize::MAX,
        ensures
            final(fmt).out@ == old(fmt).out@ + stmt_text(
                *self,
                old(fmt).spaces as nat,
                line_start(old(fmt).out@),
            ),
            final(fmt).spaces == old(fmt).spaces,
            final(fmt).scopes == old(fmt).scopes,
        decreases *self, 1nat,
    {
        let ghost ind = fmt.spaces as nat;
        let ghost st0 = line_start(fmt.out@);
        match self {
            Stmt::VarDecl { name, ty, is_static } => {
                let mut s = String::new();
                if *is_static {
                    s.append("static ");
                }
                ty.push_text(&mut s);
                s.append(" ");
                s.append(name.as_str());
                s.append(";\n");
                proof {
                    assert(s@ =~= (if *is_static {
                        "static "@
                    } else {
                        Seq::<char>::empty()
                    }) + type_text(*ty) + " "@ + name@ + ";\n"@);
                }
                fmt.write_str(s.as_str());
            },
            Stmt::FnCall(e) => {
                let mut s = String::new();
                e.push_text(&mut s);
                s.append(";\n");
                proof {
                    assert(s@ =~= expr_text(*e) + ";\n"@);
                }
                fmt.write_str(s.as_str());
            },
            Stmt::Assign { lhs, rhs } => {
                let mut s = String::new();
                lhs.push_text(&mut s);
                s.append(" = ");
                rhs.push_text(&mut s);
                s.append(";\n");
                proof {
                    assert(s@ =~= expr_text(*lhs) + " = "@ + expr_text(*rhs) + ";\n"@);
                }
                fmt.write_str(s.as_str());
            },
            Stmt::Return(v) => {
                let mut s = String::new();
                match v {
                    Some(e) => {
                        s.append("return ");
                        e.push_text(&mut s);
                        s.append(";\n");
                        proof {
                            assert(s@ =~= "return "@ + expr_text(*e) + ";\n"@);
                        }
                    },
                    None => {
                        s.append("return;\n");
                    },
                }
                fmt.write_str(s.as_str());
            },
            Stmt::Raw(v) => {
                let mut s = String::new();
                s.append(v.as_str());
                s.append(";\n");
                proof {
                    assert(s@ =~= v@ + ";\n"@);
                }
                fmt.write_str(s.as_str());
            },
            Stmt::IfElse { cond, then_blk, other_blk } => {
                proof {
                    assert(decreases_to!(*self, 1nat => *self, 0nat));
                }
                fmt_ifelse(fmt, cond, then_blk, other_blk, Ghost(*self));
            },
            Stmt::WhileLoop { cond, body } => {
                proof {
                    assert(decreases_to!(*self, 1nat => *self, 0nat));
                }
                fmt_while(fmt, cond, body, Ghost(*self));
            },
            Stmt::ForLoop { init, cond, step, body } => {
                proof {
                    assert(decreases_to!(*self, 1nat => *self, 0nat));
                }
                fmt_forloop(fmt, init, cond, step, body, Ghost(*self));
            },
        }
    }
}

/// Writes a conditional statement through the formatter.
#[verifier::rlimit(60)]
#[verifier::spinoff_prover]
fn fmt_ifelse(
    fmt: &mut Formatter,
    cond: &Expr,
    then_blk: &Vec<Stmt>,
    other_blk: &Vec<Stmt>,
    g: Ghost<Stmt>,
)
    requires
        g@ matches Stmt::IfElse { cond: c, then_blk: t, other_blk: o } && c == *cond && t
            == *then_blk && o == *other_blk,
        old(fmt).spaces + INDENT_STEP * stmt_size(g@) <= usize::MAX,
    ensures
        final(fmt).out@ == old(fmt).out@ + stmt_text(
            g@,
            old(fmt).spaces as nat,
            line_start(old(fmt).out@),
        ),
        final(fmt).spaces == old(fmt).spaces,
        final(fmt).scopes == old(fmt).scopes,
    decreases g@, 0nat,
{
    let ghost ind = fmt.spaces as nat;
    let ghost ind4 = (ind + INDENT_STEP) as nat;
    let ghost st0 = line_start(fmt.out@);
    let ghost out0 = fmt.out@;
    proof {
        assert(decreases_to!(g@, 0nat => then_blk@, 0nat)) by {
            assert(*then_blk == g@->IfElse_then_blk);
            assert(decreases_to!(g@ => g@->IfElse_then_blk));
            assert(decreases_to!(*then_blk => then_blk@));
        }
        assert(decreases_to!(g@, 0nat => other_blk@, 0nat)) by {
            assert(*other_blk == g@->IfElse_other_blk);
            assert(decreases_to!(g@ => g@->IfElse_other_blk));
            assert(decreases_to!(*other_blk => other_blk@));
        }
    }
    let ghost st1 = nst(if_head(*cond), st0);
    let ghost h = written(if_head(*cond), ind, st0);
    let ghost b = written(brace_open(st1), ind, st1);
    let ghost t = stmts_text(then_blk@, ind4);
    let ghost c = written("}\n"@, ind, true);
    let ghost n = written("\n"@, ind, true);
    let mut head = String::new();
    head.append("if (");
    cond.push_text(&mut head);
    head.append(")");
    proof {
        assert(head@ =~= if_head(*cond));
    }
    fmt.write_str(head.as_str());
    proof {
        lemma_written_nst(if_head(*cond), ind, st0);
        lemma_line_start_concat(out0, h);
    }
    fmt.block_open();
    proof {
        lemma_out_assoc(out0, h, b);
    }
    fmt_stmts(fmt, then_blk);
    proof {
        lemma_out_assoc(out0, h + b, t);
    }
    fmt.block_close();
    proof {
        lemma_out_assoc(out0, h + b + t, c);
    }
    let ghost pre4 = h + b + t + c;
    if other_blk.len() > 0 {
        let ghost el = written(" else "@, ind, true);
        fmt.write_str(" else ");
        proof {
            lemma_out_assoc(out0, pre4, el);
            reveal_strlit(" else ");
            lemma_written_nst(" else "@, ind, true);
            lemma_line_start_concat(out0 + pre4, el);
            assert(!line_start(fmt.out@));
        }
        let ghost b2 = written(" {\n"@, ind, false);
        fmt.block_open();
        proof {
            assert(brace_open(false) == " {\n"@);
            lemma_out_assoc(out0, pre4 + el, b2);
        }
        fmt_stmts(fmt, other_blk);
        let ghost t2 = stmts_text(other_blk@, ind4);
        proof {
            lemma_out_assoc(out0, pre4 + el + b2, t2);
        }
        fmt.block_close();
        let ghost c2 = written("}\n"@, ind, true);
        proof {
            lemma_out_assoc(out0, pre4 + el + b2 + t2, c2);
            lemma_out_assoc(pre4, el, b2);
            lemma_out_assoc(pre4, el + b2, t2);
            lemma_out_assoc(pre4, el + b2 + t2, c2);
            assert(fmt.out@ == out0 + (pre4 + (el + b2 + t2 + c2)));
        }
        fmt.write_str("\n");
        proof {
            lemma_out_assoc(out0, pre4 + (el + b2 + t2 + c2), n);
            assert(stmt_text(g@, ind, st0) == pre4 + (el + b2 + t2 + c2) + n);
        }
    } else {
        fmt.write_str("\n");
        proof {
            lemma_out_assoc(out0, pre4, n);
            assert(pre4 + Seq::<char>::empty() =~= pre4);
            assert(stmt_text(g@, ind, st0) == pre4 + Seq::<char>::empty() + n);
        }
    }
}

/// Writes a while loop statement through the formatter.
#[verifier::rlimit(60)]
#[verifier::spinoff_prover]
fn fmt_while(fmt: &mut Formatter, cond: &Expr, body: &Vec<Stmt>, g: Ghost<Stmt>)
    requires
        g@ matches Stmt::WhileLoop { cond: c, body: b } && c == *cond && b == *body,
        old(fmt).spaces + INDENT_STEP * stmt_size(g@) <= usize::MAX,
    ensures
        final(fmt).out@ == old(fmt).out@ + stmt_text(
            g@,
            old(fmt).spaces as nat,
            line_start(old(fmt).out@),
        ),
        final(fmt).spaces == old(fmt).spaces,
        final(fmt).scopes == old(fmt).scopes,
    decreases g@, 0nat,
{
    let ghost ind = fmt.spaces as nat;
    let ghost ind4 = (ind + INDENT_STEP) as nat;
    let ghost ind8 = (ind + 2 * INDENT_STEP) as nat;
    let ghost st0 = line_start(fmt.out@);
    let ghost out0 = fmt.out@;
    proof {
        assert(decreases_to!(g@, 0nat => body@, 0nat)) by {
            assert(*body == g@->WhileLoop_body);
            assert(decreases_to!(g@ => g@->WhileLoop_body));
            assert(decreases_to!(*body => body@));
        }
    }
    let ghost a = written(brace_open(st0), ind, st0);
    let ghost h = written(while_head(*cond), ind4, true);
    let ghost stw = nst(while_head(*cond), true);
    let ghost z = written("}\n"@, ind, true);
    fmt.block_open();
    let mut head = String::new();
    head.append("while (");
    cond.push_text(&mut head);
    head.append(")");
    proof {
        assert(head@ =~= while_head(*cond));
    }
    let ghost pre1 = fmt.out@;
    fmt.write_str(head.as_str());
    proof {
        lemma_out_assoc(out0, a, h);
        lemma_written_nst(while_head(*cond), ind4, true);
        lemma_line_start_concat(pre1, h);
    }
    if body.len() > 0 {
        let ghost b = written(brace_open(stw), ind4, stw);
        let ghost t = stmts_text(body@, ind8);
        let ghost c = written("}\n"@, ind4, true);
        fmt.block_open();
        proof {
            lemma_out_assoc(out0, a + h, b);
        }
        fmt_stmts(fmt, body);
        proof {
            lemma_out_assoc(out0, a + h + b, t);
        }
        fmt.block_close();
        proof {
            lemma_out_assoc(out0, a + h + b + t, c);
            lemma_out_assoc(a + h, b, t);
            lemma_out_assoc(a + h, b + t, c);
            assert(fmt.out@ == out0 + (a + h + (b + t + c)));
        }
        fmt.block_close();
        proof {
            lemma_out_assoc(out0, a + h + (b + t + c), z);
            assert(stmt_text(g@, ind, st0) == a + h + (b + t + c) + z);
        }
    } else {
        let ghost sc = written(";\n"@, ind4, stw);
        let ghost pre2 = fmt.out@;
        fmt.write_str(";\n");
        proof {
            lemma_out_assoc(out0, a + h, sc);
            reveal_strlit(";\n");
            lemma_written_nst(";\n"@, ind4, stw);
            lemma_line_start_concat(pre2, sc);
        }
        fmt.block_close();
        proof {
            lemma_out_assoc(out0, a + h + sc, z);
            assert(stmt_text(g@, ind, st0) == a + h + sc + z);
        }
    }
}

/// Writes a for loop statement through the formatter.
#[verifier::rlimit(60)]
#[verifier::spinoff_prover]
fn fmt_forloop(
    fmt: &mut Formatter,
    init: &Expr,
    cond: &Expr,
    step: &Expr,
    body: &Vec<Stmt>,
    g: Ghost<Stmt>,
)
    requires
        g@ matches Stmt::ForLoop { init: i, cond: c, step: s, body: b } && i == *init && c == *cond
            && s == *step && b == *body,
        old(fmt).spaces + INDENT_STEP * stmt_size(g@) <= usize::MAX,
    ensures
        final(fmt).out@ == old(fmt).out@ + stmt_text(
            g@,
            old(fmt).spaces as nat,
            line_start(old(fmt).out@),
        ),
        final(fmt).spaces == old(fmt).spaces,
        final(fmt).scopes == old(fmt).scopes,
    decreases g@, 0nat,
{
    let ghost ind = fmt.spaces as nat;
    let ghost ind4 = (ind + INDENT_STEP) as nat;
    let ghost st0 = line_start(fmt.out@);
    let ghost out0 = fmt.out@;
    proof {
        assert(decreases_to!(g@, 0nat => body@, 0nat)) by {
            assert(*body == g@->ForLoop_body);
            assert(decreases_to!(g@ => g@->ForLoop_body));
            assert(decreases_to!(*body => body@));
        }
    }
    let ghost hd = for_head(*init, *cond, *step);
    let ghost st1 = nst(hd, st0);
    let ghost h = written(hd, ind, st0);
    let mut head = String::new();
    head.append("for (");
    init.push_text(&mut head);
    head.append("; ");
    cond.push_text(&mut head);
    head.append("; ");
    step.push_text(&mut head);
    head.append(")");
    proof {
        assert(head@ =~= hd);
    }
    fmt.write_str(head.as_str());
    proof {
        lemma_written_nst(hd, ind, st0);
        lemma_line_start_concat(out0, h);
    }
    if body.len() > 0 {
        let ghost b = written(brace_open(st1), ind, st1);
        let ghost t = stmts_text(body@, ind4);
        let ghost c = written("}\n"@, ind, true);
        fmt.block_open();
        proof {
            lemma_out_assoc(out0, h, b);
        }
        fmt_stmts(fmt, body);
        proof {
            lemma_out_assoc(out0, h + b, t);
        }
        fmt.block_close();
        proof {
            lemma_out_assoc(out0, h + b + t, c);
            lemma_out_assoc(h, b, t);
            lemma_out_assoc(h, b + t, c);
            assert(fmt.out@ == out0 + (h + (b + t + c)));
            assert(stmt_text(g@, ind, st0) == h + (b + t + c));
        }
    } else {
        let ghost sc = written(";\n"@, ind, st1);
        fmt.write_str(";\n");
        proof {
            lemma_out_assoc(out0, h, sc);
            assert(stmt_text(g@, ind, st0) == h + sc);
        }
    }
}

/// Writes a run of statements through the formatter, each beginning at the
/// start of a line.
#[verifier::loop_isolation(false)]
pub(crate) fn fmt_stmts(fmt: &mut Formatter, ss: &Vec<Stmt>)
    requires
        old(fmt).spaces + INDENT_STEP * stmts_size(ss@) <= usize::MAX,
        line_start(old(fmt).out@),
    ensures
        final(fmt).out@ == old(fmt).out@ + stmts_text(ss@, old(fmt).spaces as nat),
        final(fmt).spaces == old(fmt).spaces,
        final(fmt).scopes == old(fmt).scopes,
        line_start(final(fmt).out@),
    decreases ss@, 0nat,
{
    let ghost ind = fmt.spaces as nat;
    let ghost base = fmt.out@;
    let mut i: usize = 0;
    proof {
        assert(base + stmts_text(ss@.subrange(0, 0), ind) =~= base);
    }
    while i < ss.len()
        invariant
            i <= ss@.len(),
            fmt.out@ == base + stmts_text(ss@.subrange(0, i as int), ind),
            line_start(fmt.out@),
            fmt.spaces == old(fmt).spaces,
            fmt.scopes == old(fmt).scopes,
        decreases ss@.len() - i,
    {
        proof {
            lemma_stmts_size_elem(ss@, i as int);
            assert(decreases_to!(ss@, 0nat => ss@[i as int], 1nat)) by {
                assert(decreases_to!(ss@ => ss@[i as int]));
            }
            assert(ss@.subrange(0, i as int + 1).subrange(0, i as int) =~= ss@.subrange(
                0,
                i as int,
            ));
            assert(ss@.subrange(0, i as int + 1)[i as int] == ss@[i as int]);
        }
        let ghost prev = fmt.out@;
        ss[i].fmt(fmt);
        proof {
            lemma_stmt_text_line_start(ss@[i as int], ind, true);
            lemma_line_start_concat(prev, stmt_text(ss@[i as int], ind, true));
            assert(fmt.out@ =~= base + stmts_text(ss@.subrange(0, i as int + 1), ind));
        }
        i += 1;
    }
    proof {
        assert(ss@.subrange(0, ss@.len() as int) =~= ss@);
    }
}

} // verus!
