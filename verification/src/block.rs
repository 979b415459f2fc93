//! Blocks of code as used in function bodies, loop bodies and conditional
//! branches: an ordered sequence of heterogeneous items, together with the
//! structured control constructs that carry nested blocks.

use vstd::prelude::*;

use crate::comment::Comment;
use crate::comment::comment_flat;
use crate::expr::Expr;
use crate::expr::args_text;
use crate::expr::expr_is_ptr;
use crate::expr::expr_text;
use crate::expr::member_sep;
use crate::formatter::Formatter;
use crate::formatter::INDENT_STEP;
use crate::formatter::brace_open;
use crate::formatter::lemma_line_start_concat;
use crate::formatter::lemma_out_assoc;
use crate::formatter::lemma_written_nst;
use crate::formatter::line_start;
use crate::formatter::nst;
use crate::formatter::written;
use crate::types::Type;
use crate::variable::Variable;
use crate::variable::var_flat;

verus! {

/// A block of code: an ordered sequence of items.
#[derive(Debug)]
pub struct Block {
    /// The items of the block, rendered in insertion order.
    pub items: Vec<BlockItem>,
}

/// One item of a block.
#[derive(Debug)]
pub enum BlockItem {
    /// a comment.
    Comment(Comment),
    /// a variable, rendered with no closing `;`.
    Variable(Variable),
    /// a conditional.
    IfElse(IfElse),
    /// a for loop.
    ForLoop(ForLoop),
    /// a while loop.
    WhileLoop(WhileLoop),
    /// a do-while loop.
    DoWhileLoop(DoWhileLoop),
    /// a return, with an optional value.
    Return(Option<Expr>),
    /// an assignment.
    Assign(Expr, Expr),
    /// a goto to a label.
    GoTo(String),
    /// a goto target label.
    Label(String),
    /// a raw statement, closed by `;`.
    Raw(String),
    /// a function call statement.
    FnCall(String, Vec<Expr>),
    /// a method call statement.
    MethodCall(Expr, String, Vec<Expr>),
    /// a `break` statement.
    Break,
    /// a `continue` statement.
    Continue,
    /// an additional empty line.
    NewLine,
}

/// A conditional with a then branch and an optional else branch.
#[derive(Debug)]
pub struct IfElse {
    /// the condition of the conditional.
    pub cond: Expr,
    /// the then branch.
    pub then_blk: Block,
    /// the else branch; left empty, no else part is rendered.
    pub other_blk: Block,
}

/// A while loop.
#[derive(Debug)]
pub struct WhileLoop {
    /// the guard of the loop.
    pub cond: Expr,
    /// the body of the loop.
    pub body: Block,
}

/// A do-while loop.
#[derive(Debug)]
pub struct DoWhileLoop {
    /// the guard of the loop.
    pub cond: Expr,
    /// the body of the loop.
    pub body: Block,
}

/// A for loop with optional initializer, guard and step expressions.
#[derive(Debug)]
pub struct ForLoop {
    /// the initializer of the loop, if any.
    pub init: Option<Expr>,
    /// the guard of the loop, if any.
    pub cond: Option<Expr>,
    /// the step of the loop, if any.
    pub step: Option<Expr>,
    /// the body of the loop.
    pub body: Block,
}

/// The text of an optional expression; nothing when absent.
pub open spec fn opt_expr_text(oe: Option<Expr>) -> Seq<char> {
    match oe {
        Some(e) => expr_text(e),
        None => Seq::empty(),
    }
}

/// A bound on the block nesting one item opens.
pub open spec fn bitem_size(it: BlockItem) -> nat
    decreases it,
{
    match it {
        BlockItem::IfElse(ie) => 2 + bitems_size(ie.then_blk.items@) + bitems_size(
            ie.other_blk.items@,
        ),
        BlockItem::ForLoop(f) => 2 + bitems_size(f.body.items@),
        BlockItem::WhileLoop(w) => 2 + bitems_size(w.body.items@),
        BlockItem::DoWhileLoop(d) => 2 + bitems_size(d.body.items@),
        _ => 2,
    }
}

/// The combined nesting bound of a sequence of items.
pub open spec fn bitems_size(items: Seq<BlockItem>) -> nat
    decreases items,
{
    if items.len() == 0 {
        0
    } else {
        bitem_size(items[0]) + bitems_size(items.subrange(1, items.len() as int))
    }
}

/// Each item's nesting bound is within the bound of any sequence holding it.
pub proof fn lemma_bitems_size_elem(items: Seq<BlockItem>, i: int)
    requires
        0 <= i < items.len(),
    ensures
        bitem_size(items[i]) <= bitems_size(items),
    decreases items.len(),
{
    if i > 0 {
        lemma_bitems_size_elem(items.subrange(1, items.len() as int), i - 1);
    }
}

/// The head of a rendered conditional, closed by a space and a newline.
pub open spec fn ifelse_head(cond: Expr) -> Seq<char> {
    "if ("@ + expr_text(cond) + ") \n"@
}

/// The head of a rendered while loop, closed by a space and a newline.
pub open spec fn whileloop_head(cond: Expr) -> Seq<char> {
    "while ("@ + expr_text(cond) + ") \n"@
}

/// The head of a rendered for loop, closed by a space and a newline.
pub open spec fn forloop_head(f: ForLoop) -> Seq<char> {
    "for ("@ + opt_expr_text(f.init) + "; "@ + opt_expr_text(f.cond) + "; "@ + opt_expr_text(
        f.step,
    ) + ") \n"@
}

/// The rendered text of a conditional at indentation `ind` with line-start
/// state `st`.
pub open spec fn ifelse_text(ie: IfElse, ind: nat, st: bool) -> Seq<char>
    decreases ie,
{
    written(ifelse_head(ie.cond), ind, st) + written("{\n"@, ind, true) + block_text(
        ie.then_blk.items@,
        (ind + INDENT_STEP) as nat,
        true,
    ) + written(
        "}\n"@,
        ind,
        nst(block_text(ie.then_blk.items@, (ind + INDENT_STEP) as nat, true), true),
    ) + (if ie.other_blk.items@.len() > 0 {
        written(" else "@, ind, true) + written(" {\n"@, ind, false) + block_text(
            ie.other_blk.items@,
            (ind + INDENT_STEP) as nat,
            true,
        ) + written(
            "}\n"@,
            ind,
            nst(block_text(ie.other_blk.items@, (ind + INDENT_STEP) as nat, true), true),
        )
    } else {
        Seq::<char>::empty()
    }) + written("\n"@, ind, true)
}

/// The rendered text of a while loop; an empty body renders as a bare
/// `;`-terminated guard.
pub open spec fn whileloop_text(w: WhileLoop, ind: nat, st: bool) -> Seq<char>
    decreases w,
{
    written(whileloop_head(w.cond), ind, st) + (if w.body.items@.len() > 0 {
        written("{\n"@, ind, true) + block_text(
            w.body.items@,
            (ind + INDENT_STEP) as nat,
            true,
        ) + written(
            "}\n"@,
            ind,
            nst(block_text(w.body.items@, (ind + INDENT_STEP) as nat, true), true),
        ) + written("\n"@, ind, true)
    } else {
        written(";\n"@, (ind + INDENT_STEP) as nat, true)
    })
}

/// The rendered text of a do-while loop.
pub open spec fn dowhile_text(d: DoWhileLoop, ind: nat, st: bool) -> Seq<char>
    decreases d,
{
    written("do "@, ind, st) + written(" {\n"@, ind, false) + block_text(
        d.body.items@,
        (ind + INDENT_STEP) as nat,
        true,
    ) + written(
        "}\n"@,
        ind,
        nst(block_text(d.body.items@, (ind + INDENT_STEP) as nat, true), true),
    ) + written(" while ("@ + expr_text(d.cond) + ");\n"@, ind, true)
}

/// The rendered text of a for loop; an empty body renders as a bare
/// `;`-terminated guard.
pub open spec fn forloop_text(f: ForLoop, ind: nat, st: bool) -> Seq<char>
    decreases f,
{
    written(forloop_head(f), ind, st) + (if f.body.items@.len() > 0 {
        written("{\n"@, ind, true) + block_text(
            f.body.items@,
            (ind + INDENT_STEP) as nat,
            true,
        ) + written(
            "}\n"@,
            ind,
            nst(block_text(f.body.items@, (ind + INDENT_STEP) as nat, true), true),
        ) + written("\n"@, ind, true)
    } else {
        written(";\n"@, (ind + INDENT_STEP) as nat, true)
    })
}

/// The rendered text of one block item at indentation `ind` with line-start
/// state `st`.
pub open spec fn bitem_text(it: BlockItem, ind: nat, st: bool) -> Seq<char>
    decreases it,
{
    match it {
        BlockItem::Comment(c) => written(comment_flat(c, ind), ind, st),
        BlockItem::Variable(v) => written(var_flat(v), ind, st),
        BlockItem::NewLine => written("\n"@, ind, st),
        BlockItem::Break => written("break;\n"@, ind, st),
        BlockItem::Continue => written("continue;\n"@, ind, st),
        BlockItem::Raw(v) => written(v@ + ";\n"@, ind, st),
        BlockItem::Label(v) => written(v@ + ":\n"@, ind, st),
        BlockItem::GoTo(v) => written("goto "@ + v@ + ";\n"@, ind, st),
        BlockItem::Assign(l, r) => written(
            expr_text(l) + " = "@ + expr_text(r) + ";\n"@,
            ind,
            st,
        ),
        BlockItem::Return(v) => written(
            match v {
                Some(e) => "return "@ + expr_text(e) + ";\n"@,
                None => "return;\n"@,
            },
            ind,
            st,
        ),
        BlockItem::FnCall(name, args) => written(
            name@ + "("@ + args_text(args@) + ");\n"@,
            ind,
            st,
        ),
        BlockItem::MethodCall(obj, method, args) => written(
            expr_text(obj) + member_sep(expr_is_ptr(obj)) + method@ + "("@ + args_text(args@)
                + ");\n"@,
            ind,
            st,
        ),
        BlockItem::IfElse(ie) => ifelse_text(ie, ind, st),
        BlockItem::WhileLoop(w) => whileloop_text(w, ind, st),
        BlockItem::DoWhileLoop(d) => dowhile_text(d, ind, st),
        BlockItem::ForLoop(f) => forloop_text(f, ind, st),
    }
}

/// The rendered text of a sequence of block items, threading the line-start
/// state from one item to the next.
pub open spec fn block_text(items: Seq<BlockItem>, ind: nat, st: bool) -> Seq<char>
    decreases items,
{
    if items.len() == 0 {
        Seq::empty()
    } else {
        let first = bitem_text(items[0], ind, st);
        first + block_text(items.subrange(1, items.len() as int), ind, nst(first, st))
    }
}

/// Holds when `new_s` is `old_s` with exactly one entry appended.
pub open spec fn appended_one<T>(old_s: Seq<T>, new_s: Seq<T>) -> bool {
    new_s.len() == old_s.len() + 1 && new_s.subrange(0, old_s.len() as int) == old_s
}

impl Block {
    /// Creates a new, empty block of statements.
    pub fn new() -> (r: Self)
        ensures
            r.items@ == Seq::<BlockItem>::empty(),
    {
        Block { items: Vec::new() }
    }

    /// Merges another block into this one, consuming it.
    pub fn merge(&mut self, other: Block)
        ensures
            final(self).items@ == old(self).items@ + other.items@,
    {
        let mut other = other;
        self.items.append(&mut other.items);
    }

    /// Checks whether the block holds no items.
    pub fn is_empty(&self) -> (r: bool)
        ensures
            r == (self.items@.len() == 0),
    {
        self.items.len() == 0
    }

    /// Removes every item of the block.
    pub fn clear(&mut self)
        ensures
            final(self).items@ == Seq::<BlockItem>::empty(),
    {
        self.items.clear();
    }

    /// Adds an additional empty line to the block.
    pub fn empty_line(&mut self) -> (r: &mut Self)
        ensures
            r.items@ == old(self).items@.push(BlockItem::NewLine),
            *final(self) == *final(r),
    {
        self.items.push(BlockItem::NewLine);
        self
    }

    /// Adds a `break` statement to the block.
    pub fn break_stmt(&mut self) -> (r: &mut Self)
        ensures
            r.items@ == old(self).items@.push(BlockItem::Break),
            *final(self) == *final(r),
    {
        self.items.push(BlockItem::Break);
        self
    }

    /// Adds a raw statement to the block, copying the string.
    pub fn raw_str(&mut self, raw: &str) -> (r: &mut Self)
        ensures
            appended_one(old(self).items@, r.items@),
            r.items@.last() matches BlockItem::Raw(v) && v@ == raw@,
            *final(self) == *final(r),
    {
        self.items.push(BlockItem::Raw(raw.to_owned()));
        proof {
            assert(self.items@.subrange(0, old(self).items@.len() as int) =~= old(self).items@);
        }
        self
    }

    /// Adds a raw statement to the block.
    pub fn raw(&mut self, raw: String) -> (r: &mut Self)
        ensures
            r.items@ == old(self).items@.push(BlockItem::Raw(raw)),
            *final(self) == *final(r),
    {
        self.items.push(BlockItem::Raw(raw));
        self
    }

    /// Adds an assignment to the block.
    pub fn assign(&mut self, lhs: Expr, rhs: Expr) -> (r: &mut Self)
        ensures
            r.items@ == old(self).items@.push(BlockItem::Assign(lhs, rhs)),
            *final(self) == *final(r),
    {
        self.items.push(BlockItem::Assign(lhs, rhs));
        self
    }

    /// Adds a goto target label to the block.
    pub fn label(&mut self, label: &str) -> (r: &mut Self)
        ensures
            appended_one(old(self).items@, r.items@),
            r.items@.last() matches BlockItem::Label(v) && v@ == label@,
            *final(self) == *final(r),
    {
        self.items.push(BlockItem::Label(label.to_owned()));
        proof {
            assert(self.items@.subrange(0, old(self).items@.len() as int) =~= old(self).items@);
        }
        self
    }

    /// Adds a goto to the block.
    pub fn goto(&mut self, label: &str) -> (r: &mut Self)
        ensures
            appended_one(old(self).items@, r.items@),
            r.items@.last() matches BlockItem::GoTo(v) && v@ == label@,
            *final(self) == *final(r),
    {
        self.items.push(BlockItem::GoTo(label.to_owned()));
        proof {
            assert(self.items@.subrange(0, old(self).items@.len() as int) =~= old(self).items@);
        }
        self
    }

    /// Adds a `continue` statement to the block.
    pub fn continue_stmt(&mut self) -> (r: &mut Self)
        ensures
            r.items@ == old(self).items@.push(BlockItem::Continue),
            *final(self) == *final(r),
    {
        self.items.push(BlockItem::Continue);
        self
    }

    /// Adds a new comment with the given text to the block.
    pub fn new_comment(&mut self, comment: &str) -> (r: &mut Self)
        ensures
            appended_one(old(self).items@, r.items@),
            r.items@.last() matches BlockItem::Comment(c) && c.comment@ == comment@
                && !c.is_heading,
            *final(self) == *final(r),
    {
        self.comment(Comment::with_str(comment));
        proof {
            assert(self.items@.subrange(0, old(self).items@.len() as int) =~= old(self).items@);
        }
        self
    }

    /// Adds a comment to the block.
    pub fn comment(&mut self, comment: Comment) -> (r: &mut Self)
        ensures
            r.items@ == old(self).items@.push(BlockItem::Comment(comment)),
            *final(self) == *final(r),
    {
        self.items.push(BlockItem::Comment(comment));
        self
    }

    /// Adds a new conditional on the given condition and hands it out for
    /// further construction.
    pub fn new_ifelse(&mut self, cond: &Expr) -> (r: &mut IfElse)
        ensures
            expr_text(r.cond) == expr_text(*cond),
            r.then_blk.items@ == Seq::<BlockItem>::empty(),
            r.other_blk.items@ == Seq::<BlockItem>::empty(),
            final(self).items@ == old(self).items@.push(BlockItem::IfElse(*final(r))),
    {
        let ifelse = IfElse::new(cond);
        self.items.push(BlockItem::IfElse(ifelse));
        let n = self.items.len();
        match &mut self.items[n - 1] {
            BlockItem::IfElse(v) => v,
            _ => vstd::pervasive::unreached(),
        }
    }

    /// Adds a conditional to the block.
    pub fn ifelse(&mut self, s: IfElse) -> (r: &mut Self)
        ensures
            r.items@ == old(self).items@.push(BlockItem::IfElse(s)),
            *final(self) == *final(r),
    {
        self.items.push(BlockItem::IfElse(s));
        self
    }

    /// Adds a new for loop to the block and hands it out for further
    /// construction.
    pub fn new_for_loop(&mut self, init: &Expr, guard: &Expr, step: &Expr) -> (r: &mut ForLoop)
        ensures
            r.init matches Some(e) && expr_text(e) == expr_text(*init),
            r.cond matches Some(e) && expr_text(e) == expr_text(*guard),
            r.step matches Some(e) && expr_text(e) == expr_text(*step),
            r.body.items@ == Seq::<BlockItem>::empty(),
            final(self).items@ == old(self).items@.push(BlockItem::ForLoop(*final(r))),
    {
        let forloop = ForLoop::from_expr(init, guard, step);
        self.items.push(BlockItem::ForLoop(forloop));
        let n = self.items.len();
        match &mut self.items[n - 1] {
            BlockItem::ForLoop(v) => v,
            _ => vstd::pervasive::unreached(),
        }
    }

    /// Adds a for loop to the block.
    pub fn for_loop(&mut self, s: ForLoop) -> (r: &mut Self)
        ensures
            r.items@ == old(self).items@.push(BlockItem::ForLoop(s)),
            *final(self) == *final(r),
    {
        self.items.push(BlockItem::ForLoop(s));
        self
    }

    /// Adds a new while loop to the block and hands it out for further
    /// construction.
    pub fn new_while_loop(&mut self, cond: &Expr) -> (r: &mut WhileLoop)
        ensures
            expr_text(r.cond) == expr_text(*cond),
            r.body.items@ == Seq::<BlockItem>::empty(),
            final(self).items@ == old(self).items@.push(BlockItem::WhileLoop(*final(r))),
    {
        self.while_loop(WhileLoop::new(cond));
        let n = self.items.len();
        match &mut self.items[n - 1] {
            BlockItem::WhileLoop(v) => v,
            _ => vstd::pervasive::unreached(),
        }
    }

    /// Adds a while loop to the block.
    pub fn while_loop(&mut self, s: WhileLoop) -> (r: &mut Self)
        ensures
            r.items@ == old(self).items@.push(BlockItem::WhileLoop(s)),
            *final(self) == *final(r),
    {
        self.items.push(BlockItem::WhileLoop(s));
        self
    }

    /// Adds a new do-while loop to the block and hands it out for further
    /// construction.
    pub fn new_dowhile_loop(&mut self, cond: &Expr) -> (r: &mut DoWhileLoop)
        ensures
            expr_text(r.cond) == expr_text(*cond),
            r.body.items@ == Seq::<BlockItem>::empty(),
            final(self).items@ == old(self).items@.push(BlockItem::DoWhileLoop(*final(r))),
    {
        self.dowhile_loop(DoWhileLoop::new(cond));
        let n = self.items.len();
        match &mut self.items[n - 1] {
            BlockItem::DoWhileLoop(v) => v,
            _ => vstd::pervasive::unreached(),
        }
    }

    /// Adds a do-while loop to the block.
    pub fn dowhile_loop(&mut self, s: DoWhileLoop) -> (r: &mut Self)
        ensures
            r.items@ == old(self).items@.push(BlockItem::DoWhileLoop(s)),
            *final(self) == *final(r),
    {
        self.items.push(BlockItem::DoWhileLoop(s));
        self
    }

    /// Adds a new variable to the block and hands it out for further
    /// construction.
    pub fn new_variable(&mut self, name: &str, ty: Type) -> (r: &mut Variable)
        ensures
            r.name@ == name@,
            r.ty == ty,
            r.value is None,
            !r.is_static,
            !r.is_extern,
            r.doc is None,
            final(self).items@ == old(self).items@.push(BlockItem::Variable(*final(r))),
    {
        self.variable(Variable::new(name, ty));
        let n = self.items.len();
        match &mut self.items[n - 1] {
            BlockItem::Variable(v) => v,
            _ => vstd::pervasive::unreached(),
        }
    }

    /// Adds a variable to the block.
    pub fn variable(&mut self, var: Variable) -> (r: &mut Self)
        ensures
            r.items@ == old(self).items@.push(BlockItem::Variable(var)),
            *final(self) == *final(r),
    {
        self.items.push(BlockItem::Variable(var));
        self
    }

    /// Adds a return statement, with or without a value.
    pub fn new_return(&mut self, expr: Option<&Expr>) -> (r: &mut Self)
        ensures
            appended_one(old(self).items@, r.items@),
            expr is Some ==> (r.items@.last() matches BlockItem::Return(v) && v matches Some(e)
                && expr_text(e) == expr_text(*expr->0)),
            expr is None ==> r.items@.last() == BlockItem::Return(None),
            *final(self) == *final(r),
    {
        match expr {
            Some(e) => {
                self.items.push(BlockItem::Return(Some(e.clone())));
            },
            None => {
                self.items.push(BlockItem::Return(None));
            },
        }
        proof {
            assert(self.items@.subrange(0, old(self).items@.len() as int) =~= old(self).items@);
        }
        self
    }

    /// Adds a return statement returning a value.
    pub fn return_expr(&mut self, expr: Expr) -> (r: &mut Self)
        ensures
            r.items@ == old(self).items@.push(BlockItem::Return(Some(expr))),
            *final(self) == *final(r),
    {
        self.items.push(BlockItem::Return(Some(expr)));
        self
    }

    /// Adds a return statement returning nothing.
    pub fn return_none(&mut self) -> (r: &mut Self)
        ensures
            r.items@ == old(self).items@.push(BlockItem::Return(None)),
            *final(self) == *final(r),
    {
        self.items.push(BlockItem::Return(None));
        self
    }

    /// Adds a printf statement with a format string and arguments.
    pub fn printf(&mut self, format: &str, vars: Vec<Expr>) -> (r: &mut Self)
        ensures
            appended_one(old(self).items@, r.items@),
            r.items@.last() matches BlockItem::FnCall(n, a) && n@ == "printf"@ && a@.len() == 1
                + vars@.len() && (a@[0] matches Expr::ConstString(f) && f@ == format@)
                && a@.subrange(1, a@.len() as int) == vars@,
            *final(self) == *final(r),
    {
        let mut vars = vars;
        let ghost varsv = vars@;
        let mut args: Vec<Expr> = Vec::new();
        args.push(Expr::ConstString(format.to_owned()));
        args.append(&mut vars);
        proof {
            assert(args@.subrange(1, args@.len() as int) =~= varsv);
            assert(args@[0] is ConstString);
        }
        self.items.push(BlockItem::FnCall("printf".to_owned(), args));
        proof {
            assert(self.items@.subrange(0, old(self).items@.len() as int) =~= old(self).items@);
        }
        self
    }

    /// Adds a statement printing a fixed string.
    pub fn printstr(&mut self, format: &str) -> (r: &mut Self)
        ensures
            appended_one(old(self).items@, r.items@),
            r.items@.last() matches BlockItem::FnCall(n, a) && n@ == "printf"@ && a@.len() == 1 && (
            a@[0] matches Expr::ConstString(f) && f@ == format@),
            *final(self) == *final(r),
    {
        let mut args: Vec<Expr> = Vec::new();
        args.push(Expr::ConstString(format.to_owned()));
        self.items.push(BlockItem::FnCall("printf".to_owned(), args));
        proof {
            assert(self.items@.subrange(0, old(self).items@.len() as int) =~= old(self).items@);
        }
        self
    }

    /// Adds a function call statement.
    pub fn fn_call(&mut self, name: &str, args: Vec<Expr>) -> (r: &mut Self)
        ensures
            appended_one(old(self).items@, r.items@),
            r.items@.last() matches BlockItem::FnCall(n, a) && n@ == name@ && a == args,
            *final(self) == *final(r),
    {
        self.items.push(BlockItem::FnCall(name.to_owned(), args));
        proof {
            assert(self.items@.subrange(0, old(self).items@.len() as int) =~= old(self).items@);
        }
        self
    }

    /// Adds a method call statement.
    pub fn method_call(&mut self, obj: Expr, method: &str, args: Vec<Expr>) -> (r: &mut Self)
        ensures
            appended_one(old(self).items@, r.items@),
            r.items@.last() matches BlockItem::MethodCall(o, m, a) && o == obj && m@ == method@
                && a == args,
            *final(self) == *final(r),
    {
        self.items.push(BlockItem::MethodCall(obj, method.to_owned(), args));
        proof {
            assert(self.items@.subrange(0, old(self).items@.len() as int) =~= old(self).items@);
        }
        self
    }

    /// Writes each item of the block in insertion order through the
    /// formatter.
    #[verifier::loop_isolation(false)]
    pub fn fmt(&self, fmt: &mut Formatter)
        requires
            old(fmt).spaces + INDENT_STEP * bitems_size(self.items@) <= usize::MAX,
        ensures
            final(fmt).out@ == old(fmt).out@ + block_text(
                self.items@,
                old(fmt).spaces as nat,
                line_start(old(fmt).out@),
            ),
            final(fmt).spaces == old(fmt).spaces,
            final(fmt).scopes == old(fmt).scopes,
        decreases *self,
    {
        let ghost ind = fmt.spaces as nat;
        let ghost st0 = line_start(fmt.out@);
        let ghost itemsv = self.items@;
        let ghost target = fmt.out@ + block_text(itemsv, ind, st0);
        let mut i: usize = 0;
        proof {
            assert(itemsv.subrange(0, itemsv.len() as int) =~= itemsv);
        }
        while i < self.items.len()
            invariant
                i <= itemsv.len(),
                target == fmt.out@ + block_text(
                    itemsv.subrange(i as int, itemsv.len() as int),
                    ind,
                    line_start(fmt.out@),
                ),
                fmt.spaces == old(fmt).spaces,
                fmt.scopes == old(fmt).scopes,
            decreases itemsv.len() - i,
        {
            let ghost rest = itemsv.subrange(i as int, itemsv.len() as int);
            let ghost rest1 = itemsv.subrange(i as int + 1, itemsv.len() as int);
            let ghost stc = line_start(fmt.out@);
            let ghost prev = fmt.out@;
            proof {
                assert(rest.subrange(1, rest.len() as int) =~= rest1);
                assert(rest[0] == itemsv[i as int]);
                lemma_bitems_size_elem(itemsv, i as int);
                assert(decreases_to!(*self => itemsv[i as int])) by {
                    assert(decreases_to!(*self => self.items));
                    assert(decreases_to!(self.items => itemsv));
                    assert(decreases_to!(itemsv => itemsv[i as int]));
                }
            }
            fmt_block_item(fmt, &self.items[i], Ghost(itemsv[i as int]));
            proof {
                let ft = bitem_text(itemsv[i as int], ind, stc);
                lemma_line_start_concat(prev, ft);
                lemma_out_assoc(prev, ft, block_text(rest1, ind, nst(ft, stc)));
            }
            i += 1;
        }
        proof {
            assert(itemsv.subrange(itemsv.len() as int, itemsv.len() as int) =~= Seq::<
                BlockItem,
            >::empty());
            assert(fmt.out@ + block_text(
                Seq::<BlockItem>::empty(),
                ind,
                line_start(fmt.out@),
            ) =~= fmt.out@);
        }
    }
}

impl Default for Block {
    /// The default block is empty.
    fn default() -> (r: Self)
        ensures
            r.items@ == Seq::<BlockItem>::empty(),
    {
        Block::new()
    }
}

/// Writes one block item through the formatter.
#[verifier::rlimit(60)]
#[verifier::spinoff_prover]
fn fmt_block_item(fmt: &mut Formatter, it: &BlockItem, g: Ghost<BlockItem>)
    requires
        g@ == *it,
        old(fmt).spaces + INDENT_STEP * bitem_size(g@) <= usize::MAX,
    ensures
        final(fmt).out@ == old(fmt).out@ + bitem_text(
            g@,
            old(fmt).spaces as nat,
            line_start(old(fmt).out@),
        ),
        final(fmt).spaces == old(fmt).spaces,
        final(fmt).scopes == old(fmt).scopes,
    decreases g@,
{
    let ghost ind = fmt.spaces as nat;
    let ghost st0 = line_start(fmt.out@);
    match it {
        BlockItem::Comment(c) => {
            c.fmt(fmt);
        },
        BlockItem::Variable(v) => {
            v.fmt(fmt);
        },
        BlockItem::NewLine => {
            fmt.write_str("\n");
        },
        BlockItem::Break => {
            fmt.write_str("break;\n");
        },
        BlockItem::Continue => {
            fmt.write_str("continue;\n");
        },
        BlockItem::Raw(v) => {
            let mut s = String::new();
            s.append(v.as_str());
            s.append(";\n");
            proof {
                assert(s@ =~= v@ + ";\n"@);
            }
            fmt.write_str(s.as_str());
        },
        BlockItem::Label(v) => {
            let mut s = String::new();
            s.append(v.as_str());
            s.append(":\n");
            proof {
                assert(s@ =~= v@ + ":\n"@);
            }
            fmt.write_str(s.as_str());
        },
        BlockItem::GoTo(v) => {
            let mut s = String::new();
            s.append("goto ");
            s.append(v.as_str());
            s.append(";\n");
            proof {
                assert(s@ =~= "goto "@ + v@ + ";\n"@);
            }
            fmt.write_str(s.as_str());
        },
        BlockItem::Assign(l, r) => {
            let mut s = String::new();
            l.push_text(&mut s);
            s.append(" = ");
            r.push_text(&mut s);
            s.append(";\n");
            proof {
                assert(s@ =~= expr_text(*l) + " = "@ + expr_text(*r) + ";\n"@);
            }
            fmt.write_str(s.as_str());
        },
        BlockItem::Return(v) => {
            let mut s = String::new();
            match v {
                Some(e) => {
                    s.append("return ");
                    e.push_text(&mut s);
                    s.append(";\n");
                    proof {
                        assert(s@ =~= "return "@ + expr_text(*e) + ";\n"@);
                    }
                },
                None => {
                    s.append("return;\n");
                },
            }
            fmt.write_str(s.as_str());
        },
        BlockItem::FnCall(name, args) => {
            let mut s = String::new();
            s.append(name.as_str());
            s.append("(");
            crate::expr::push_args(&mut s, args);
            s.append(");\n");
            proof {
                assert(s@ =~= name@ + "("@ + args_text(args@) + ");\n"@);
            }
            fmt.write_str(s.as_str());
        },
        BlockItem::MethodCall(obj, method, args) => {
            let mut s = String::new();
            obj.push_text(&mut s);
            if obj.is_ptr() {
                s.append("->");
            } else {
                s.append(".");
            }
            s.append(method.as_str());
            s.append("(");
            crate::expr::push_args(&mut s, args);
            s.append(");\n");
            proof {
                assert(s@ =~= expr_text(*obj) + member_sep(expr_is_ptr(*obj)) + method@ + "("@
                    + args_text(args@) + ");\n"@);
            }
            fmt.write_str(s.as_str());
        },
        BlockItem::IfElse(ie) => {
            proof {
                assert(decreases_to!(g@ => *ie)) by {
                    assert(*ie == g@->IfElse_0);
                    assert(decreases_to!(g@ => g@->IfElse_0));
                }
            }
            ie.fmt(fmt);
        },
        BlockItem::WhileLoop(w) => {
            proof {
                assert(decreases_to!(g@ => *w)) by {
                    assert(*w == g@->WhileLoop_0);
                    assert(decreases_to!(g@ => g@->WhileLoop_0));
                }
            }
            w.fmt(fmt);
        },
        BlockItem::DoWhileLoop(d) => {
            proof {
                assert(decreases_to!(g@ => *d)) by {
                    assert(*d == g@->DoWhileLoop_0);
                    assert(decreases_to!(g@ => g@->DoWhileLoop_0));
                }
            }
            d.fmt(fmt);
        },
        BlockItem::ForLoop(f) => {
            proof {
                assert(decreases_to!(g@ => *f)) by {
                    assert(*f == g@->ForLoop_0);
                    assert(decreases_to!(g@ => g@->ForLoop_0));
                }
            }
            f.fmt(fmt);
        },
    }
}

impl IfElse {
    /// Creates a new conditional with the supplied condition.
    pub fn new(cond: &Expr) -> (r: Self)
        ensures
            expr_text(r.cond) == expr_text(*cond),
            expr_is_ptr(r.cond) == expr_is_ptr(*cond),
            r.then_blk.items@ == Seq::<BlockItem>::empty(),
            r.other_blk.items@ == Seq::<BlockItem>::empty(),
    {
        Self::with_expr(cond.clone())
    }

    /// Creates a new conditional, consuming the supplied condition.
    pub fn with_expr(cond: Expr) -> (r: Self)
        ensures
            r.cond == cond,
            r.then_blk.items@ == Seq::<BlockItem>::empty(),
            r.other_blk.items@ == Seq::<BlockItem>::empty(),
    {
        IfElse { cond, then_blk: Block::new(), other_blk: Block::new() }
    }

    /// Creates a new conditional with the supplied condition and then
    /// branch.
    pub fn with_block(cond: Expr, then_blk: Block) -> (r: Self)
        ensures
            r.cond == cond,
            r.then_blk == then_blk,
            r.other_blk.items@ == Seq::<BlockItem>::empty(),
    {
        IfElse { cond, then_blk, other_blk: Block::new() }
    }

    /// Replaces the then branch of the conditional.
    pub fn set_then(&mut self, then_blk: Block) -> (r: &mut Self)
        ensures
            *r == (IfElse { then_blk, ..*old(self) }),
            *final(self) == *final(r),
    {
        self.then_blk = then_blk;
        self
    }

    /// Replaces the else branch of the conditional.
    pub fn set_other(&mut self, other_blk: Block) -> (r: &mut Self)
        ensures
            *r == (IfElse { other_blk, ..*old(self) }),
            *final(self) == *final(r),
    {
        self.other_blk = other_blk;
        self
    }

    /// A mutable reference to the then branch of the conditional.
    pub fn then_branch(&mut self) -> (r: &mut Block)
        ensures
            *r == old(self).then_blk,
            *final(self) == (IfElse { then_blk: *final(r), ..*old(self) }),
    {
        &mut self.then_blk
    }

    /// A mutable reference to the else branch of the conditional.
    pub fn other_branch(&mut self) -> (r: &mut Block)
        ensures
            *r == old(self).other_blk,
            *final(self) == (IfElse { other_blk: *final(r), ..*old(self) }),
    {
        &mut self.other_blk
    }

    /// Writes the conditional through the formatter.
    #[verifier::rlimit(60)]
    #[verifier::spinoff_prover]
    pub fn fmt(&self, fmt: &mut Formatter)
        requires
            old(fmt).spaces + INDENT_STEP * (2 + bitems_size(self.then_blk.items@) + bitems_size(
                self.other_blk.items@,
            )) <= usize::MAX,
        ensures
            final(fmt).out@ == old(fmt).out@ + ifelse_text(
                *self,
                old(fmt).spaces as nat,
                line_start(old(fmt).out@),
            ),
            final(fmt).spaces == old(fmt).spaces,
            final(fmt).scopes == old(fmt).scopes,
        decreases *self,
    {
        let ghost ind = fmt.spaces as nat;
        let ghost ind4 = (ind + INDENT_STEP) as nat;
        let ghost st0 = line_start(fmt.out@);
        let ghost out0 = fmt.out@;
        let ghost h = written(ifelse_head(self.cond), ind, st0);
        let ghost b1 = written("{\n"@, ind, true);
        let ghost t1 = block_text(self.then_blk.items@, ind4, true);
        let ghost c1 = written("}\n"@, ind, nst(t1, true));
        let ghost n = written("\n"@, ind, true);
        let mut head = String::new();
        head.append("if (");
        self.cond.push_text(&mut head);
        head.append(") \n");
        proof {
            assert(head@ =~= ifelse_head(self.cond));
        }
        fmt.write_str(head.as_str());
        proof {
            reveal_strlit(") \n");
            lemma_written_nst(ifelse_head(self.cond), ind, st0);
            lemma_line_start_concat(out0, h);
            assert(line_start(fmt.out@));
        }
        fmt.block_open();
        proof {
            assert(brace_open(true) == "{\n"@);
            lemma_out_assoc(out0, h, b1);
        }
        self.then_blk.fmt(fmt);
        proof {
            lemma_out_assoc(out0, h + b1, t1);
            lemma_line_start_concat(out0 + (h + b1), t1);
        }
        fmt.block_close();
        proof {
            lemma_out_assoc(out0, h + b1 + t1, c1);
        }
        let ghost pre4 = h + b1 + t1 + c1;
        if self.other_blk.items.len() > 0 {
            let ghost el = written(" else "@, ind, true);
            let ghost b2 = written(" {\n"@, ind, false);
            let ghost t2 = block_text(self.other_blk.items@, ind4, true);
            let ghost c2 = written("}\n"@, ind, nst(t2, true));
            fmt.write_str(" else ");
            proof {
                lemma_out_assoc(out0, pre4, el);
                reveal_strlit(" else ");
                lemma_written_nst(" else "@, ind, true);
                lemma_line_start_concat(out0 + pre4, el);
                assert(!line_start(fmt.out@));
            }
            fmt.block_open();
            proof {
                assert(brace_open(false) == " {\n"@);
                lemma_out_assoc(out0, pre4 + el, b2);
            }
            self.other_blk.fmt(fmt);
            proof {
                lemma_out_assoc(out0, pre4 + el + b2, t2);
                lemma_line_start_concat(out0 + (pre4 + el + b2), t2);
            }
            fmt.block_close();
            proof {
                lemma_out_assoc(out0, pre4 + el + b2 + t2, c2);
                lemma_out_assoc(pre4, el, b2);
                lemma_out_assoc(pre4, el + b2, t2);
                lemma_out_assoc(pre4, el + b2 + t2, c2);
                assert(fmt.out@ == out0 + (pre4 + (el + b2 + t2 + c2)));
            }
            fmt.write_str("\n");
            proof {
                lemma_out_assoc(out0, pre4 + (el + b2 + t2 + c2), n);
                assert(ifelse_text(*self, ind, st0) == pre4 + (el + b2 + t2 + c2) + n);
            }
        } else {
            fmt.write_str("\n");
            proof {
                lemma_out_assoc(out0, pre4, n);
                assert(pre4 + Seq::<char>::empty() =~= pre4);
                assert(ifelse_text(*self, ind, st0) == pre4 + Seq::<char>::empty() + n);
            }
        }
    }
}

impl WhileLoop {
    /// Creates a new while loop with the supplied guard.
    pub fn new(cond: &Expr) -> (r: Self)
        ensures
            expr_text(r.cond) == expr_text(*cond),
            expr_is_ptr(r.cond) == expr_is_ptr(*cond),
            r.body.items@ == Seq::<BlockItem>::empty(),
    {
        Self::with_guard(cond.clone())
    }

    /// Creates a new while loop, consuming the supplied guard.
    pub fn with_guard(cond: Expr) -> (r: Self)
        ensures
            r.cond == cond,
            r.body.items@ == Seq::<BlockItem>::empty(),
    {
        WhileLoop { cond, body: Block::new() }
    }

    /// Creates a new while loop with the supplied guard and body.
    pub fn with_guard_and_body(cond: Expr, body: Block) -> (r: Self)
        ensures
            r.cond == cond,
            r.body == body,
    {
        WhileLoop { cond, body }
    }

    /// Replaces the body of the loop.
    pub fn set_body(&mut self, body: Block) -> (r: &mut Self)
        ensures
            *r == (WhileLoop { body, ..*old(self) }),
            *final(self) == *final(r),
    {
        self.body = body;
        self
    }

    /// A mutable reference to the body of the loop.
    pub fn body(&mut self) -> (r: &mut Block)
        ensures
            *r == old(self).body,
            *final(self) == (WhileLoop { body: *final(r), ..*old(self) }),
    {
        &mut self.body
    }

    /// Writes the while loop through the formatter; an empty body renders as
    /// a bare `;`-terminated guard.
    #[verifier::rlimit(60)]
    #[verifier::spinoff_prover]
    pub fn fmt(&self, fmt: &mut Formatter)
        requires
            old(fmt).spaces + INDENT_STEP * (2 + bitems_size(self.body.items@)) <= usize::MAX,
        ensures
            final(fmt).out@ == old(fmt).out@ + whileloop_text(
                *self,
                old(fmt).spaces as nat,
                line_start(old(fmt).out@),
            ),
            final(fmt).spaces == old(fmt).spaces,
            final(fmt).scopes == old(fmt).scopes,
        decreases *self,
    {
        let ghost ind = fmt.spaces as nat;
        let ghost ind4 = (ind + INDENT_STEP) as nat;
        let ghost st0 = line_start(fmt.out@);
        let ghost out0 = fmt.out@;
        let ghost h = written(whileloop_head(self.cond), ind, st0);
        let mut head = String::new();
        head.append("while (");
        self.cond.push_text(&mut head);
        head.append(") \n");
        proof {
            assert(head@ =~= whileloop_head(self.cond));
        }
        fmt.write_str(head.as_str());
        proof {
            reveal_strlit(") \n");
            lemma_written_nst(whileloop_head(self.cond), ind, st0);
            lemma_line_start_concat(out0, h);
            assert(line_start(fmt.out@));
        }
        if self.body.items.len() > 0 {
            let ghost b = written("{\n"@, ind, true);
            let ghost t = block_text(self.body.items@, ind4, true);
            let ghost c = written("}\n"@, ind, nst(t, true));
            let ghost n = written("\n"@, ind, true);
            fmt.block_open();
            proof {
                assert(brace_open(true) == "{\n"@);
                lemma_out_assoc(out0, h, b);
            }
            self.body.fmt(fmt);
            proof {
                lemma_out_assoc(out0, h + b, t);
                lemma_line_start_concat(out0 + (h + b), t);
            }
            fmt.block_close();
            proof {
                lemma_out_assoc(out0, h + b + t, c);
            }
            fmt.write_str("\n");
            proof {
                lemma_out_assoc(out0, h + b + t + c, n);
                lemma_out_assoc(h, b, t);
                lemma_out_assoc(h, b + t, c);
                lemma_out_assoc(h, b + t + c, n);
                assert(whileloop_text(*self, ind, st0) == h + (b + t + c + n));
            }
        } else {
            let ghost sc = written(";\n"@, ind4, true);
            fmt.indent_inc();
            fmt.write_str(";\n");
            fmt.indent_dec();
            proof {
                lemma_out_assoc(out0, h, sc);
                assert(whileloop_text(*self, ind, st0) == h + sc);
            }
        }
    }
}

impl DoWhileLoop {
    /// Creates a new do-while loop with the supplied guard.
    pub fn new(cond: &Expr) -> (r: Self)
        ensures
            expr_text(r.cond) == expr_text(*cond),
            expr_is_ptr(r.cond) == expr_is_ptr(*cond),
            r.body.items@ == Seq::<BlockItem>::empty(),
    {
        Self::with_guard(cond.clone())
    }

    /// Creates a new do-while loop, consuming the supplied guard.
    pub fn with_guard(cond: Expr) -> (r: Self)
        ensures
            r.cond == cond,
            r.body.items@ == Seq::<BlockItem>::empty(),
    {
        DoWhileLoop { cond, body: Block::new() }
    }

    /// Creates a new do-while loop with the supplied guard and body.
    pub fn with_guard_and_body(cond: Expr, body: Block) -> (r: Self)
        ensures
            r.cond == cond,
            r.body == body,
    {
        DoWhileLoop { cond, body }
    }

    /// Replaces the body of the loop.
    pub fn set_body(&mut self, body: Block) -> (r: &mut Self)
        ensures
            *r == (DoWhileLoop { body, ..*old(self) }),
            *final(self) == *final(r),
    {
        self.body = body;
        self
    }

    /// A mutable reference to the body of the loop.
    pub fn body(&mut self) -> (r: &mut Block)
        ensures
            *r == old(self).body,
            *final(self) == (DoWhileLoop { body: *final(r), ..*old(self) }),
    {
        &mut self.body
    }

    /// Writes the do-while loop through the formatter.
    #[verifier::rlimit(60)]
    #[verifier::spinoff_prover]
    pub fn fmt(&self, fmt: &mut Formatter)
        requires
            old(fmt).spaces + INDENT_STEP * (2 + bitems_size(self.body.items@)) <= usize::MAX,
        ensures
            final(fmt).out@ == old(fmt).out@ + dowhile_text(
                *self,
                old(fmt).spaces as nat,
                line_start(old(fmt).out@),
            ),
            final(fmt).spaces == old(fmt).spaces,
            final(fmt).scopes == old(fmt).scopes,
        decreases *self,
    {
        let ghost ind = fmt.spaces as nat;
        let ghost ind4 = (ind + INDENT_STEP) as nat;
        let ghost st0 = line_start(fmt.out@);
        let ghost out0 = fmt.out@;
        let ghost d1 = written("do "@, ind, st0);
        let ghost b = written(" {\n"@, ind, false);
        let ghost t = block_text(self.body.items@, ind4, true);
        let ghost c = written("}\n"@, ind, nst(t, true));
        fmt.write_str("do ");
        proof {
            reveal_strlit("do ");
            lemma_written_nst("do "@, ind, st0);
            lemma_line_start_concat(out0, d1);
            assert(!line_start(fmt.out@));
        }
        fmt.block_open();
        proof {
            assert(brace_open(false) == " {\n"@);
            lemma_out_assoc(out0, d1, b);
        }
        self.body.fmt(fmt);
        proof {
            lemma_out_assoc(out0, d1 + b, t);
            lemma_line_start_concat(out0 + (d1 + b), t);
        }
        fmt.block_close();
        proof {
            lemma_out_assoc(out0, d1 + b + t, c);
        }
        let mut tail = String::new();
        tail.append(" while (");
        self.cond.push_text(&mut tail);
        tail.append(");\n");
        proof {
            assert(tail@ =~= " while ("@ + expr_text(self.cond) + ");\n"@);
        }
        let ghost w = written(" while ("@ + expr_text(self.cond) + ");\n"@, ind, true);
        fmt.write_str(tail.as_str());
        proof {
            lemma_out_assoc(out0, d1 + b + t + c, w);
            assert(dowhile_text(*self, ind, st0) == d1 + b + t + c + w);
        }
    }
}

impl ForLoop {
    /// Creates a new for loop with no initializer, guard or step.
    pub fn new() -> (r: Self)
        ensures
            r.init is None,
            r.cond is None,
            r.step is None,
            r.body.items@ == Seq::<BlockItem>::empty(),
    {
        ForLoop { init: None, cond: None, step: None, body: Block::new() }
    }

    /// Creates a new for loop from the three loop expressions.
    pub fn from_expr(init: &Expr, cond: &Expr, step: &Expr) -> (r: Self)
        ensures
            r.init matches Some(e) && expr_text(e) == expr_text(*init),
            r.cond matches Some(e) && expr_text(e) == expr_text(*cond),
            r.step matches Some(e) && expr_text(e) == expr_text(*step),
            r.body.items@ == Seq::<BlockItem>::empty(),
    {
        Self::with_guard(init.clone(), cond.clone(), step.clone())
    }

    /// Creates a new for loop, consuming the three loop expressions.
    pub fn with_guard(init: Expr, cond: Expr, step: Expr) -> (r: Self)
        ensures
            r.init == Some(init),
            r.cond == Some(cond),
            r.step == Some(step),
            r.body.items@ == Seq::<BlockItem>::empty(),
    {
        ForLoop { init: Some(init), cond: Some(cond), step: Some(step), body: Block::new() }
    }

    /// Creates a new for loop with the supplied loop expressions and body.
    pub fn with_guard_and_body(init: Expr, cond: Expr, step: Expr, body: Block) -> (r: Self)
        ensures
            r.init == Some(init),
            r.cond == Some(cond),
            r.step == Some(step),
            r.body == body,
    {
        ForLoop { init: Some(init), cond: Some(cond), step: Some(step), body }
    }

    /// Replaces the body of the loop.
    pub fn set_body(&mut self, body: Block) -> (r: &mut Self)
        ensures
            *r == (ForLoop { body, ..*old(self) }),
            *final(self) == *final(r),
    {
        self.body = body;
        self
    }

    /// A mutable reference to the body of the loop.
    pub fn body(&mut self) -> (r: &mut Block)
        ensures
            *r == old(self).body,
            *final(self) == (ForLoop { body: *final(r), ..*old(self) }),
    {
        &mut self.body
    }

    /// Writes the for loop through the formatter; an empty body renders as a
    /// bare `;`-terminated guard.
    #[verifier::rlimit(60)]
    #[verifier::spinoff_prover]
    pub fn fmt(&self, fmt: &mut Formatter)
        requires
            old(fmt).spaces + INDENT_STEP * (2 + bitems_size(self.body.items@)) <= usize::MAX,
        ensures
            final(fmt).out@ == old(fmt).out@ + forloop_text(
                *self,
                old(fmt).spaces as nat,
                line_start(old(fmt).out@),
            ),
            final(fmt).spaces == old(fmt).spaces,
            final(fmt).scopes == old(fmt).scopes,
        decreases *self,
    {
        let ghost ind = fmt.spaces as nat;
        let ghost ind4 = (ind + INDENT_STEP) as nat;
        let ghost st0 = line_start(fmt.out@);
        let ghost out0 = fmt.out@;
        let ghost h = written(forloop_head(*self), ind, st0);
        let mut head = String::new();
        head.append("for (");
        match &self.init {
            Some(e) => e.push_text(&mut head),
            None => {},
        }
        head.append("; ");
        match &self.cond {
            Some(e) => e.push_text(&mut head),
            None => {},
        }
        head.append("; ");
        match &self.step {
            Some(e) => e.push_text(&mut head),
            None => {},
        }
        head.append(") \n");
        proof {
            assert(head@ =~= forloop_head(*self));
        }
        fmt.write_str(head.as_str());
        proof {
            reveal_strlit(") \n");
            lemma_written_nst(forloop_head(*self), ind, st0);
            lemma_line_start_concat(out0, h);
            assert(line_start(fmt.out@));
        }
        if self.body.items.len() > 0 {
            let ghost b = written("{\n"@, ind, true);
            let ghost t = block_text(self.body.items@, ind4, true);
            let ghost c = written("}\n"@, ind, nst(t, true));
            let ghost n = written("\n"@, ind, true);
            fmt.block_open();
            proof {
                assert(brace_open(true) == "{\n"@);
                lemma_out_assoc(out0, h, b);
            }
            self.body.fmt(fmt);
            proof {
                lemma_out_assoc(out0, h + b, t);
                lemma_line_start_concat(out0 + (h + b), t);
            }
            fmt.block_close();
            proof {
                lemma_out_assoc(out0, h + b + t, c);
            }
            fmt.write_str("\n");
            proof {
                lemma_out_assoc(out0, h + b + t + c, n);
                lemma_out_assoc(h, b, t);
                lemma_out_assoc(h, b + t, c);
                lemma_out_assoc(h, b + t + c, n);
                assert(forloop_text(*self, ind, st0) == h + (b + t + c + n));
            }
        } else {
            let ghost sc = written(";\n"@, ind4, true);
            fmt.indent_inc();
            fmt.write_str(";\n");
            fmt.indent_dec();
            proof {
                lemma_out_assoc(out0, h, sc);
                assert(forloop_text(*self, ind, st0) == h + sc);
            }
        }
    }
}

impl Default for ForLoop {
    /// The default for loop has no loop expressions and an empty body.
    fn default() -> (r: Self)
        ensures
            r.init is None,
            r.cond is None,
            r.step is None,
            r.body.items@ == Seq::<BlockItem>::empty(),
    {
        Self::new()
    }
}

} // verus!
