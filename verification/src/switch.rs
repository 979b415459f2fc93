//! Switch statements of the generated code: a scrutinee expression with a
//! list of cases and an optional default branch.

use vstd::prelude::*;

use crate::block::Block;
use crate::block::BlockItem;
use crate::block::bitems_size;
use crate::block::block_text;
use crate::expr::Expr;
use crate::expr::expr_text;
use crate::formatter::Formatter;
use crate::formatter::INDENT_STEP;
use crate::formatter::brace_open;
use crate::formatter::lemma_line_start_concat;
use crate::formatter::lemma_out_assoc;
use crate::formatter::lemma_written_nst;
use crate::formatter::line_start;
use crate::formatter::nst;
use crate::formatter::written;

verus! {

/// A switch statement.
#[derive(Debug)]
pub struct Switch {
    /// the scrutinee of the switch.
    pub cond: Expr,
    /// the cases of the switch, each a label with its block.
    pub cases: Vec<(Expr, Block)>,
    /// the default branch, if any.
    pub default: Option<Block>,
}

/// The combined nesting bound of the cases of a switch.
pub open spec fn cases_size(cs: Seq<(Expr, Block)>) -> nat
    decreases cs,
{
    if cs.len() == 0 {
        0
    } else {
        2 + bitems_size(cs[0].1.items@) + cases_size(cs.subrange(1, cs.len() as int))
    }
}

/// Each case's block bound is within the bound of the case list.
pub proof fn lemma_cases_size_elem(cs: Seq<(Expr, Block)>, i: int)
    requires
        0 <= i < cs.len(),
    ensures
        bitems_size(cs[i].1.items@) + 2 <= cases_size(cs),
    decreases cs.len(),
{
    if i > 0 {
        lemma_cases_size_elem(cs.subrange(1, cs.len() as int), i - 1);
    }
}

/// The nesting bound of the default branch of a switch.
pub open spec fn default_size(d: Option<Block>) -> nat {
    match d {
        Some(b) => 2 + bitems_size(b.items@),
        None => 0,
    }
}

/// The rendered text of one case: its label line, its block, and a `break`
/// closing line, all beginning at the start of a line.
pub open spec fn case_text(label: Expr, blk: Block, ind: nat) -> Seq<char> {
    written("case "@ + expr_text(label) + ":\n"@, ind, true) + written("{\n"@, ind, true)
        + block_text(blk.items@, (ind + INDENT_STEP) as nat, true) + written(
        "}\n"@,
        ind,
        nst(block_text(blk.items@, (ind + INDENT_STEP) as nat, true), true),
    ) + written("\nbreak;\n"@, ind, true)
}

/// The rendered text of a run of cases.
pub open spec fn cases_text(cs: Seq<(Expr, Block)>, ind: nat) -> Seq<char>
    decreases cs,
{
    if cs.len() == 0 {
        Seq::empty()
    } else {
        cases_text(cs.subrange(0, cs.len() - 1), ind) + case_text(
            cs[cs.len() - 1].0,
            cs[cs.len() - 1].1,
            ind,
        )
    }
}

/// The rendered text of the default branch, when present.
pub open spec fn default_text(d: Option<Block>, ind: nat) -> Seq<char> {
    match d {
        Some(b) => written("default: \n"@, ind, true) + written("{\n"@, ind, true) + block_text(
            b.items@,
            (ind + INDENT_STEP) as nat,
            true,
        ) + written(
            "}\n"@,
            ind,
            nst(block_text(b.items@, (ind + INDENT_STEP) as nat, true), true),
        ) + written("\n"@, ind, true),
        None => Seq::empty(),
    }
}

/// The rendered text of a switch statement at indentation `ind` with
/// line-start state `st`.
pub open spec fn switch_text(s: Switch, ind: nat, st: bool) -> Seq<char> {
    written("switch ("@ + expr_text(s.cond) + ") {\n"@, ind, st) + cases_text(s.cases@, ind)
        + default_text(s.default, ind) + written("}\n"@, ind, true)
}

impl Switch {
    /// Creates a new switch statement on the supplied scrutinee.
    pub fn new(cond: &Expr) -> (r: Self)
        ensures
            expr_text(r.cond) == expr_text(*cond),
            r.cases@ == Seq::<(Expr, Block)>::empty(),
            r.default is None,
    {
        Switch { cond: cond.clone(), cases: Vec::new(), default: None }
    }

    /// Sets the default branch of the switch.
    pub fn set_default(&mut self, default: Block) -> (r: &mut Self)
        ensures
            *r == (Switch { default: Some(default), ..*old(self) }),
            *final(self) == *final(r),
    {
        self.default = Some(default);
        self
    }

    /// Adds a new case with the given label and hands its block out for
    /// further construction.
    pub fn new_case(&mut self, label: Expr) -> (r: &mut Block)
        ensures
            r.items@ == Seq::<BlockItem>::empty(),
            final(self).cond == old(self).cond,
            final(self).default == old(self).default,
            final(self).cases@.len() == old(self).cases@.len() + 1,
            final(self).cases@.subrange(0, old(self).cases@.len() as int) == old(self).cases@,
            final(self).cases@.last() == (label, *final(r)),
    {
        self.cases.push((label, Block::new()));
        let n = self.cases.len();
        proof {
            assert(self.cases@.subrange(0, old(self).cases@.len() as int) =~= old(self).cases@);
        }
        &mut self.cases[n - 1].1
    }

    /// Adds a case with the given label and block.
    pub fn case(&mut self, label: Expr, block: Block) -> (r: &mut Self)
        ensures
            r.cond == old(self).cond,
            r.default == old(self).default,
            r.cases@ == old(self).cases@.push((label, block)),
            *final(self) == *final(r),
    {
        self.cases.push((label, block));
        self
    }

    /// Writes the switch statement through the formatter.
    #[verifier::loop_isolation(false)]
    #[verifier::rlimit(80)]
    #[verifier::spinoff_prover]
    pub fn fmt(&self, fmt: &mut Formatter)
        requires
            old(fmt).spaces + INDENT_STEP * (cases_size(self.cases@) + default_size(self.default))
                <= usize::MAX,
        ensures
            final(fmt).out@ == old(fmt).out@ + switch_text(
                *self,
                old(fmt).spaces as nat,
                line_start(old(fmt).out@),
            ),
            final(fmt).spaces == old(fmt).spaces,
            final(fmt).scopes == old(fmt).scopes,
    {
        let ghost ind = fmt.spaces as nat;
        let ghost ind4 = (ind + INDENT_STEP) as nat;
        let ghost st0 = line_start(fmt.out@);
        let ghost out0 = fmt.out@;
        let mut head = String::new();
        head.append("switch (");
        self.cond.push_text(&mut head);
        head.append(") {\n");
        proof {
            assert(head@ =~= "switch ("@ + expr_text(self.cond) + ") {\n"@);
        }
        let ghost h = written(head@, ind, st0);
        fmt.write_str(head.as_str());
        proof {
            reveal_strlit(") {\n");
            lemma_written_nst(head@, ind, st0);
            lemma_line_start_concat(out0, h);
            assert(line_start(fmt.out@));
        }
        let ghost base = fmt.out@;
        let ghost csv = self.cases@;
        let mut i: usize = 0;
        proof {
            assert(base + cases_text(csv.subrange(0, 0), ind) =~= base);
        }
        while i < self.cases.len()
            invariant
                i <= csv.len(),
                fmt.out@ == base + cases_text(csv.subrange(0, i as int), ind),
                line_start(fmt.out@),
                fmt.spaces == old(fmt).spaces,
                fmt.scopes == old(fmt).scopes,
            decreases csv.len() - i,
        {
            let ghost cur = csv.subrange(0, i as int + 1);
            let ghost prev0 = fmt.out@;
            proof {
                lemma_cases_size_elem(csv, i as int);
                assert(cur.subrange(0, cur.len() - 1) =~= csv.subrange(0, i as int));
                assert(cur[cur.len() - 1] == csv[i as int]);
            }
            let mut lab = String::new();
            lab.append("case ");
            self.cases[i].0.push_text(&mut lab);
            lab.append(":\n");
            proof {
                assert(lab@ =~= "case "@ + expr_text(csv[i as int].0) + ":\n"@);
            }
            let ghost l = written(lab@, ind, true);
            fmt.write_str(lab.as_str());
            proof {
                reveal_strlit(":\n");
                lemma_written_nst(lab@, ind, true);
                lemma_line_start_concat(prev0, l);
            }
            let ghost b = written("{\n"@, ind, true);
            fmt.block_open();
            proof {
                assert(brace_open(true) == "{\n"@);
                lemma_out_assoc(prev0, l, b);
            }
            self.cases[i].1.fmt(fmt);
            let ghost t = block_text(csv[i as int].1.items@, ind4, true);
            proof {
                lemma_out_assoc(prev0, l + b, t);
                lemma_line_start_concat(prev0 + (l + b), t);
            }
            fmt.block_close();
            let ghost c = written("}\n"@, ind, nst(t, true));
            proof {
                lemma_out_assoc(prev0, l + b + t, c);
            }
            let ghost brk = written("\nbreak;\n"@, ind, true);
            fmt.write_str("\nbreak;\n");
            proof {
                reveal_strlit("\nbreak;\n");
                lemma_out_assoc(prev0, l + b + t + c, brk);
                lemma_written_nst("\nbreak;\n"@, ind, true);
                lemma_line_start_concat(prev0 + (l + b + t + c), brk);
                assert(case_text(csv[i as int].0, csv[i as int].1, ind) == l + b + t + c + brk);
                assert(fmt.out@ =~= base + cases_text(cur, ind));
            }
            i += 1;
        }
        proof {
            assert(csv.subrange(0, csv.len() as int) =~= csv);
        }
        let ghost base2 = fmt.out@;
        match &self.default {
            Some(def) => {
                let ghost dl = written("default: \n"@, ind, true);
                fmt.write_str("default: \n");
                proof {
                    reveal_strlit("default: \n");
                    lemma_written_nst("default: \n"@, ind, true);
                    lemma_line_start_concat(base2, dl);
                }
                let ghost b = written("{\n"@, ind, true);
                fmt.block_open();
                proof {
                    assert(brace_open(true) == "{\n"@);
                    lemma_out_assoc(base2, dl, b);
                }
                def.fmt(fmt);
                let ghost t = block_text(def.items@, ind4, true);
                proof {
                    lemma_out_assoc(base2, dl + b, t);
                    lemma_line_start_concat(base2 + (dl + b), t);
                }
                fmt.block_close();
                let ghost c = written("}\n"@, ind, nst(t, true));
                proof {
                    lemma_out_assoc(base2, dl + b + t, c);
                }
                let ghost n = written("\n"@, ind, true);
                fmt.write_str("\n");
                proof {
                    reveal_strlit("\n");
                    lemma_out_assoc(base2, dl + b + t + c, n);
                    lemma_written_nst("\n"@, ind, true);
                    lemma_line_start_concat(base2 + (dl + b + t + c), n);
                    assert(default_text(self.default, ind) == dl + b + t + c + n);
                }
            },
            None => {
                proof {
                    assert(fmt.out@ + default_text(self.default, ind) =~= fmt.out@);
                }
            },
        }
        fmt.write_str("}\n");
        proof {
            assert(final(fmt).out@ =~= old(fmt).out@ + switch_text(*self, ind, st0));
        }
    }
}

} // verus!
