//! Enumerations of the generated C code: a name with an ordered list of
//! variants, rendered comma-separated inside a brace-delimited block.

use vstd::prelude::*;

use crate::doc::Doc;
use crate::doc::add_text_entries;
use crate::doc::doc_add_text;
use crate::doc::opt_doc_flat;
use crate::doc::opt_doc_lines;
use crate::doc::push_opt_doc;
use crate::formatter::Formatter;
use crate::formatter::INDENT_STEP;
use crate::formatter::brace_open;
use crate::formatter::line_start;
use crate::formatter::nst;
use crate::formatter::written;
use crate::variant::Variant;
use crate::variant::variant_flat;

verus! {

/// The body of an enum: its variants, the first at the start of a line, each
/// further one preceded by a comma and a line break.
pub open spec fn variants_body(vs: Seq<Variant>, ind: nat) -> Seq<char>
    decreases vs.len(),
{
    if vs.len() == 0 {
        Seq::empty()
    } else if vs.len() == 1 {
        written(variant_flat(vs[0]), ind, true)
    } else {
        variants_body(vs.subrange(0, vs.len() - 1), ind) + written(
            ",\n"@,
            ind,
            nst(variant_flat(vs[vs.len() - 2]), true),
        ) + written(variant_flat(vs[vs.len() - 1]), ind, true)
    }
}

/// The line-start state after the body of an enum.
pub open spec fn variants_end_st(vs: Seq<Variant>) -> bool {
    if vs.len() == 0 {
        true
    } else {
        nst(variant_flat(vs[vs.len() - 1]), true)
    }
}

/// The rendered text of an enum at indentation `ind` with line-start state
/// `st`: documentation and `enum <name>`, a brace-delimited block of
/// variants, and a closing `;`.
pub open spec fn enum_text(e: Enum, ind: nat, st: bool) -> Seq<char> {
    let head = opt_doc_flat(e.doc) + "enum "@ + e.name@;
    let st1 = nst(head, st);
    written(head, ind, st) + written(brace_open(st1), ind, st1) + variants_body(
        e.variants@,
        (ind + INDENT_STEP) as nat,
    ) + written("}\n"@, ind, variants_end_st(e.variants@)) + written(";\n"@, ind, true)
}

/// A C enum.
#[derive(Debug)]
pub struct Enum {
    /// The name of the enum.
    pub name: String,
    /// The variants of the enum, in insertion order.
    pub variants: Vec<Variant>,
    /// The documentation comment of the enum.
    pub doc: Option<Doc>,
}

impl Enum {
    /// Returns a new enum with the given name and no variants.
    pub fn new(name: &str) -> (r: Self)
        ensures
            r.name@ == name@,
            r.variants@ == Seq::<Variant>::empty(),
            r.doc is None,
    {
        Enum { name: name.to_owned(), variants: Vec::new(), doc: None }
    }

    /// Replaces the documentation comment of the enum.
    pub fn doc(&mut self, doc: Doc) -> (r: &mut Self)
        ensures
            r.name == old(self).name,
            r.variants == old(self).variants,
            r.doc == Some(doc),
            *final(self) == *final(r),
    {
        self.doc = Some(doc);
        self
    }

    /// Adds a string to the documentation comment of the enum.
    pub fn doc_str(&mut self, doc: &str) -> (r: &mut Self)
        ensures
            r.name == old(self).name,
            r.variants == old(self).variants,
            opt_doc_lines(r.doc) == opt_doc_lines(old(self).doc) + add_text_entries(doc@),
            *final(self) == *final(r),
    {
        doc_add_text(&mut self.doc, doc);
        self
    }

    /// Creates a new variant with the given name and value and hands it out
    /// for further construction.
    pub fn new_variant(&mut self, name: &str, value: Option<u64>) -> (r: &mut Variant)
        ensures
            r.name@ == name@,
            r.value == value,
            r.doc is None,
            final(self).name == old(self).name,
            final(self).doc == old(self).doc,
            final(self).variants@ == old(self).variants@.push(*final(r)),
    {
        let v = match value {
            Some(x) => Variant::new_with_value(name, x),
            None => Variant::new(name),
        };
        self.variants.push(v);
        let n = self.variants.len();
        &mut self.variants[n - 1]
    }

    /// Pushes a variant onto the enum.
    pub fn push_variant(&mut self, item: Variant) -> (r: &mut Self)
        ensures
            r.name == old(self).name,
            r.doc == old(self).doc,
            r.variants@ == old(self).variants@.push(item),
            *final(self) == *final(r),
    {
        self.variants.push(item);
        self
    }

    /// Writes the enum through the formatter: its variants comma-separated
    /// inside a brace-delimited block, closed by `;`.
    #[verifier::loop_isolation(false)]
    #[verifier::rlimit(60)]
    pub fn fmt(&self, fmt: &mut Formatter)
        requires
            old(fmt).spaces + INDENT_STEP <= usize::MAX,
        ensures
            final(fmt).out@ == old(fmt).out@ + enum_text(
                *self,
                old(fmt).spaces as nat,
                line_start(old(fmt).out@),
            ),
            final(fmt).spaces == old(fmt).spaces,
            final(fmt).scopes == old(fmt).scopes,
    {
        let ghost ind = fmt.spaces as nat;
        let ghost ind4 = (ind + INDENT_STEP) as nat;
        let ghost st0 = line_start(fmt.out@);
        let mut head = String::new();
        push_opt_doc(&self.doc, &mut head);
        head.append("enum ");
        head.append(self.name.as_str());
        proof {
            assert(head@ =~= opt_doc_flat(self.doc) + "enum "@ + self.name@);
        }
        fmt.write_str(head.as_str());
        fmt.block_open();
        let ghost base = fmt.out@;
        let ghost vsv = self.variants@;
        let mut i: usize = 0;
        proof {
            assert(base + variants_body(vsv.subrange(0, 0), ind4) =~= base);
        }
        while i < self.variants.len()
            invariant
                i <= vsv.len(),
                fmt.out@ == base + variants_body(vsv.subrange(0, i as int), ind4),
                line_start(fmt.out@) == variants_end_st(vsv.subrange(0, i as int)),
                fmt.spaces == old(fmt).spaces + INDENT_STEP,
                fmt.scopes == old(fmt).scopes,
            decreases vsv.len() - i,
        {
            let ghost pre = vsv.subrange(0, i as int);
            let ghost cur = vsv.subrange(0, i as int + 1);
            proof {
                assert(cur.subrange(0, cur.len() - 1) =~= pre);
                assert(cur[cur.len() - 1] == vsv[i as int]);
            }
            if i > 0 {
                fmt.write_str(",\n");
                proof {
                    reveal_strlit(",\n");
                    crate::formatter::lemma_written_nst(
                        ",\n"@,
                        ind4,
                        nst(variant_flat(vsv[i as int - 1]), true),
                    );
                    crate::formatter::lemma_line_start_concat(
                        base + variants_body(pre, ind4),
                        written(",\n"@, ind4, nst(variant_flat(vsv[i as int - 1]), true)),
                    );
                    assert(pre[pre.len() - 1] == vsv[i as int - 1]);
                    assert(cur[cur.len() - 2] == vsv[i as int - 1]);
                }
            }
            self.variants[i].fmt(fmt);
            proof {
                let flat = variant_flat(vsv[i as int]);
                crate::formatter::lemma_written_nst(flat, ind4, true);
                if i > 0 {
                    crate::formatter::lemma_line_start_concat(
                        base + variants_body(pre, ind4) + written(
                            ",\n"@,
                            ind4,
                            nst(variant_flat(vsv[i as int - 1]), true),
                        ),
                        written(flat, ind4, true),
                    );
                    assert(fmt.out@ =~= base + variants_body(cur, ind4));
                } else {
                    crate::formatter::lemma_line_start_concat(base, written(flat, ind4, true));
                    assert(fmt.out@ =~= base + variants_body(cur, ind4));
                }
                assert(line_start(fmt.out@) == variants_end_st(cur));
            }
            i += 1;
        }
        proof {
            assert(vsv.subrange(0, vsv.len() as int) =~= vsv);
        }
        fmt.block_close();
        fmt.write_str(";\n");
        proof {
            assert(final(fmt).out@ =~= old(fmt).out@ + enum_text(*self, ind, st0));
        }
    }
}

} // verus!
