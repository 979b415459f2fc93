//! Shared text helpers: decimal and hexadecimal number rendering, and
//! splitting of user-supplied text into physical lines.

use vstd::prelude::*;

verus! {

/// The decimal digit character for `d < 10`.
pub open spec fn dec_digit(d: nat) -> char {
    if d == 0 {
        '0'
    } else if d == 1 {
        '1'
    } else if d == 2 {
        '2'
    } else if d == 3 {
        '3'
    } else if d == 4 {
        '4'
    } else if d == 5 {
        '5'
    } else if d == 6 {
        '6'
    } else if d == 7 {
        '7'
    } else if d == 8 {
        '8'
    } else {
        '9'
    }
}

/// The hexadecimal digit character for `d < 16`, lower case.
pub open spec fn hex_digit(d: nat) -> char {
    if d < 10 {
        dec_digit(d)
    } else if d == 10 {
        'a'
    } else if d == 11 {
        'b'
    } else if d == 12 {
        'c'
    } else if d == 13 {
        'd'
    } else if d == 14 {
        'e'
    } else {
        'f'
    }
}

/// `n` written in decimal, most significant digit first, no leading zeros
/// (a single `0` for zero).
pub open spec fn dec_text(n: nat) -> Seq<char>
    decreases n,
{
    if n < 10 {
        seq![dec_digit(n)]
    } else {
        dec_text(n / 10) + seq![dec_digit(n % 10)]
    }
}

/// `n` written in lower-case hexadecimal, without a base prefix.
pub open spec fn hex_text(n: nat) -> Seq<char>
    decreases n,
{
    if n < 16 {
        seq![hex_digit(n)]
    } else {
        hex_text(n / 16) + seq![hex_digit(n % 16)]
    }
}

/// Turns a digit below ten into its character.
fn dec_digit_char(d: u64) -> (c: char)
    requires
        d < 10,
    ensures
        c == dec_digit(d as nat),
{
    match d {
        0 => '0',
        1 => '1',
        2 => '2',
        3 => '3',
        4 => '4',
        5 => '5',
        6 => '6',
        7 => '7',
        8 => '8',
        _ => '9',
    }
}

/// Turns a digit below sixteen into its lower-case character.
fn hex_digit_char(d: u64) -> (c: char)
    requires
        d < 16,
    ensures
        c == hex_digit(d as nat),
{
    if d < 10 {
        dec_digit_char(d)
    } else {
        match d {
            10 => 'a',
            11 => 'b',
            12 => 'c',
            13 => 'd',
            14 => 'e',
            _ => 'f',
        }
    }
}

/// Relies on String::push: appends one character to the string.
#[verifier::external_body]
pub(crate) fn push_char(s: &mut String, c: char)
    ensures
        final(s)@ == old(s)@ + seq![c],
{
    s.push(c);
}

/// Appends `n` in decimal to `s`.
pub fn push_dec(s: &mut String, n: u64)
    ensures
        final(s)@ == old(s)@ + dec_text(n as nat),
    decreases n,
{
    if n < 10 {
        push_char(s, dec_digit_char(n));
    } else {
        push_dec(s, n / 10);
        let ghost mid = s@;
        push_char(s, dec_digit_char(n % 10));
        proof {
            assert((old(s)@ + dec_text((n / 10) as nat)) + seq![dec_digit((n % 10) as nat)]
                =~= old(s)@ + dec_text(n as nat));
        }
    }
}

/// Appends `n` in lower-case hexadecimal to `s`.
pub fn push_hex(s: &mut String, n: u64)
    ensures
        final(s)@ == old(s)@ + hex_text(n as nat),
    decreases n,
{
    if n < 16 {
        push_char(s, hex_digit_char(n));
    } else {
        push_hex(s, n / 16);
        push_char(s, hex_digit_char(n % 16));
        proof {
            assert((old(s)@ + hex_text((n / 16) as nat)) + seq![hex_digit((n % 16) as nat)]
                =~= old(s)@ + hex_text(n as nat));
        }
    }
}

/// The position of the first newline in `s`, or `-1` when there is none.
pub open spec fn first_nl(s: Seq<char>) -> int
    decreases s.len(),
{
    if s.len() == 0 {
        -1
    } else if s[0] == '\n' {
        0
    } else {
        let r = first_nl(s.drop_first());
        if r < 0 {
            -1
        } else {
            r + 1
        }
    }
}

/// When `a` holds no newline, the first newline of `a + b` is the first
/// newline of `b`, shifted past `a`.
pub proof fn lemma_first_nl_concat(a: Seq<char>, b: Seq<char>)
    requires
        first_nl(a) == -1,
    ensures
        first_nl(b) < 0 ==> first_nl(a + b) == -1,
        first_nl(b) >= 0 ==> first_nl(a + b) == a.len() + first_nl(b),
    decreases a.len(),
{
    if a.len() == 0 {
        assert(a + b =~= b);
    } else {
        assert((a + b).drop_first() =~= a.drop_first() + b);
        lemma_first_nl_concat(a.drop_first(), b);
    }
}

/// The physical lines of `s`: the text split at newlines, with a trailing
/// newline closing the last line rather than opening an empty one.
pub open spec fn split_lines(s: Seq<char>) -> Seq<Seq<char>>
    decreases s.len(),
{
    if s.len() == 0 {
        Seq::empty()
    } else {
        let i = first_nl(s);
        if i < 0 || i >= s.len() {
            seq![s]
        } else {
            seq![s.subrange(0, i)] + split_lines(s.subrange(i + 1, s.len() as int))
        }
    }
}

/// The physical lines of `s`, as owned strings.
#[verifier::loop_isolation(false)]
pub fn lines_of(s: &str) -> (r: Vec<String>)
    ensures
        r.deep_view() == split_lines(s@),
{
    let n = s.unicode_len();
    let mut lines: Vec<String> = Vec::new();
    let mut cur = String::new();
    let mut i: usize = 0;
    proof {
        assert(cur@ + s@.subrange(0, n as int) =~= s@);
        assert(lines.deep_view() + split_lines(s@) =~= split_lines(s@));
    }
    while i < n
        invariant
            i <= n,
            first_nl(cur@) == -1,
            split_lines(s@) == lines.deep_view() + split_lines(
                cur@ + s@.subrange(i as int, n as int),
            ),
        decreases n - i,
    {
        let ghost rest = s@.subrange(i as int, n as int);
        let ghost rest1 = s@.subrange(i as int + 1, n as int);
        let ghost prev_lines = lines.deep_view();
        proof {
            assert(rest.drop_first() =~= rest1);
            assert(rest[0] == s@[i as int]);
        }
        let c = s.get_char(i);
        if c == '\n' {
            proof {
                lemma_first_nl_concat(cur@, rest);
                let whole = cur@ + rest;
                assert(first_nl(rest) == 0);
                assert(first_nl(whole) == cur@.len());
                assert(whole.subrange(0, cur@.len() as int) =~= cur@);
                assert(whole.subrange(cur@.len() as int + 1, whole.len() as int) =~= rest1);
                assert(split_lines(whole) == seq![cur@] + split_lines(rest1));
            }
            let ghost done_view = cur@;
            let done = cur;
            cur = String::new();
            lines.push(done);
            proof {
                assert(lines.deep_view() =~= prev_lines.push(done_view));
                assert(cur@ + rest1 =~= rest1);
                assert(prev_lines + (seq![done_view] + split_lines(rest1)) =~= prev_lines.push(
                    done_view,
                ) + split_lines(rest1));
            }
        } else {
            proof {
                assert((cur@ + rest) =~= (cur@ + seq![c]) + rest1);
                let single: Seq<char> = seq![c];
                assert(single.len() == 1 && single[0] == c);
                assert(single.drop_first() =~= Seq::<char>::empty());
                assert(first_nl(single.drop_first()) == -1);
                assert(first_nl(single) == -1);
                lemma_first_nl_concat(cur@, seq![c]);
            }
            push_char(&mut cur, c);
        }
        i += 1;
    }
    proof {
        assert(cur@ + s@.subrange(n as int, n as int) =~= cur@);
    }
    if !cur.as_str().is_empty() {
        let ghost prev_lines = lines.deep_view();
        let ghost done_view = cur@;
        proof {
            assert(split_lines(cur@) == seq![cur@]);
        }
        lines.push(cur);
        proof {
            assert(lines.deep_view() =~= prev_lines.push(done_view));
            assert(prev_lines + seq![done_view] =~= prev_lines.push(done_view));
        }
    } else {
        proof {
            assert(lines.deep_view() + split_lines(cur@) =~= lines.deep_view());
        }
    }
    lines
}

} // verus!
