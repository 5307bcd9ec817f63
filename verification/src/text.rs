//! The textual model of a Prometheus exposition line, and a verified
//! decimal renderer for integer metric values.
//!
//! A line has the shape `name{k1="v1",k2="v2"} value\n`, with the brace
//! block omitted when there are no labels. The spec functions here define
//! that text exactly, character by character, and the exporter's contracts
//! are stated over them.

use vstd::prelude::*;

verus! {

/// The text of a single label pair: `key="value"`.
pub open spec fn label_pair_text(key: Seq<char>, value: Seq<char>) -> Seq<char> {
    key + seq!['=', '"'] + value + seq!['"']
}

/// The comma-joined text of a label sequence, without the surrounding braces.
/// Pairs appear in order, duplicates and all; nothing is sorted or removed.
pub open spec fn labels_text(pairs: Seq<(Seq<char>, Seq<char>)>) -> Seq<char>
    decreases pairs.len(),
{
    if pairs.len() == 0 {
        Seq::<char>::empty()
    } else if pairs.len() == 1 {
        label_pair_text(pairs[0].0, pairs[0].1)
    } else {
        labels_text(pairs.drop_last()) + seq![','] + label_pair_text(
            pairs.last().0,
            pairs.last().1,
        )
    }
}

/// The brace block of a line: `{...}` around the joined pairs, or nothing
/// at all when the pair sequence is empty.
pub open spec fn label_block_text(pairs: Seq<(Seq<char>, Seq<char>)>) -> Seq<char> {
    if pairs.len() == 0 {
        Seq::<char>::empty()
    } else {
        seq!['{'] + labels_text(pairs) + seq!['}']
    }
}

/// One full exposition line: name, brace block, a single space, the value's
/// text, and a terminating newline.
pub open spec fn line_text(
    name: Seq<char>,
    pairs: Seq<(Seq<char>, Seq<char>)>,
    value: Seq<char>,
) -> Seq<char> {
    name + label_block_text(pairs) + seq![' '] + value + seq!['\n']
}

/// The decimal digit character for a value below ten.
pub open spec fn digit_char(d: nat) -> char {
    if d == 0 {
        '0'
    } else if d == 1 {
        '1'
    } else if d == 2 {
        '2'
    } else if d == 3 {
        '3'
    } else if d == 4 {
        '4'
    } else if d == 5 {
        '5'
    } else if d == 6 {
        '6'
    } else if d == 7 {
        '7'
    } else if d == 8 {
        '8'
    } else {
        '9'
    }
}

/// The decimal digits of a natural number, most significant first, with no
/// leading zeros (a lone `0` for zero).
pub open spec fn dec_digits(n: nat) -> Seq<char>
    decreases n,
{
    if n < 10 {
        seq![digit_char(n)]
    } else {
        dec_digits(n / 10) + seq![digit_char(n % 10)]
    }
}

/// The decimal text of an integer: a leading `-` for negatives, then the
/// digits of the magnitude.
pub open spec fn dec_int(v: int) -> Seq<char> {
    if v < 0 {
        seq!['-'] + dec_digits((-v) as nat)
    } else {
        dec_digits(v as nat)
    }
}

/// The single-character string for a decimal digit.
fn digit_str(d: u64) -> (s: &'static str)
    requires
        d < 10,
    ensures
        s@ =~= seq![digit_char(d as nat)],
{
    proof {
        reveal_strlit("0");
        reveal_strlit("1");
        reveal_strlit("2");
        reveal_strlit("3");
        reveal_strlit("4");
        reveal_strlit("5");
        reveal_strlit("6");
        reveal_strlit("7");
        reveal_strlit("8");
        reveal_strlit("9");
    }
    match d {
        0 => "0",
        1 => "1",
        2 => "2",
        3 => "3",
        4 => "4",
        5 => "5",
        6 => "6",
        7 => "7",
        8 => "8",
        _ => "9",
    }
}

/// Appends the decimal digits of `n` to `buf`, most significant first.
fn push_dec_digits(buf: &mut String, n: u64)
    ensures
        final(buf)@ == old(buf)@ + dec_digits(n as nat),
    decreases n,
{
    if n >= 10 {
        push_dec_digits(buf, n / 10);
    }
    let d: &'static str = digit_str(n % 10);
    buf.append(d);
    proof {
        assert(final(buf)@ =~= old(buf)@ + dec_digits(n as nat));
    }
}

/// Renders an integer metric value as its decimal text. For every value an
/// `export` call can take, this is exactly the text the platform's default
/// numeric-to-string conversion would produce.
pub fn render_i64(v: i64) -> (s: String)
    ensures
        s@ == dec_int(v as int),
{
    let mut s: String = String::new();
    if v < 0 {
        proof {
            reveal_strlit("-");
        }
        s.append("-");
        assert(s@ =~= seq!['-']);
        let mag: u64 = ((-(v + 1)) as u64) + 1;
        assert(mag as int == -(v as int));
        push_dec_digits(&mut s, mag);
        assert(s@ =~= dec_int(v as int));
    } else {
        push_dec_digits(&mut s, v as u64);
        assert(s@ =~= dec_int(v as int));
    }
    s
}

} // verus!
