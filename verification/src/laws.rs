//! General properties of the line format, proved once and for all inputs.
//!
//! The exporter's contracts state each appended line as `line_text` over the
//! effective label sequence (globals followed by call-site labels). The
//! lemmas here unfold what that text looks like: how the label block splits
//! into the two groups, what a line without labels is, how every line ends,
//! and that duplicate keys are rendered like any other pair.

use vstd::prelude::*;
use crate::text::{label_block_text, labels_text, label_pair_text, line_text};

verus! {

/// A line with no labels at all is the bare `name value\n`: no brace block
/// appears between the name and the space.
pub proof fn lemma_line_without_labels(name: Seq<char>, value: Seq<char>)
    ensures
        line_text(name, Seq::<(Seq<char>, Seq<char>)>::empty(), value) == name + seq![' '] + value
            + seq!['\n'],
{
    assert(line_text(name, Seq::<(Seq<char>, Seq<char>)>::empty(), value) =~= name + seq![' ']
        + value + seq!['\n']);
}

/// Joining two non-empty label groups renders the first group's text, one
/// comma, then the second group's text: each group keeps its own order and
/// nothing is reordered or removed across the boundary.
pub proof fn lemma_labels_text_concat(
    g: Seq<(Seq<char>, Seq<char>)>,
    l: Seq<(Seq<char>, Seq<char>)>,
)
    requires
        g.len() > 0,
        l.len() > 0,
    ensures
        labels_text(g + l) == labels_text(g) + seq![','] + labels_text(l),
    decreases l.len(),
{
    let gl = g + l;
    if l.len() == 1 {
        assert(gl.drop_last() =~= g);
        assert(gl.last() == l[0]);
        assert(labels_text(gl) =~= labels_text(g) + seq![','] + labels_text(l));
    } else {
        lemma_labels_text_concat(g, l.drop_last());
        assert(gl.drop_last() =~= g + l.drop_last());
        assert(gl.last() == l.last());
        assert(labels_text(gl) =~= labels_text(g) + seq![','] + labels_text(l));
    }
}

/// The emitted label block lists the global pairs before the call-site
/// pairs, each group in its original relative order, joined by commas and
/// wrapped in braces; the block is omitted exactly when both groups are
/// empty.
pub proof fn lemma_label_block_split(
    g: Seq<(Seq<char>, Seq<char>)>,
    l: Seq<(Seq<char>, Seq<char>)>,
)
    ensures
        g.len() == 0 && l.len() == 0 ==> label_block_text(g + l) == Seq::<char>::empty(),
        g.len() + l.len() > 0 ==> label_block_text(g + l) == seq!['{'] + labels_text(g + l)
            + seq!['}'],
        g.len() == 0 ==> labels_text(g + l) == labels_text(l),
        l.len() == 0 ==> labels_text(g + l) == labels_text(g),
        g.len() > 0 && l.len() > 0 ==> labels_text(g + l) == labels_text(g) + seq![',']
            + labels_text(l),
{
    if g.len() == 0 {
        assert(g + l =~= l);
    }
    if l.len() == 0 {
        assert(g + l =~= g);
    }
    if g.len() > 0 && l.len() > 0 {
        lemma_labels_text_concat(g, l);
    }
}

/// Every line is its body — name, label block, one space, the value's
/// text — followed by exactly one newline, so lines appended in call order
/// stand separated by that newline alone, with no other separator.
pub proof fn lemma_line_terminated(
    name: Seq<char>,
    pairs: Seq<(Seq<char>, Seq<char>)>,
    value: Seq<char>,
)
    ensures
        line_text(name, pairs, value) == (name + label_block_text(pairs) + seq![' '] + value)
            + seq!['\n'],
        line_text(name, pairs, value).len() > 0,
        line_text(name, pairs, value).last() == '\n',
{
    assert(line_text(name, pairs, value) =~= (name + label_block_text(pairs) + seq![' '] + value)
        + seq!['\n']);
}

/// A pair whose key already occurred renders exactly like any other pair:
/// both occurrences appear in the joined text, in the order supplied, with
/// nothing deduplicated.
pub proof fn lemma_duplicate_keys_kept(
    prefix: Seq<(Seq<char>, Seq<char>)>,
    x: (Seq<char>, Seq<char>),
    y: (Seq<char>, Seq<char>),
)
    requires
        x.0 == y.0,
    ensures
        labels_text(prefix.push(x).push(y)) == labels_text(prefix.push(x)) + seq![',']
            + label_pair_text(y.0, y.1),
        labels_text(prefix.push(x)) == (if prefix.len() == 0 {
            label_pair_text(x.0, x.1)
        } else {
            labels_text(prefix) + seq![','] + label_pair_text(x.0, x.1)
        }),
{
    let px = prefix.push(x);
    let pxy = px.push(y);
    assert(pxy.drop_last() =~= px);
    assert(pxy.last() == y);
    assert(px.drop_last() =~= prefix);
    assert(px.last() == x);
}

} // verus!
