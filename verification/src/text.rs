//! Sizes of text in bytes, as a column of text stores it: in UTF-8.

use vstd::prelude::*;
use vstd::utf8::encode_utf8;

verus! {

/// The number of bytes that `text` takes in UTF-8.
pub open spec fn utf8_len(text: Seq<char>) -> nat {
    encode_utf8(text).len()
}

/// The number of bytes that all of `texts` take in UTF-8.
pub open spec fn total_utf8_len(texts: Seq<Seq<char>>) -> nat
    decreases texts.len(),
{
    if texts.len() == 0 {
        0
    } else {
        total_utf8_len(texts.drop_last()) + utf8_len(texts.last())
    }
}

/// The bytes of a text are the bytes of its parts.
pub proof fn lemma_utf8_len_concat(first: Seq<char>, rest: Seq<char>)
    ensures
        utf8_len(first + rest) == utf8_len(first) + utf8_len(rest),
    decreases first.len(),
{
    if first.len() == 0 {
        assert(first + rest == rest);
    } else {
        assert((first + rest).drop_first() == first.drop_first() + rest);
        lemma_utf8_len_concat(first.drop_first(), rest);
    }
}

/// A part of a text takes no more bytes than the text.
pub proof fn lemma_utf8_len_part(text: Seq<char>, from: int, to: int)
    requires
        0 <= from <= to <= text.len(),
    ensures
        utf8_len(text.subrange(from, to)) <= utf8_len(text),
{
    let head = text.take(from);
    let part = text.subrange(from, to);
    assert(text == (head + part) + text.skip(to));
    lemma_utf8_len_concat(head + part, text.skip(to));
    lemma_utf8_len_concat(head, part);
}

/// A run of texts takes no more bytes than the run continued.
pub proof fn lemma_total_utf8_len_prefix(texts: Seq<Seq<char>>, upto: int)
    requires
        0 <= upto <= texts.len(),
    ensures
        total_utf8_len(texts.take(upto)) <= total_utf8_len(texts),
    decreases texts.len(),
{
    if upto == texts.len() {
        assert(texts.take(upto) == texts);
    } else {
        lemma_total_utf8_len_prefix(texts.drop_last(), upto);
        assert(texts.drop_last().take(upto) == texts.take(upto));
    }
}

/// Texts of at most `bound` bytes each take at most `bound` bytes a piece.
pub proof fn lemma_total_utf8_len_bound(texts: Seq<Seq<char>>, bound: nat)
    requires
        forall|i: int| 0 <= i < texts.len() ==> utf8_len(#[trigger] texts[i]) <= bound,
    ensures
        total_utf8_len(texts) <= texts.len() * bound,
    decreases texts.len(),
{
    if texts.len() > 0 {
        lemma_total_utf8_len_bound(texts.drop_last(), bound);
        assert(texts.len() * bound == (texts.len() - 1) * bound + bound) by (nonlinear_arith);
    }
}

} // verus!
