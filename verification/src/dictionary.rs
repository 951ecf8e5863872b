//! Dictionary encoding of a column of labels.
//!
//! The dictionary of a column lists the distinct labels in the order in
//! which they first occur. Each row then holds a key: the position of its
//! label in the dictionary.

use vstd::prelude::*;

verus! {

/// The distinct members of `labels`, each where it first occurs.
pub open spec fn first_seen<T>(labels: Seq<T>) -> Seq<T>
    decreases labels.len(),
{
    if labels.len() == 0 {
        Seq::empty()
    } else {
        let before = first_seen(labels.drop_last());
        if before.contains(labels.last()) {
            before
        } else {
            before.push(labels.last())
        }
    }
}

/// The key of each row of `labels`: the position of the row's label in the
/// dictionary of `labels`.
pub open spec fn dictionary_keys<T>(labels: Seq<T>) -> Seq<int> {
    Seq::new(labels.len(), |row: int| first_seen(labels).index_of(labels[row]))
}

/// The dictionary holds each label of the column once and nothing else.
pub proof fn lemma_first_seen_distinct<T>(labels: Seq<T>)
    ensures
        first_seen(labels).no_duplicates(),
        first_seen(labels).len() <= labels.len(),
        forall|label: T| first_seen(labels).contains(label) <==> labels.contains(label),
    decreases labels.len(),
{
    if labels.len() > 0 {
        let front = labels.drop_last();
        let before = first_seen(front);
        lemma_first_seen_distinct(front);
        assert forall|label: T| first_seen(labels).contains(label) <==> labels.contains(
            label,
        ) by {
            if labels.contains(label) {
                let at = choose|at: int| 0 <= at < labels.len() && labels[at] == label;
                if at < front.len() {
                    assert(front[at] == label);
                    assert(front.contains(label));
                }
                if before.contains(label) {
                    let held = choose|held: int| 0 <= held < before.len() && before[held] == label;
                    assert(first_seen(labels)[held] == label);
                } else {
                    assert(labels.last() == label);
                    assert(first_seen(labels)[before.len() as int] == label);
                }
            }
            if first_seen(labels).contains(label) {
                let held = choose|held: int|
                    0 <= held < first_seen(labels).len() && first_seen(labels)[held] == label;
                if held < before.len() {
                    assert(before[held] == label);
                    assert(before.contains(label));
                    assert(front.contains(label));
                    let at = choose|at: int| 0 <= at < front.len() && front[at] == label;
                    assert(labels[at] == label);
                } else {
                    assert(labels[labels.len() - 1] == label);
                }
            }
        }
    }
}

/// Labels enter the dictionary in the order of their first occurrence: the
/// dictionary of a column continues the dictionary of each of its prefixes.
pub proof fn lemma_first_seen_order<T>(labels: Seq<T>, upto: int)
    requires
        0 <= upto <= labels.len(),
    ensures
        first_seen(labels.take(upto)).is_prefix_of(first_seen(labels)),
    decreases labels.len(),
{
    if upto == labels.len() {
        assert(labels.take(upto) == labels);
    } else {
        lemma_first_seen_order(labels.drop_last(), upto);
        assert(labels.drop_last().take(upto) == labels.take(upto));
    }
}

/// Every key points into the dictionary, at the label of its row.
pub proof fn lemma_dictionary_keys_valid<T>(labels: Seq<T>, row: int)
    requires
        0 <= row < labels.len(),
    ensures
        dictionary_keys(labels).len() == labels.len(),
        0 <= dictionary_keys(labels)[row] < first_seen(labels).len(),
        first_seen(labels)[dictionary_keys(labels)[row]] == labels[row],
{
    lemma_first_seen_distinct(labels);
    assert(labels.contains(labels[row]));
    assert(first_seen(labels).contains(labels[row]));
}

/// A dictionary is no longer than the list of labels that its column draws
/// from, however many rows the column has.
pub proof fn lemma_first_seen_compact<T>(labels: Seq<T>, alphabet: Seq<T>)
    requires
        forall|row: int| 0 <= row < labels.len() ==> alphabet.contains(#[trigger] labels[row]),
    ensures
        first_seen(labels).len() <= alphabet.len(),
{
    let held = first_seen(labels);
    lemma_first_seen_distinct(labels);
    held.unique_seq_to_set();
    alphabet.lemma_cardinality_of_set();
    assert forall|label: T| held.to_set().contains(label) implies alphabet.to_set().contains(
        label,
    ) by {
        assert(held.contains(label));
        assert(labels.contains(label));
        let row = choose|row: int| 0 <= row < labels.len() && labels[row] == label;
        assert(alphabet.contains(labels[row]));
    }
    vstd::set_lib::lemma_len_subset(held.to_set(), alphabet.to_set());
}

} // verus!
