//! What holds of the rewriter whatever the rules, the batch and the mode.

use vstd::prelude::*;
use crate::engine::RegexReplacer;
use crate::matcher::pattern_compiles;
use crate::rule::{all_compile, apply_rule, apply_rules, first_rejected, rewrite_batch, RuleSpec};

verus! {

/// A batch whose text at position `k` is the text of `batch` at position
/// `order[k]`.
pub open spec fn rearranged<T>(batch: Seq<T>, order: Seq<int>) -> Seq<T> {
    Seq::new(order.len(), |k: int| batch[order[k]])
}

/// Whether every entry of `order` is a position of a batch of `len` texts.
pub open spec fn positions_within(order: Seq<int>, len: nat) -> bool {
    forall|k: int| 0 <= k < order.len() ==> 0 <= #[trigger] order[k] < len
}

/// Two engines with the same rules rewrite a batch of one text to the same
/// batch of one text, whatever their modes: the text that the rules make of
/// it.
pub proof fn lemma_single_text_ignores_mode(a: RegexReplacer, b: RegexReplacer, text: Seq<char>)
    requires
        a.rules() == b.rules(),
    ensures
        a.transformed(seq![text]) == b.transformed(seq![text]),
        a.transformed(seq![text]) == seq![apply_rules(a.rules(), text)],
{
    assert(a.transformed(seq![text]) =~= seq![apply_rules(a.rules(), text)]);
}

/// A rewritten batch is as long as the batch, and its text at each position
/// is made from the batch's text at that position alone.
pub proof fn lemma_rewrite_is_pointwise(rules: Seq<RuleSpec>, batch: Seq<Seq<char>>)
    ensures
        rewrite_batch(rules, batch).len() == batch.len(),
        forall|i: int|
            0 <= i < batch.len() ==> #[trigger] rewrite_batch(rules, batch)[i] == apply_rules(
                rules,
                batch[i],
            ),
{
}

/// Where two batches hold the same text, at whatever positions and among
/// whatever other texts, their rewritten batches hold the same text at those
/// positions.
pub proof fn lemma_rewrite_ignores_neighbours(
    rules: Seq<RuleSpec>,
    a: Seq<Seq<char>>,
    i: int,
    b: Seq<Seq<char>>,
    j: int,
)
    requires
        0 <= i < a.len(),
        0 <= j < b.len(),
        a[i] == b[j],
    ensures
        rewrite_batch(rules, a)[i] == rewrite_batch(rules, b)[j],
{
}

/// Rearranging a batch rearranges the rewritten batch in the same way.
pub proof fn lemma_rewrite_commutes_with_rearranging(
    rules: Seq<RuleSpec>,
    batch: Seq<Seq<char>>,
    order: Seq<int>,
)
    requires
        positions_within(order, batch.len()),
    ensures
        rewrite_batch(rules, rearranged(batch, order)) == rearranged(
            rewrite_batch(rules, batch),
            order,
        ),
{
    assert(rewrite_batch(rules, rearranged(batch, order)) =~= rearranged(
        rewrite_batch(rules, batch),
        order,
    ));
}

/// With no rules every text, and so every batch, comes back unchanged.
pub proof fn lemma_no_rules_change_nothing(batch: Seq<Seq<char>>)
    ensures
        rewrite_batch(Seq::<RuleSpec>::empty(), batch) == batch,
        forall|text: Seq<char>| #[trigger] apply_rules(Seq::<RuleSpec>::empty(), text) == text,
{
    assert(rewrite_batch(Seq::<RuleSpec>::empty(), batch) =~= batch);
}

/// The empty batch is rewritten to the empty batch.
pub proof fn lemma_empty_batch_stays_empty(rules: Seq<RuleSpec>)
    ensures
        rewrite_batch(rules, Seq::<Seq<char>>::empty()) == Seq::<Seq<char>>::empty(),
{
    assert(rewrite_batch(rules, Seq::<Seq<char>>::empty()) =~= Seq::<Seq<char>>::empty());
}

/// Through any chain of mode switches an engine rewrites a batch to the same
/// result: `first`, `second`, `third` and `fourth` are the engine before and
/// after three switches, each of which keeps the rules.
pub proof fn lemma_mode_switches_keep_output(
    first: RegexReplacer,
    second: RegexReplacer,
    third: RegexReplacer,
    fourth: RegexReplacer,
    batch: Seq<Seq<char>>,
)
    requires
        second.rules() == first.rules(),
        third.rules() == second.rules(),
        fourth.rules() == third.rules(),
    ensures
        second.transformed(batch) == first.transformed(batch),
        third.transformed(batch) == first.transformed(batch),
        fourth.transformed(batch) == first.transformed(batch),
{
}

/// Where the pattern at position `k` of a rule list does not compile, not
/// all patterns compile, and one position at or before `k` is that of the
/// first pattern that does not: the one that construction reports.
pub proof fn lemma_rejection_has_first(pairs: Seq<(&str, &str)>, k: int)
    requires
        0 <= k < pairs.len(),
        !pattern_compiles(pairs[k].0@),
    ensures
        !all_compile(pairs),
        exists|i: int| 0 <= i <= k && first_rejected(pairs, i),
    decreases k,
{
    if exists|j: int| 0 <= j < k && !pattern_compiles(#[trigger] pairs[j].0@) {
        let j = choose|j: int| 0 <= j < k && !pattern_compiles(#[trigger] pairs[j].0@);
        lemma_rejection_has_first(pairs, j);
        let i = choose|i: int| 0 <= i <= j && first_rejected(pairs, i);
        assert(0 <= i <= k && first_rejected(pairs, i));
    } else {
        assert(first_rejected(pairs, k));
    }
}

/// Applying one list of rules and then another is applying the two lists
/// joined: every rule works on what the rules before it produced.
pub proof fn lemma_rules_compose(first: Seq<RuleSpec>, second: Seq<RuleSpec>, text: Seq<char>)
    ensures
        apply_rules(first + second, text) == apply_rules(second, apply_rules(first, text)),
    decreases second.len(),
{
    if second.len() == 0 {
        assert(first + second =~= first);
    } else {
        lemma_rules_compose(first, second.drop_last(), text);
        assert((first + second).drop_last() =~= first + second.drop_last());
        assert((first + second).last() == second.last());
    }
}

/// The first rule works on the text as it was given; the rules after it
/// work on what it made of that text.
pub proof fn lemma_first_rule_sees_input(rule: RuleSpec, rest: Seq<RuleSpec>, text: Seq<char>)
    ensures
        apply_rules(seq![rule] + rest, text) == apply_rules(rest, apply_rule(rule, text)),
{
    lemma_rules_compose(seq![rule], rest, text);
    assert(seq![rule].drop_last() =~= Seq::<RuleSpec>::empty());
    assert(apply_rules(seq![rule], text) == apply_rule(rule, apply_rules(seq![rule].drop_last(), text)));
}

} // verus!
