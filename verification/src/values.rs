//! The value of unspent outputs taken together.
use vstd::prelude::*;

use crate::types::{utxo_views, Amount, LocalUtxo, LocalUtxoView};

verus! {

/// The value of unspent outputs taken together.
pub open spec fn total_value(utxos: Seq<LocalUtxoView>) -> nat
    decreases utxos.len(),
{
    if utxos.len() == 0 {
        0
    } else {
        total_value(utxos.drop_last()) + utxos.last().txout.value as nat
    }
}

/// A part of the outputs that satisfy a condition is worth no more than all that do.
pub proof fn lemma_total_prefix(utxos: Seq<LocalUtxoView>, pred: spec_fn(LocalUtxoView) -> bool, i: int)
    requires
        0 <= i <= utxos.len(),
    ensures
        total_value(utxos.take(i).filter(pred)) <= total_value(utxos.filter(pred)),
    decreases utxos.len(),
{
    if i < utxos.len() {
        reveal(Seq::filter);
        lemma_total_prefix(utxos.drop_last(), pred, i);
        assert(utxos.drop_last().take(i) =~= utxos.take(i));
        let kept = utxos.drop_last().filter(pred);
        assert(kept.push(utxos.last()).drop_last() =~= kept);
    } else {
        assert(utxos.take(i) =~= utxos);
    }
}

/// One more output adds its value if it satisfies the condition, and nothing if it does not.
pub proof fn lemma_total_step(utxos: Seq<LocalUtxoView>, pred: spec_fn(LocalUtxoView) -> bool, i: int)
    requires
        0 <= i < utxos.len(),
    ensures
        total_value(utxos.take(i + 1).filter(pred)) == total_value(utxos.take(i).filter(pred)) + if pred(
            utxos[i],
        ) {
            utxos[i].txout.value as nat
        } else {
            0
        },
{
    reveal(Seq::filter);
    assert(utxos.take(i + 1).drop_last() =~= utxos.take(i));
    let kept = utxos.take(i).filter(pred);
    assert(kept.push(utxos[i]).drop_last() =~= kept);
}

/// The first outputs of a list are worth no more than all of them.
proof fn lemma_total_take(utxos: Seq<LocalUtxoView>, i: int)
    requires
        0 <= i <= utxos.len(),
    ensures
        total_value(utxos.take(i)) <= total_value(utxos),
    decreases utxos.len(),
{
    if i < utxos.len() {
        lemma_total_take(utxos.drop_last(), i);
        assert(utxos.drop_last().take(i) =~= utxos.take(i));
    } else {
        assert(utxos.take(i) =~= utxos);
    }
}

/// What satisfies one of two conditions that exclude each other is worth the two parts together.
pub proof fn lemma_total_of_either(
    utxos: Seq<LocalUtxoView>,
    p: spec_fn(LocalUtxoView) -> bool,
    q: spec_fn(LocalUtxoView) -> bool,
    either: spec_fn(LocalUtxoView) -> bool,
)
    requires
        forall|u: LocalUtxoView| #[trigger] either(u) <==> p(u) || q(u),
        forall|u: LocalUtxoView| !(#[trigger] p(u) && q(u)),
    ensures
        total_value(utxos.filter(either)) == total_value(utxos.filter(p)) + total_value(
            utxos.filter(q),
        ),
    decreases utxos.len(),
{
    if utxos.len() == 0 {
        reveal(Seq::filter);
    } else {
        let i = utxos.len() - 1;
        lemma_total_of_either(utxos.drop_last(), p, q, either);
        lemma_total_step(utxos, p, i);
        lemma_total_step(utxos, q, i);
        lemma_total_step(utxos, either, i);
        assert(utxos.take(i) =~= utxos.drop_last());
        assert(utxos.take(i + 1) =~= utxos);
    }
}

/// The value of two lists of outputs taken together is the sum of their values, and one output by
/// itself is worth its value.
pub proof fn total_value_adds_up(a: Seq<LocalUtxoView>, b: Seq<LocalUtxoView>, u: LocalUtxoView)
    ensures
        total_value(a + b) == total_value(a) + total_value(b),
        total_value(seq![u]) == u.txout.value,
        total_value(Seq::empty()) == 0,
    decreases b.len(),
{
    reveal_with_fuel(total_value, 2);
    assert(seq![u].drop_last() =~= Seq::empty());
    if b.len() == 0 {
        assert(a + b =~= a);
    } else {
        total_value_adds_up(a, b.drop_last(), u);
        assert((a + b).drop_last() =~= a + b.drop_last());
    }
}

/// What satisfies a condition in two lists taken together is worth the two parts.
pub proof fn lemma_filtered_total_adds_up(
    a: Seq<LocalUtxoView>,
    b: Seq<LocalUtxoView>,
    u: LocalUtxoView,
    pred: spec_fn(LocalUtxoView) -> bool,
)
    ensures
        total_value((a + b).filter(pred)) == total_value(a.filter(pred)) + total_value(
            b.filter(pred),
        ),
        (a + b).filter(pred).len() == a.filter(pred).len() + b.filter(pred).len(),
        seq![u].filter(pred) == if pred(u) {
            seq![u]
        } else {
            Seq::empty()
        },
        Seq::<LocalUtxoView>::empty().filter(pred) == Seq::<LocalUtxoView>::empty(),
{
    Seq::filter_distributes_over_add(a, b, pred);
    total_value_adds_up(a.filter(pred), b.filter(pred), u);
    reveal_with_fuel(Seq::filter, 2);
    assert(seq![u].drop_last() =~= Seq::empty());
    assert(seq![u].filter(pred) =~= if pred(u) {
        seq![u]
    } else {
        Seq::empty()
    });
}

/// The value of the outputs, or `None` where it does not fit in 64 bits.
pub fn checked_total(utxos: &Vec<LocalUtxo>) -> (sum: Option<Amount>)
    ensures
        sum is Some <==> total_value(utxo_views(utxos@)) <= u64::MAX,
        sum matches Some(a) ==> a.sat == total_value(utxo_views(utxos@)),
{
    let ghost all = utxo_views(utxos@);
    let mut sum: Amount = Amount::from_sat(0);
    let mut i: usize = 0;
    while i < utxos.len()
        invariant
            i <= utxos.len(),
            all == utxo_views(utxos@),
            sum.sat == total_value(all.take(i as int)),
        decreases utxos.len() - i,
    {
        proof {
            assert(all.take(i + 1).drop_last() =~= all.take(i as int));
            lemma_total_take(all, i + 1);
        }
        match sum.checked_add(Amount::from_sat(utxos[i].txout.value)) {
            Some(more) => {
                sum = more;
            },
            None => {
                return None;
            },
        }
        i += 1;
    }
    proof {
        assert(all.take(all.len() as int) =~= all);
    }
    Some(sum)
}

} // verus!
