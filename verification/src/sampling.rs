//! Weighted random selection of one relay among candidates.
//!
//! Each candidate owns a stretch of the range `1..=total` that is as long as
//! its weight, the stretches lying side by side in the order of the
//! candidates. A draw from that range selects the candidate on whose stretch
//! it falls. So a candidate is chosen with probability weight / total, and one
//! of weight 0 never, unless all weights are 0: then every candidate is as
//! likely as any other.

use crate::random::{choose_random, random_in_range};
use crate::relay_list::Relay;
use vstd::prelude::*;

verus! {

/// The sum of all weights.
pub open spec fn total_weight(weights: Seq<u64>) -> nat
    decreases weights.len(),
{
    if weights.len() == 0 {
        0
    } else {
        total_weight(weights.drop_last()) + weights.last() as nat
    }
}

/// The weights of the relays in `relays`, in order.
pub open spec fn relay_weights(relays: Seq<Relay>) -> Seq<u64> {
    relays.map_values(|relay: Relay| relay.weight)
}

/// Whether `draw` falls on the stretch of the candidate at `index`: above
/// the sum of the weights before it, and not above that sum and its own
/// weight.
pub open spec fn draw_selects(weights: Seq<u64>, draw: nat, index: int) -> bool {
    &&& 0 <= index < weights.len()
    &&& total_weight(weights.take(index)) < draw <= total_weight(weights.take(index + 1))
}

/// Whether random selection may return the candidate at `index`: any
/// candidate where all weights are 0, and else those of a weight above 0.
pub open spec fn selectable(weights: Seq<u64>, index: int) -> bool {
    &&& 0 <= index < weights.len()
    &&& (total_weight(weights) == 0 || weights[index] > 0)
}

/// The sum of the first `count + 1` weights is the sum of the first `count`
/// and the weight that follows.
pub proof fn lemma_total_weight_step(weights: Seq<u64>, count: int)
    requires
        0 <= count < weights.len(),
    ensures
        total_weight(weights.take(count + 1)) == total_weight(weights.take(count))
            + weights[count],
{
    assert(weights.take(count + 1).drop_last() =~= weights.take(count));
}

/// The sum of the first weights grows with their number, and never exceeds
/// the sum of all.
pub proof fn lemma_total_weight_monotonic(weights: Seq<u64>, fewer: int, more: int)
    requires
        0 <= fewer <= more <= weights.len(),
    ensures
        total_weight(weights.take(fewer)) <= total_weight(weights.take(more)),
        total_weight(weights.take(more)) <= total_weight(weights),
    decreases weights.len() - fewer,
{
    if fewer < more {
        lemma_total_weight_step(weights, fewer);
        lemma_total_weight_monotonic(weights, fewer + 1, more);
    } else if more < weights.len() {
        lemma_total_weight_step(weights, more);
        lemma_total_weight_monotonic(weights, more + 1, more + 1);
    } else {
        assert(weights.take(more) =~= weights);
    }
}

/// The sum of weights that each fit 64 bits is bounded by their number.
pub proof fn lemma_total_weight_bound(weights: Seq<u64>)
    ensures
        total_weight(weights) <= weights.len() * 0xffff_ffff_ffff_ffff,
    decreases weights.len(),
{
    if weights.len() > 0 {
        lemma_total_weight_bound(weights.drop_last());
        assert((weights.len() - 1) * 0xffff_ffff_ffff_ffff + 0xffff_ffff_ffff_ffff
            == weights.len() * 0xffff_ffff_ffff_ffff) by (nonlinear_arith);
    }
}

/// Adds up the weights.
pub fn sum_weights(weights: &[u64]) -> (total: u128)
    ensures
        total == total_weight(weights@),
{
    let mut total: u128 = 0;
    let mut index: usize = 0;
    assert(weights@.take(0) =~= Seq::<u64>::empty());
    while index < weights.len()
        invariant
            index <= weights@.len(),
            total == total_weight(weights@.take(index as int)),
        decreases weights@.len() - index,
    {
        proof {
            lemma_total_weight_step(weights@, index as int);
            lemma_total_weight_bound(weights@.take(index + 1));
            assert((index + 1) * 0xffff_ffff_ffff_ffff <= u128::MAX) by (nonlinear_arith)
                requires
                    index + 1 <= 0x1_0000_0000_0000_0000,
            ;
        }
        total = total + weights[index] as u128;
        index += 1;
    }
    assert(weights@.take(index as int) =~= weights@);
    total
}

/// Finds the candidate that a draw selects.
///
/// The draw is counted down by one weight after the other, stopping at zero,
/// and the candidate at whose weight it reaches zero is the one selected.
pub fn pick_index_at(weights: &[u64], draw: u128) -> (index: usize)
    requires
        1 <= draw <= total_weight(weights@),
    ensures
        draw_selects(weights@, draw as nat, index as int),
{
    let mut remaining: u128 = draw;
    let mut index: usize = 0;
    proof {
        assert(weights@.take(0) =~= Seq::<u64>::empty());
        if weights@.len() == 0 {
            assert(total_weight(weights@) == 0);
        }
    }
    loop
        invariant
            index < weights@.len(),
            remaining >= 1,
            remaining + total_weight(weights@.take(index as int)) == draw,
            draw <= total_weight(weights@),
        decreases weights@.len() - index,
    {
        proof {
            lemma_total_weight_step(weights@, index as int);
            lemma_total_weight_monotonic(weights@, index + 1, index + 1);
        }
        remaining = remaining.saturating_sub(weights[index] as u128);
        if remaining == 0 {
            return index;
        }
        proof {
            if index + 1 == weights@.len() {
                assert(weights@.take(index + 1) =~= weights@);
            }
        }
        index += 1;
    }
}

/// Finds the relay that a draw selects, by the weights of the relays.
pub fn pick_relay_at(relays: &[Relay], draw: u128) -> (picked: &Relay)
    requires
        1 <= draw <= total_weight(relay_weights(relays@)),
    ensures
        exists|index: int|
            draw_selects(relay_weights(relays@), draw as nat, index) && #[trigger] relays@[index]
                == *picked,
{
    let weights = weights_of(relays, |relay: &Relay| -> (weight: u64)
        ensures
            weight == relay.weight,
        { relay.weight });
    assert(weights@ =~= relay_weights(relays@));
    let index = pick_index_at(weights.as_slice(), draw);
    &relays[index]
}

/// Asks `weight` for the weight of each candidate, in order.
fn weights_of<RelayType, F: Fn(&RelayType) -> u64>(relays: &[RelayType], weight: F) -> (weights:
    Vec<u64>)
    requires
        forall|index: int|
            0 <= index < relays@.len() ==> call_requires(weight, (&#[trigger] relays@[index],)),
    ensures
        weights@.len() == relays@.len(),
        forall|index: int|
            0 <= index < relays@.len() ==> call_ensures(
                weight,
                (&relays@[index],),
                #[trigger] weights@[index],
            ),
{
    let mut weights: Vec<u64> = Vec::new();
    let mut index: usize = 0;
    while index < relays.len()
        invariant
            index <= relays@.len(),
            weights@.len() == index,
            forall|index: int|
                0 <= index < relays@.len() ==> call_requires(
                    weight,
                    (&#[trigger] relays@[index],),
                ),
            forall|earlier: int|
                0 <= earlier < index ==> call_ensures(
                    weight,
                    (&relays@[earlier],),
                    #[trigger] weights@[earlier],
                ),
        decreases relays@.len() - index,
    {
        weights.push(weight(&relays[index]));
        index += 1;
    }
    weights
}

/// Pick a random relay from the given slice. Will return `None` if the given slice is empty.
/// If all of the relays have a weight of 0, one will be picked at random without bias,
/// otherwise roulette wheel selection will be used to pick only relays with non-zero
/// weights.
///
/// `weight` is asked once for each relay. The relay returned is one that
/// selection may return under the weights it gave.
pub fn pick_random_relay_weighted<RelayType, F: Fn(&RelayType) -> u64>(
    relays: &[RelayType],
    weight: F,
) -> (picked: Option<&RelayType>)
    requires
        forall|index: int|
            0 <= index < relays@.len() ==> call_requires(weight, (&#[trigger] relays@[index],)),
    ensures
        picked is None <==> relays@.len() == 0,
        picked matches Some(relay) ==> exists|weights: Seq<u64>, index: int|
            {
                &&& weights.len() == relays@.len()
                &&& forall|other: int|
                    0 <= other < relays@.len() ==> call_ensures(
                        weight,
                        (&relays@[other],),
                        #[trigger] weights[other],
                    )
                &&& #[trigger] selectable(weights, index)
                &&& relays@[index] == *relay
            },
{
    let weights = weights_of(relays, weight);
    let total = sum_weights(weights.as_slice());
    if total == 0 {
        let chosen = choose_random(relays);
        proof {
            if let Some(relay) = chosen {
                let index = choose|index: int|
                    0 <= index < relays@.len() && #[trigger] relays@[index] == *relay;
                assert(selectable(weights@, index));
            }
        }
        chosen
    } else {
        let draw = random_in_range(1, total);
        let index = pick_index_at(weights.as_slice(), draw);
        proof {
            lemma_selected_has_weight(weights@, draw as nat, index as int);
            assert(selectable(weights@, index as int));
        }
        Some(&relays[index])
    }
}

/// Picks a relay using [pick_random_relay_weighted], using the `weight` member of each relay
/// as the weight function.
pub fn pick_random_relay(relays: &[Relay]) -> (picked: Option<&Relay>)
    ensures
        picked is None <==> relays@.len() == 0,
        picked matches Some(relay) ==> exists|index: int|
            selectable(relay_weights(relays@), index) && #[trigger] relays@[index] == *relay,
        relays@.len() == 1 ==> picked == Some(&relays@[0]),
{
    let picked = pick_random_relay_weighted(relays, |relay: &Relay| -> (weight: u64)
        ensures
            weight == relay.weight,
        { relay.weight });
    proof {
        if let Some(relay) = picked {
            let (weights, index) = choose|weights: Seq<u64>, index: int|
                {
                    &&& weights.len() == relays@.len()
                    &&& forall|other: int|
                        0 <= other < relays@.len() ==> (#[trigger] weights[other])
                            == relays@[other].weight
                    &&& #[trigger] selectable(weights, index)
                    &&& relays@[index] == *relay
                };
            assert(weights =~= relay_weights(relays@));
        }
    }
    picked
}

/// A draw never selects a candidate of weight 0.
pub proof fn lemma_selected_has_weight(weights: Seq<u64>, draw: nat, index: int)
    requires
        draw_selects(weights, draw, index),
    ensures
        weights[index] > 0,
{
    lemma_total_weight_step(weights, index);
}

/// The draws that select a candidate are those on its stretch, which lies
/// in the range of all draws and is as long as the weight of the candidate.
/// So of the draws from 1 to the sum of all weights, as many select the
/// candidate as its weight says.
pub proof fn lemma_draws_that_select(weights: Seq<u64>, index: int)
    requires
        0 <= index < weights.len(),
    ensures
        forall|draw: nat|
            #[trigger] draw_selects(weights, draw, index) <==> total_weight(weights.take(index))
                < draw <= total_weight(weights.take(index)) + weights[index],
        total_weight(weights.take(index)) + weights[index] <= total_weight(weights),
{
    lemma_total_weight_step(weights, index);
    lemma_total_weight_monotonic(weights, index + 1, index + 1);
}

/// Every draw from 1 to the sum of all weights selects a candidate.
pub proof fn lemma_every_draw_selects(weights: Seq<u64>, draw: nat)
    requires
        1 <= draw <= total_weight(weights),
    ensures
        exists|index: int| draw_selects(weights, draw, index),
    decreases weights.len(),
{
    let before = weights.drop_last();
    assert(weights.take(weights.len() - 1) =~= before);
    assert(weights.take(weights.len() as int) =~= weights);
    if draw > total_weight(before) {
        assert(draw_selects(weights, draw, weights.len() - 1));
    } else {
        lemma_every_draw_selects(before, draw);
        let index = choose|index: int| draw_selects(before, draw, index);
        assert(before.take(index) =~= weights.take(index));
        assert(before.take(index + 1) =~= weights.take(index + 1));
        assert(draw_selects(weights, draw, index));
    }
}

/// No draw selects two candidates.
pub proof fn lemma_draw_selects_one(weights: Seq<u64>, draw: nat, first: int, second: int)
    requires
        draw_selects(weights, draw, first),
        draw_selects(weights, draw, second),
    ensures
        first == second,
{
    if first < second {
        lemma_total_weight_monotonic(weights, first + 1, second);
    } else if second < first {
        lemma_total_weight_monotonic(weights, second + 1, first);
    }
}

/// Weights that are all 0 add up to 0, so that every candidate is
/// selectable.
pub proof fn lemma_zero_weights(weights: Seq<u64>)
    requires
        forall|index: int| 0 <= index < weights.len() ==> weights[index] == 0,
    ensures
        total_weight(weights) == 0,
        forall|index: int| 0 <= index < weights.len() ==> selectable(weights, index),
    decreases weights.len(),
{
    if weights.len() > 0 {
        lemma_zero_weights(weights.drop_last());
    }
}

/// Where the sum of the weights is above 0, some weight is: a draw always
/// finds a candidate to stop at.
pub proof fn lemma_positive_total(weights: Seq<u64>)
    requires
        total_weight(weights) > 0,
    ensures
        exists|index: int| 0 <= index < weights.len() && weights[index] > 0,
{
    if forall|index: int| 0 <= index < weights.len() ==> weights[index] == 0 {
        lemma_zero_weights(weights);
    }
}

/// Where some weight is above 0, so is the sum, and no candidate of weight 0
/// is selectable.
pub proof fn lemma_positive_weight(weights: Seq<u64>, index: int)
    requires
        0 <= index < weights.len(),
        weights[index] > 0,
    ensures
        total_weight(weights) > 0,
        forall|other: int| selectable(weights, other) ==> weights[other] > 0,
{
    lemma_total_weight_step(weights, index);
    lemma_total_weight_monotonic(weights, index + 1, index + 1);
}

} // verus!
