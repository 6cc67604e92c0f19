//! The order in which a run visits the missions, and the rule that tells
//! Thief Gold from Thief: The Dark Project.

use vstd::prelude::*;
use crate::memory::Vars;

verus! {

/// The mission that only Thief Gold has and that a run of it reaches first.
pub const GOLD_MISSION: i32 = 15;

/// The mission order of Thief: The Dark Project.
pub open spec fn standard_order() -> Seq<i32> {
    seq![1i32, 2, 3, 4, 5, 6, 7, 9, 10, 11, 12, 13, 14]
}

/// The mission order of Thief Gold, with its three added missions.
pub open spec fn gold_order() -> Seq<i32> {
    seq![1i32, 2, 3, 4, 5, 15, 6, 7, 16, 9, 17, 10, 11, 12, 13, 14]
}

/// The order and the edition flag after `mission` was seen as the current
/// mission: the first sight of the Gold mission switches to the Gold order,
/// and nothing switches back.
pub open spec fn upgraded(order: Seq<i32>, is_gold: bool, mission: i32) -> (Seq<i32>, bool) {
    if mission == GOLD_MISSION && !is_gold {
        (gold_order(), true)
    } else {
        (order, is_gold)
    }
}

/// The order and the flag after each of `missions` was seen in turn.
pub open spec fn upgraded_through(order: Seq<i32>, is_gold: bool, missions: Seq<i32>) -> (
    Seq<i32>,
    bool,
)
    decreases missions.len(),
{
    if missions.len() == 0 {
        (order, is_gold)
    } else {
        let (next_order, next_gold) = upgraded(order, is_gold, missions[0]);
        upgraded_through(next_order, next_gold, missions.drop_first())
    }
}

/// The mission order of Thief: The Dark Project.
pub fn standard_sequence() -> (order: Vec<i32>)
    ensures
        order@ == standard_order(),
{
    let order: Vec<i32> = vec![1, 2, 3, 4, 5, 6, 7, 9, 10, 11, 12, 13, 14];
    assert(order@ =~= standard_order());
    order
}

/// The mission order of Thief Gold.
pub fn gold_sequence() -> (order: Vec<i32>)
    ensures
        order@ == gold_order(),
{
    let order: Vec<i32> = vec![1, 2, 3, 4, 5, 15, 6, 7, 16, 9, 17, 10, 11, 12, 13, 14];
    assert(order@ =~= gold_order());
    order
}

/// Tells whether this tick's samples switch a run to the Gold order, and
/// hands out that order if so. They do when the Gold mission is the current
/// one and the run is not yet on the Gold order, and never otherwise.
pub fn maybe_upgrade(vars: &Vars, is_gold: bool) -> (switch: Option<Vec<i32>>)
    ensures
        switch is Some <==> vars.miss_idx.current == GOLD_MISSION && !is_gold,
        switch matches Some(order) ==> order@ == gold_order(),
{
    if vars.miss_idx.current == GOLD_MISSION && !is_gold {
        Some(gold_sequence())
    } else {
        None
    }
}

/// Seeing the Gold mission a second time changes nothing: the upgrade is
/// idempotent.
pub proof fn lemma_upgrade_idempotent(order: Seq<i32>, is_gold: bool)
    ensures
        ({
            let (once_order, once_gold) = upgraded(order, is_gold, GOLD_MISSION);
            upgraded(once_order, once_gold, GOLD_MISSION) == (once_order, once_gold)
        }),
        upgraded(order, is_gold, GOLD_MISSION).1,
{
}

/// Once a run is on the Gold order, no mission seen afterwards, however many
/// and whichever they are, changes the order or the flag.
pub proof fn lemma_upgrade_is_final(order: Seq<i32>, missions: Seq<i32>)
    ensures
        upgraded_through(order, true, missions) == (order, true),
    decreases missions.len(),
{
    if missions.len() > 0 {
        lemma_upgrade_is_final(order, missions.drop_first());
    }
}

} // verus!
