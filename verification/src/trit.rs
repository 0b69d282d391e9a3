//! The ternary alphabet shared by states and emissions, and its index encoding.

use vstd::prelude::*;

verus! {

/// A trit: the state and emission alphabet of the model.
#[derive(Clone, Copy, Debug, PartialEq, Eq, Structural, Hash)]
pub enum Ternary {
    /// The value -1.
    Negative,
    /// The value 0.
    Neutral,
    /// The value +1.
    Positive,
}

/// The three states, listed in index order.
pub const STATES: [Ternary; 3] = [Ternary::Negative, Ternary::Neutral, Ternary::Positive];

/// The index of a trit: `Negative` is 0, `Neutral` is 1, `Positive` is 2.
pub open spec fn index_of(t: Ternary) -> nat {
    match t {
        Ternary::Negative => 0,
        Ternary::Neutral => 1,
        Ternary::Positive => 2,
    }
}

/// The trit with a given index (meaningful for indices below 3).
pub open spec fn trit_of(i: int) -> Ternary
    recommends
        0 <= i < 3,
{
    if i == 0 {
        Ternary::Negative
    } else if i == 1 {
        Ternary::Neutral
    } else {
        Ternary::Positive
    }
}

/// Map a trit to an index (0, 1, 2).
pub fn trit_to_index(t: Ternary) -> (i: usize)
    ensures
        i == index_of(t),
        i < 3,
        i == 0 <==> t is Negative,
        i == 1 <==> t is Neutral,
        i == 2 <==> t is Positive,
{
    match t {
        Ternary::Negative => 0,
        Ternary::Neutral => 1,
        Ternary::Positive => 2,
    }
}

/// Map an index back to a trit. Only indices 0, 1 and 2 name a trit.
pub fn index_to_trit(i: usize) -> (t: Ternary)
    requires
        i < 3,
    ensures
        t == trit_of(i as int),
        index_of(t) == i,
        t is Negative <==> i == 0,
        t is Neutral <==> i == 1,
        t is Positive <==> i == 2,
{
    if i == 0 {
        Ternary::Negative
    } else if i == 1 {
        Ternary::Neutral
    } else {
        Ternary::Positive
    }
}

/// Validate that a slice holds only valid trits. Every `Ternary` value is a valid
/// trit, so every slice is accepted.
pub fn validate_ternary(_seq: &[Ternary]) -> (r: Result<(), String>)
    ensures
        r is Ok,
{
    Ok(())
}

/// Encoding a trit as an index and decoding it again gives the trit back.
pub proof fn lemma_index_round_trip(t: Ternary)
    ensures
        trit_of(index_of(t) as int) == t,
        index_of(t) < 3,
{
}

/// Decoding an index below 3 and encoding the trit again gives the index back.
pub proof fn lemma_trit_round_trip(i: int)
    requires
        0 <= i < 3,
    ensures
        index_of(trit_of(i)) == i,
{
}

/// `STATES` lists each trit at its own index.
pub proof fn lemma_states_in_index_order(t: Ternary)
    ensures
        STATES@[index_of(t) as int] == t,
        STATES@.len() == 3,
        STATES@[0] is Negative && STATES@[1] is Neutral && STATES@[2] is Positive,
{
}

} // verus!
