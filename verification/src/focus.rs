//! The focus ring: NodeList, Conversation, Input, Search, and round again.
//!
//! Focus is `None` until the operator moves it, and again after a release.
//! `None` is no member of the ring. For moving on or back it counts as the
//! place just before `NodeList`, which is that of `Search`.

use vstd::prelude::*;
use crate::types::Focus;

verus! {

/// Number of members of the ring.
pub const RING_LEN: usize = 4;

/// The place of a focus in the ring.
pub open spec fn ring_position(focus: Option<Focus>) -> int {
    match focus {
        Some(Focus::NodeList) => 0,
        Some(Focus::Conversation) => 1,
        Some(Focus::Input) => 2,
        Some(Focus::Search) => 3,
        None => 3,
    }
}

/// The member of the ring at place `index`.
pub open spec fn ring_at(index: int) -> Focus {
    if index == 0 {
        Focus::NodeList
    } else if index == 1 {
        Focus::Conversation
    } else if index == 2 {
        Focus::Input
    } else {
        Focus::Search
    }
}

/// The focus one step on.
pub open spec fn advance(focus: Option<Focus>) -> Focus {
    ring_at((ring_position(focus) + 1) % 4)
}

/// The focus one step back.
pub open spec fn retreat(focus: Option<Focus>) -> Focus {
    ring_at((ring_position(focus) + 3) % 4)
}

/// The focus `steps` steps on.
pub open spec fn advance_by(focus: Option<Focus>, steps: nat) -> Option<Focus>
    decreases steps,
{
    if steps == 0 {
        focus
    } else {
        Some(advance(advance_by(focus, (steps - 1) as nat)))
    }
}

/// Each member of the ring stands at its own place.
pub proof fn lemma_ring_places(focus: Focus)
    ensures
        0 <= ring_position(Some(focus)) < RING_LEN,
        ring_at(ring_position(Some(focus))) == focus,
{
}

/// On the ring, a step back undoes a step on, and a step on undoes a step
/// back: the two are inverse permutations of the ring.
pub proof fn lemma_retreat_inverts_advance(focus: Focus)
    ensures
        retreat(Some(advance(Some(focus)))) == focus,
        advance(Some(retreat(Some(focus)))) == focus,
{
}

/// Different members of the ring lead on to different members, and back to
/// different members.
pub proof fn lemma_steps_are_injective(a: Focus, b: Focus)
    ensures
        advance(Some(a)) == advance(Some(b)) ==> a == b,
        retreat(Some(a)) == retreat(Some(b)) ==> a == b,
{
}

/// From any member, as many steps on as the ring is long lead back to it.
pub proof fn lemma_ring_closes(focus: Focus)
    ensures
        advance_by(Some(focus), RING_LEN as nat) == Some(focus),
{
    reveal_with_fuel(advance_by, 5);
}

/// From no focus, the first step on leads to `NodeList`, and each further
/// round of the ring leads there again.
pub proof fn lemma_entry_from_none(rounds: nat)
    ensures
        advance(None) == Focus::NodeList,
        retreat(None) == Focus::Input,
        advance_by(None, (1 + RING_LEN * rounds) as nat) == Some(Focus::NodeList),
    decreases rounds,
{
    reveal_with_fuel(advance_by, 5);
    if rounds > 0 {
        lemma_entry_from_none((rounds - 1) as nat);
        assert(1 + RING_LEN * rounds == 1 + RING_LEN * (rounds - 1) + 4) by (nonlinear_arith);
    }
}

/// The place of a focus in the ring.
pub fn position_of(focus: Option<Focus>) -> (index: usize)
    ensures
        index == ring_position(focus),
        index < RING_LEN,
{
    match focus {
        Some(Focus::NodeList) => 0,
        Some(Focus::Conversation) => 1,
        Some(Focus::Input) => 2,
        Some(Focus::Search) => 3,
        None => 3,
    }
}

/// The member of the ring at place `index`, counted round the ring.
pub fn focus_at(index: usize) -> (focus: Focus)
    ensures
        focus == ring_at(index as int % 4),
{
    let place: usize = index % RING_LEN;
    if place == 0 {
        Focus::NodeList
    } else if place == 1 {
        Focus::Conversation
    } else if place == 2 {
        Focus::Input
    } else {
        Focus::Search
    }
}

/// The focus one step on from `focus`.
pub fn next_focus(focus: Option<Focus>) -> (next: Focus)
    ensures
        next == advance(focus),
{
    focus_at(position_of(focus) + 1)
}

/// The focus one step back from `focus`.
pub fn previous_focus(focus: Option<Focus>) -> (previous: Focus)
    ensures
        previous == retreat(focus),
{
    focus_at(position_of(focus) + (RING_LEN - 1))
}

} // verus!
