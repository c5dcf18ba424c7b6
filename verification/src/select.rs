//! Moving a selection through a list.

use vstd::prelude::*;

verus! {

/// The index after `index` in a list that goes round; an empty list changes nothing.
pub open spec fn next_round(index: int, total: int) -> int {
    if total > 0 {
        (index + 1) % total
    } else {
        index
    }
}

/// The index before `index` in a list that goes round.
pub open spec fn previous_round(index: int, total: int) -> int {
    if total <= 0 {
        index
    } else if index == 0 {
        total - 1
    } else {
        index - 1
    }
}

pub fn wrap_next(index: usize, total: usize) -> (next: usize)
    requires
        index < usize::MAX,
    ensures
        next == next_round(index as int, total as int),
{
    if total > 0 {
        (index + 1) % total
    } else {
        index
    }
}

pub fn wrap_previous(index: usize, total: usize) -> (previous: usize)
    ensures
        previous == previous_round(index as int, total as int),
{
    if total == 0 {
        index
    } else if index == 0 {
        total - 1
    } else {
        index - 1
    }
}

/// The index after `index`, but not past the last one.
pub open spec fn next_within(index: int, total: int) -> int {
    if total > 0 && index < total - 1 {
        index + 1
    } else {
        index
    }
}

/// The index before `index`, but not before the first one.
pub open spec fn previous_within(index: int) -> int {
    if index > 0 {
        index - 1
    } else {
        index
    }
}

pub fn step_next(index: usize, total: usize) -> (next: usize)
    ensures
        next == next_within(index as int, total as int),
{
    if total > 0 && index < total - 1 {
        index + 1
    } else {
        index
    }
}

pub fn step_previous(index: usize) -> (previous: usize)
    ensures
        previous == previous_within(index as int),
{
    if index > 0 {
        index - 1
    } else {
        index
    }
}

/// An index past the end moves to the last item; in an empty list it stays.
pub open spec fn clamped(index: int, total: int) -> int {
    if index >= total && total > 0 {
        total - 1
    } else {
        index
    }
}

pub fn clamp(index: usize, total: usize) -> (inside: usize)
    ensures
        inside == clamped(index as int, total as int),
{
    if index >= total && total > 0 {
        total - 1
    } else {
        index
    }
}

/// Going on and back in a list that goes round leads back, both ways.
pub proof fn round_and_back(index: int, total: int)
    requires
        0 <= index < total,
    ensures
        previous_round(next_round(index, total), total) == index,
        next_round(previous_round(index, total), total) == index,
        0 <= next_round(index, total) < total,
        0 <= previous_round(index, total) < total,
{
    if index + 1 < total {
        vstd::arithmetic::div_mod::lemma_small_mod((index + 1) as nat, total as nat);
    } else {
        vstd::arithmetic::div_mod::lemma_mod_self_0(total);
    }
    if index == 0 {
        vstd::arithmetic::div_mod::lemma_mod_self_0(total);
    } else {
        vstd::arithmetic::div_mod::lemma_small_mod(index as nat, total as nat);
    }
}

/// A clamped index lies in a list that holds anything.
pub proof fn clamped_is_inside(index: int, total: int)
    requires
        0 <= index,
        total > 0,
    ensures
        0 <= clamped(index, total) < total,
        index < total ==> clamped(index, total) == index,
{
}

/// In a list that goes round, a step goes to the neighbour, from the last to the
/// first and back. In one that does not, a step stops at the ends.
pub proof fn steps_go_to_the_neighbour(index: int, total: int)
    requires
        0 <= index < total,
    ensures
        index + 1 < total ==> next_round(index, total) == index + 1,
        index + 1 == total ==> next_round(index, total) == 0,
        index > 0 ==> previous_round(index, total) == index - 1,
        index == 0 ==> previous_round(index, total) == total - 1,
        index + 1 < total ==> next_within(index, total) == index + 1,
        index + 1 == total ==> next_within(index, total) == index,
        index > 0 ==> previous_within(index) == index - 1,
        index == 0 ==> previous_within(index) == 0,
{
    round_and_back(index, total);
    if index + 1 < total {
        vstd::arithmetic::div_mod::lemma_small_mod((index + 1) as nat, total as nat);
    } else {
        vstd::arithmetic::div_mod::lemma_mod_self_0(total);
    }
}

/// In an empty list nothing moves, and an index past the end becomes the last.
pub proof fn selections_stay_where_they_can(index: int, total: int)
    requires
        0 <= index,
        0 <= total,
    ensures
        total == 0 ==> next_round(index, total) == index && previous_round(index, total) == index
            && next_within(index, total) == index && clamped(index, total) == index,
        total > 0 && index >= total ==> clamped(index, total) == total - 1,
        index < total ==> clamped(index, total) == index,
{
}

} // verus!
