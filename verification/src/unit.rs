//! The behaviour of a viking unit: how its status moves on each tick, and
//! which animation each status plays.
use vstd::prelude::*;

verus! {

/// The status of a unit, without the time left on its attack cooldown.
#[derive(Clone, Copy, Debug, PartialEq, Eq, Structural)]
pub enum StatusKind {
    Idle,
    Attacking,
    Moving,
}

/// What a unit's status becomes on a tick.
#[derive(Clone, Copy, Debug, PartialEq, Eq, Structural)]
pub enum StatusChange {
    /// The unit walks (on towards the headset).
    Moving,
    /// The unit has reached the headset and starts attacking, with a full
    /// attack cooldown.
    BeginAttack,
    /// The cooldown ran out while the unit is near the headset: it strikes,
    /// and its attack cooldown starts again in full.
    Strike,
    /// The unit stays attacking and its cooldown keeps counting down.
    Recover,
}

/// The status change of a unit on a tick. `reached_headset` is what the
/// unit's walk this tick reported (it walks only while moving), `near_headset`
/// whether an attacking unit is still near the headset, and
/// `cooldown_elapsed` whether its cooldown, less this tick, fell below zero.
pub open spec fn status_change(
    current: StatusKind,
    reached_headset: bool,
    near_headset: bool,
    cooldown_elapsed: bool,
) -> StatusChange {
    match current {
        StatusKind::Idle => StatusChange::Moving,
        StatusKind::Moving => if reached_headset {
            StatusChange::BeginAttack
        } else {
            StatusChange::Moving
        },
        StatusKind::Attacking => if !near_headset {
            StatusChange::Moving
        } else if cooldown_elapsed {
            StatusChange::Strike
        } else {
            StatusChange::Recover
        },
    }
}

/// The status kind that a status change leads to.
pub open spec fn kind_after(change: StatusChange) -> StatusKind {
    match change {
        StatusChange::Moving => StatusKind::Moving,
        _ => StatusKind::Attacking,
    }
}

/// Whether a unit with this status walks towards the headset this tick.
pub fn walks_this_tick(current: StatusKind) -> (walks: bool)
    ensures
        walks == (current == StatusKind::Moving),
{
    match current {
        StatusKind::Moving => true,
        _ => false,
    }
}

/// Whether a unit with this status checks its distance to the headset and
/// its cooldown this tick.
pub fn checks_attack_this_tick(current: StatusKind) -> (checks: bool)
    ensures
        checks == (current == StatusKind::Attacking),
{
    match current {
        StatusKind::Attacking => true,
        _ => false,
    }
}

/// Decides a unit's status change on a tick.
pub fn next_status(
    current: StatusKind,
    reached_headset: bool,
    near_headset: bool,
    cooldown_elapsed: bool,
) -> (change: StatusChange)
    ensures
        change == status_change(current, reached_headset, near_headset, cooldown_elapsed),
        current == StatusKind::Idle ==> change == StatusChange::Moving,
        current == StatusKind::Moving && reached_headset ==> change == StatusChange::BeginAttack,
        current == StatusKind::Moving && !reached_headset ==> change == StatusChange::Moving,
        current == StatusKind::Attacking && !near_headset ==> change == StatusChange::Moving,
        current == StatusKind::Attacking && near_headset && cooldown_elapsed ==> change
            == StatusChange::Strike,
        current == StatusKind::Attacking && near_headset && !cooldown_elapsed ==> change
            == StatusChange::Recover,
{
    match current {
        StatusKind::Idle => StatusChange::Moving,
        StatusKind::Moving => {
            if reached_headset {
                StatusChange::BeginAttack
            } else {
                StatusChange::Moving
            }
        },
        StatusKind::Attacking => {
            if !near_headset {
                StatusChange::Moving
            } else if cooldown_elapsed {
                StatusChange::Strike
            } else {
                StatusChange::Recover
            }
        },
    }
}

/// A unit never returns to idle; an idle unit starts moving; a unit only
/// starts attacking after its walk reached the headset; it only strikes while
/// attacking near the headset; and a unit that leaves the headset's reach
/// walks again.
pub proof fn lemma_status_transitions(
    current: StatusKind,
    reached_headset: bool,
    near_headset: bool,
    cooldown_elapsed: bool,
)
    ensures
        ({
            let change = status_change(current, reached_headset, near_headset, cooldown_elapsed);
            &&& kind_after(change) != StatusKind::Idle
            &&& current == StatusKind::Idle ==> change == StatusChange::Moving
            &&& change == StatusChange::BeginAttack ==> current == StatusKind::Moving
                && reached_headset
            &&& change == StatusChange::Strike ==> current == StatusKind::Attacking && near_headset
                && cooldown_elapsed
            &&& current == StatusKind::Attacking && !near_headset ==> change
                == StatusChange::Moving
            &&& current == StatusKind::Moving && !reached_headset ==> change
                == StatusChange::Moving
            &&& current == StatusKind::Moving && reached_headset ==> change
                == StatusChange::BeginAttack
            &&& change == StatusChange::Recover ==> current == StatusKind::Attacking
                && near_headset && !cooldown_elapsed
            &&& change != StatusChange::Moving ==> (current == StatusKind::Attacking
                || reached_headset)
        }),
{
}

/// Name of the animation clip played by a unit with the given status.
pub open spec fn animation_for(status: StatusKind) -> Seq<char> {
    match status {
        StatusKind::Idle => "ID_10_Viking_Male_1_Idle"@,
        StatusKind::Attacking => "ID_9_Viking_Male_1_Smash_Object"@,
        StatusKind::Moving => "ID_11_Viking_Male_1_Walking"@,
    }
}

/// The animation clip a unit with the given status plays.
pub fn desired_animation(status: StatusKind) -> (name: &'static str)
    ensures
        name@ == animation_for(status),
{
    match status {
        StatusKind::Idle => "ID_10_Viking_Male_1_Idle",
        StatusKind::Attacking => "ID_9_Viking_Male_1_Smash_Object",
        StatusKind::Moving => "ID_11_Viking_Male_1_Walking",
    }
}

} // verus!
