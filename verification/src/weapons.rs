//! How the weapons held in the player's hands follow the controllers and
//! when a gun fires.
use vstd::prelude::*;

verus! {

/// A hand of the player, and the controller held in it.
#[derive(Clone, Copy, Debug, PartialEq, Eq, Structural)]
pub enum Hand {
    Left,
    Right,
}

/// The kind of a weapon, without its state.
#[derive(Clone, Copy, Debug, PartialEq, Eq, Structural)]
pub enum WeaponClass {
    GatlingGun,
    Hammer,
}

/// Which pose of a controller a weapon follows.
#[derive(Clone, Copy, Debug, PartialEq, Eq, Structural)]
pub enum PoseSource {
    /// The pointing pose, along which shots travel.
    Aim,
    /// The pose of the closed hand.
    Grip,
}

/// How a weapon is attached to the player's controllers.
#[derive(Clone, Copy, Debug, PartialEq, Eq, Structural)]
pub struct WeaponMount {
    /// The controller the weapon follows.
    pub controller: Hand,
    /// The pose of that controller the weapon takes.
    pub pose: PoseSource,
    /// Whether the weapon carries a hit body in front of it.
    pub drives_hit_body: bool,
}

/// A weapon follows the controller in its own hand: guns take the aim pose,
/// hammers the grip pose and carry their hit body with them.
pub open spec fn mount_of(hand: Hand, class: WeaponClass) -> WeaponMount {
    WeaponMount {
        controller: hand,
        pose: if class == WeaponClass::GatlingGun { PoseSource::Aim } else { PoseSource::Grip },
        drives_hit_body: class == WeaponClass::Hammer,
    }
}

/// How the weapon of the given kind, in the given hand, follows the controllers.
pub fn weapon_mount(hand: Hand, class: WeaponClass) -> (mount: WeaponMount)
    ensures
        mount == mount_of(hand, class),
{
    match (hand, class) {
        (Hand::Left, WeaponClass::GatlingGun) => WeaponMount {
            controller: Hand::Left,
            pose: PoseSource::Aim,
            drives_hit_body: false,
        },
        (Hand::Right, WeaponClass::GatlingGun) => WeaponMount {
            controller: Hand::Right,
            pose: PoseSource::Aim,
            drives_hit_body: false,
        },
        (Hand::Left, WeaponClass::Hammer) => WeaponMount {
            controller: Hand::Left,
            pose: PoseSource::Grip,
            drives_hit_body: true,
        },
        (Hand::Right, WeaponClass::Hammer) => WeaponMount {
            controller: Hand::Right,
            pose: PoseSource::Grip,
            drives_hit_body: true,
        },
    }
}

/// What a gun's trigger does to it on a tick.
#[derive(Clone, Copy, Debug, PartialEq, Eq, Structural)]
pub enum TriggerStep {
    /// The trigger is released: the cooldown is cleared.
    Release,
    /// The trigger is held and the cooldown, less this tick, has not run
    /// out: it keeps the lowered value.
    CountDown,
    /// The trigger is held and the cooldown, less this tick, ran out: the
    /// gun fires a projectile and the cooldown starts again in full.
    Fire,
}

/// The trigger step of a gun, from whether its trigger is held and whether
/// its cooldown less this tick is at or below zero.
pub open spec fn trigger_step_of(trigger_held: bool, cooldown_spent: bool) -> TriggerStep {
    if !trigger_held {
        TriggerStep::Release
    } else if cooldown_spent {
        TriggerStep::Fire
    } else {
        TriggerStep::CountDown
    }
}

/// Decides what a gun does on a tick.
pub fn trigger_step(trigger_held: bool, cooldown_spent: bool) -> (step: TriggerStep)
    ensures
        step == trigger_step_of(trigger_held, cooldown_spent),
{
    if trigger_held {
        if cooldown_spent {
            TriggerStep::Fire
        } else {
            TriggerStep::CountDown
        }
    } else {
        TriggerStep::Release
    }
}

/// A gun never fires while its trigger is released, and whenever the trigger
/// is held and the cooldown ran out it fires.
pub proof fn lemma_fires_only_when_held(trigger_held: bool, cooldown_spent: bool)
    ensures
        trigger_step_of(trigger_held, cooldown_spent) == TriggerStep::Fire <==> (trigger_held
            && cooldown_spent),
        !trigger_held ==> trigger_step_of(trigger_held, cooldown_spent) == TriggerStep::Release,
{
}

/// Every weapon follows the controller of its own hand.
pub proof fn lemma_weapon_follows_own_hand(hand: Hand, class: WeaponClass)
    ensures
        mount_of(hand, class).controller == hand,
        mount_of(hand, class).drives_hit_body <==> mount_of(hand, class).pose == PoseSource::Grip,
{
}

} // verus!
