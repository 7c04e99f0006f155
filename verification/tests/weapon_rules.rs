use murdertime_5000::weapons::{
    trigger_step, weapon_mount, Hand, PoseSource, TriggerStep, WeaponClass, WeaponMount,
};

#[test]
fn guns_follow_the_aim_pose_of_their_hand() {
    assert_eq!(
        weapon_mount(Hand::Left, WeaponClass::GatlingGun),
        WeaponMount { controller: Hand::Left, pose: PoseSource::Aim, drives_hit_body: false }
    );
    assert_eq!(
        weapon_mount(Hand::Right, WeaponClass::GatlingGun),
        WeaponMount { controller: Hand::Right, pose: PoseSource::Aim, drives_hit_body: false }
    );
}

#[test]
fn hammers_follow_the_grip_pose_and_carry_their_hit_body() {
    assert_eq!(
        weapon_mount(Hand::Left, WeaponClass::Hammer),
        WeaponMount { controller: Hand::Left, pose: PoseSource::Grip, drives_hit_body: true }
    );
    assert_eq!(
        weapon_mount(Hand::Right, WeaponClass::Hammer),
        WeaponMount { controller: Hand::Right, pose: PoseSource::Grip, drives_hit_body: true }
    );
}

#[test]
fn guns_fire_only_with_the_trigger_held_and_the_cooldown_spent() {
    assert_eq!(trigger_step(false, true), TriggerStep::Release);
    assert_eq!(trigger_step(false, false), TriggerStep::Release);
    assert_eq!(trigger_step(true, false), TriggerStep::CountDown);
    assert_eq!(trigger_step(true, true), TriggerStep::Fire);
}
