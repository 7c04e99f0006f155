use murdertime_5000::unit::{
    checks_attack_this_tick, desired_animation, next_status, walks_this_tick,
    StatusChange, StatusKind,
};

#[test]
fn idle_units_start_moving() {
    for reached in [false, true] {
        for near in [false, true] {
            for elapsed in [false, true] {
                assert_eq!(next_status(StatusKind::Idle, reached, near, elapsed), StatusChange::Moving);
            }
        }
    }
}

#[test]
fn moving_units_attack_on_arrival() {
    assert_eq!(next_status(StatusKind::Moving, true, false, false), StatusChange::BeginAttack);
    assert_eq!(next_status(StatusKind::Moving, false, true, true), StatusChange::Moving);
}

#[test]
fn attacking_units_strike_recover_or_walk_again() {
    assert_eq!(next_status(StatusKind::Attacking, false, false, true), StatusChange::Moving);
    assert_eq!(next_status(StatusKind::Attacking, false, true, true), StatusChange::Strike);
    assert_eq!(next_status(StatusKind::Attacking, false, true, false), StatusChange::Recover);
}

#[test]
fn only_moving_units_walk_and_only_attacking_units_check() {
    assert!(walks_this_tick(StatusKind::Moving));
    assert!(!walks_this_tick(StatusKind::Idle));
    assert!(!walks_this_tick(StatusKind::Attacking));
    assert!(checks_attack_this_tick(StatusKind::Attacking));
    assert!(!checks_attack_this_tick(StatusKind::Moving));
    assert!(!checks_attack_this_tick(StatusKind::Idle));
}

#[test]
fn animations_by_status() {
    assert_eq!(desired_animation(StatusKind::Idle), "ID_10_Viking_Male_1_Idle");
    assert_eq!(desired_animation(StatusKind::Attacking), "ID_9_Viking_Male_1_Smash_Object");
    assert_eq!(desired_animation(StatusKind::Moving), "ID_11_Viking_Male_1_Walking");
}
