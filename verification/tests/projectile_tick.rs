use murdertime_5000::projectile::{
    next_trail_counter, plan_projectile_tick, ProjectileOutcome, TRAIL_COUNTER_START,
};
use ProjectileOutcome::{Expired, Hit, Missed};

#[test]
fn trail_counter_cycles_through_zero_every_third_step() {
    let mut count = TRAIL_COUNTER_START;
    let mut zeros = Vec::new();
    for k in 1..=9 {
        count = next_trail_counter(count);
        if count == 0 {
            zeros.push(k);
        }
    }
    assert_eq!(zeros, vec![3, 6, 9]);
    assert_eq!(next_trail_counter(3), 2);
    assert_eq!(next_trail_counter(0), -1);
    assert_eq!(next_trail_counter(-1), -2);
    assert_eq!(next_trail_counter(-2), 0);
}

#[test]
fn empty_tick_does_nothing() {
    let tick = plan_projectile_tick(&vec![]);
    assert!(tick.despawn.is_empty());
    assert!(tick.hits.is_empty());
    assert!(tick.trails.is_empty());
}

#[test]
fn expired_and_hit_projectiles_are_removed() {
    let tick = plan_projectile_tick(&vec![Missed, Expired, Hit, Missed, Hit]);
    assert_eq!(tick.despawn, vec![1, 2, 4]);
    assert_eq!(tick.hits, vec![2, 4]);
}

#[test]
fn every_third_traced_projectile_leaves_a_trail() {
    let tick = plan_projectile_tick(&vec![
        Missed, Expired, Missed, Hit, Missed, Missed, Expired, Missed, Missed,
    ]);
    // traced projectiles: 0, 2, 3, 4, 5, 7, 8 -> the third is 3, the sixth is 7
    assert_eq!(tick.trails, vec![3, 7]);
}

#[test]
fn expired_projectiles_leave_no_trail() {
    let tick = plan_projectile_tick(&vec![Expired, Expired, Expired, Expired]);
    assert!(tick.trails.is_empty());
    assert!(tick.hits.is_empty());
    assert_eq!(tick.despawn, vec![0, 1, 2, 3]);
}
