//! Scenario tests that drive the engine's micro-step directly: forced death
//! spawns, shoot cooldown behaviour, and run-wide shoot alternation.

use rand::SeedableRng;
use rbonsai::engine::{grow_step, grow_tree, Counters, Frame};
use rbonsai::model::{BranchKind, Position};
use rbonsai::Config;

const MAX_X: u16 = 80;
const MAX_Y: u16 = 24;
const FLOOR: u16 = 19;

fn config() -> Config {
    Config { live: false, base: 1, multiplier: 3, life: 32, verbose: false }
}

fn trunk_frame(life: i32, shoot_cooldown: i32) -> Frame {
    Frame {
        kind: BranchKind::Trunk,
        pos: Position { x: 40, y: 10 },
        life,
        shoot_cooldown,
        pending: None,
    }
}

#[test]
fn life_under_three_spawns_dead_child() {
    let config = config();
    let mut counters = Counters::new(1, FLOOR);
    let mut tree = Vec::new();
    let mut rng = rand::rngs::StdRng::seed_from_u64(5);
    let mut stack = vec![trunk_frame(3, 3)];
    grow_step(&config, &mut counters, &mut tree, &mut rng, &mut stack, MAX_X, MAX_Y);
    // the parent decremented its life to 2, under the death threshold, so a
    // dead child now grows at the parent's position
    assert_eq!(stack.len(), 2);
    assert_eq!(stack[0].life, 2);
    assert!(stack[0].pending.is_some());
    assert_eq!(stack[1].kind, BranchKind::Dead);
    assert_eq!(stack[1].life, 2);
    assert_eq!(stack[1].pos.x, 40);
    assert_eq!(stack[1].pos.y, 10);
    assert_eq!(counters.shoots, 0);
}

#[test]
fn shoot_spawn_resets_cooldown_then_ticks() {
    let config = config();
    let mut counters = Counters::new(1, FLOOR);
    let mut tree = Vec::new();
    let mut rng = rand::rngs::StdRng::seed_from_u64(9);
    // a trunk with life 7 and an elapsed cooldown: 6 % 3 == 0 makes the
    // spawn guard certain, and life 6 rules out the fork, so a shoot spawns
    let mut stack = vec![trunk_frame(7, 0)];
    grow_step(&config, &mut counters, &mut tree, &mut rng, &mut stack, MAX_X, MAX_Y);
    assert_eq!(stack.len(), 2);
    assert_eq!(counters.shoots, 1);
    // the parent's cooldown reset to twice the multiplier
    assert_eq!(stack[0].shoot_cooldown, 6);
    // the shoot lives longer than its parent by the multiplier
    assert_eq!(stack[1].life, 9);
    assert!(
        stack[1].kind == BranchKind::ShootLeft || stack[1].kind == BranchKind::ShootRight
    );
    // let the shoot subtree grow to completion; the parent stays untouched
    let mut steps = 0;
    while stack.len() > 1 {
        grow_step(&config, &mut counters, &mut tree, &mut rng, &mut stack, MAX_X, MAX_Y);
        steps += 1;
        assert!(steps < 100_000, "shoot subtree did not retire");
    }
    assert_eq!(stack[0].shoot_cooldown, 6);
    // the parent's interrupted step now finishes and ticks the cooldown once
    grow_step(&config, &mut counters, &mut tree, &mut rng, &mut stack, MAX_X, MAX_Y);
    assert_eq!(stack.len(), 1);
    assert!(stack[0].pending.is_none());
    assert_eq!(stack[0].shoot_cooldown, 5);
    // and every later step without a spawn keeps ticking it down by one
    grow_step(&config, &mut counters, &mut tree, &mut rng, &mut stack, MAX_X, MAX_Y);
    if stack.len() == 1 && stack[0].pending.is_none() && counters.shoots == 1 {
        assert_eq!(stack[0].shoot_cooldown, 4);
    }
}

#[test]
fn shoot_directions_alternate_across_the_run() {
    let config = config();
    let mut counters = Counters::new(1, FLOOR);
    let mut tree = Vec::new();
    let mut rng = rand::rngs::StdRng::seed_from_u64(13);
    let mut seen = Vec::new();
    // spawn several shoots from fresh trunks against the same run-wide
    // counters; each spawn is certain (life 6 % 3 == 0, cooldown elapsed)
    for _ in 0..6 {
        let mut stack = vec![trunk_frame(7, 0)];
        grow_step(&config, &mut counters, &mut tree, &mut rng, &mut stack, MAX_X, MAX_Y);
        assert_eq!(stack.len(), 2);
        seen.push(stack[1].kind);
    }
    assert_eq!(counters.shoots, 6);
    for pair in seen.windows(2) {
        assert_ne!(pair[0], pair[1], "consecutive shoots took the same direction");
    }
}

#[test]
fn minimal_life_terminates_with_at_most_one_event() {
    // starting life 1: the single iteration drops life to 0, so the engine
    // stops at once, records at most one event, and spawns no shoots
    let config = Config { live: false, base: 1, multiplier: 3, life: 1, verbose: false };
    for seed in 0u64..20 {
        let mut rng = rand::rngs::StdRng::seed_from_u64(seed);
        let tree = grow_tree(&config, MAX_X, MAX_Y, &mut rng);
        assert!(tree.len() <= 1);
        for val in &tree {
            assert_eq!(val.shoots, 0);
            assert_eq!(val.life, 0);
            assert_eq!(val.branch_type, "Trunk");
        }
    }
}

#[test]
fn each_iteration_decrements_life_by_one() {
    let config = config();
    let mut counters = Counters::new(1, FLOOR);
    let mut tree = Vec::new();
    let mut rng = rand::rngs::StdRng::seed_from_u64(21);
    // a dying branch spawns nothing while its life stays 3 or more, so its
    // frame shows a strict one-per-iteration decrement
    let mut stack = vec![Frame {
        kind: BranchKind::Dying,
        pos: Position { x: 40, y: 10 },
        life: 8,
        shoot_cooldown: 3,
        pending: None,
    }];
    for expected in [7, 6, 5, 4] {
        grow_step(&config, &mut counters, &mut tree, &mut rng, &mut stack, MAX_X, MAX_Y);
        assert_eq!(stack.len(), 1);
        assert_eq!(stack[0].life, expected);
        assert!(stack[0].life >= 0);
    }
}

#[test]
fn downward_steps_damp_at_the_row_above_the_floor() {
    // a branch standing on the damping boundary one row above the tree floor
    // never sinks further: any drawn downward step is damped to a level one,
    // so neither a tip nor a recorded event ever passes that row
    let config = config();
    let mut counters = Counters::new(1, FLOOR);
    let mut tree = Vec::new();
    let mut rng = rand::rngs::StdRng::seed_from_u64(33);
    let boundary = FLOOR as i32 - 1;
    let mut stack = vec![Frame {
        kind: BranchKind::Dead,
        pos: Position { x: 40, y: boundary },
        life: 20,
        shoot_cooldown: 3,
        pending: None,
    }];
    let mut steps = 0;
    while !stack.is_empty() {
        grow_step(&config, &mut counters, &mut tree, &mut rng, &mut stack, MAX_X, MAX_Y);
        steps += 1;
        assert!(steps < 100_000, "the branch did not retire");
        for frame in &stack {
            assert!(frame.pos.y <= boundary);
        }
    }
    for val in &tree {
        assert!(val.pos.y <= boundary);
    }
}
