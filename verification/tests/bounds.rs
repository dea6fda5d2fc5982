//! The bounds invariant: every emitted draw event lies inside the terminal
//! and never below the tree floor, for every configuration and seed tried.

use rand::SeedableRng;
use rbonsai::engine::grow_tree;
use rbonsai::Config;

fn base_rows(base: u8) -> u16 {
    match base {
        1 => 5,
        2 => 4,
        _ => 0,
    }
}

#[test]
fn events_stay_inside_bounds() {
    for seed in [0u64, 3, 11, 99, 4242] {
        for (life, multiplier, base) in [(32, 3, 1), (50, 5, 2), (12, 2, 0), (64, 3, 1)] {
            for (max_x, max_y) in [(80u16, 24u16), (20, 10), (200, 60), (5, 6)] {
                let floor = max_y - base_rows(base);
                let config = Config { live: false, base, multiplier, life, verbose: false };
                let mut rng = rand::rngs::StdRng::seed_from_u64(seed);
                let tree = grow_tree(&config, max_x, max_y, &mut rng);
                for val in &tree {
                    assert!(0 <= val.pos.x && val.pos.x < max_x as i32);
                    assert!(0 <= val.pos.y && val.pos.y < max_y as i32);
                    assert!(val.pos.y <= floor as i32);
                }
            }
        }
    }
}

#[test]
fn no_base_rows_means_no_room_to_grow() {
    // with no reserved base the trunk starts on the row below the drawable
    // area and retires before it can record a single event
    let config = Config { live: false, base: 0, multiplier: 3, life: 32, verbose: false };
    let mut rng = rand::rngs::StdRng::seed_from_u64(7);
    let tree = grow_tree(&config, 80, 24, &mut rng);
    assert!(tree.is_empty());
}
