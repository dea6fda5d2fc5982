//! Exact expectations for the selector tables: movement weights, glyph
//! lookup, and style palettes.

use rand::SeedableRng;
use rbonsai::model::BranchKind;
use rbonsai::model::BranchKind::{Dead, Dying, ShootLeft, ShootRight, Trunk};
use rbonsai::utility::{
    choose_color, choose_string, dead_dy, dying_dx, dying_dy, set_deltas, shoot_dy,
    shoot_left_dx, shoot_right_dx, style_for, trunk_mature_dy, trunk_middle_dx,
};

#[test]
fn trunk_middle_dx_matches_its_weights() {
    let expected = [-2, -1, -1, -1, 0, 0, 1, 1, 1, 2];
    for (d, want) in expected.iter().enumerate() {
        assert_eq!(trunk_middle_dx(d as i32), *want);
    }
}

#[test]
fn trunk_mature_dy_rises_seven_of_ten() {
    for d in 0..10 {
        assert_eq!(trunk_mature_dy(d), if d > 2 { -1 } else { 0 });
    }
}

#[test]
fn shoot_tables_match_their_weights() {
    let dy = [-1, -1, 0, 0, 0, 0, 0, 0, 1, 1];
    let left = [-2, -2, -1, -1, -1, -1, 0, 0, 0, 1];
    let right = [2, 2, 1, 1, 1, 1, 0, 0, 0, -1];
    for d in 0..10 {
        assert_eq!(shoot_dy(d), dy[d as usize]);
        assert_eq!(shoot_left_dx(d), left[d as usize]);
        assert_eq!(shoot_right_dx(d), right[d as usize]);
    }
}

#[test]
fn dying_and_dead_tables_match_their_weights() {
    let dying_vertical = [-1, -1, 0, 0, 0, 0, 0, 0, 1, 1];
    for d in 0..10 {
        assert_eq!(dying_dy(d), dying_vertical[d as usize]);
        assert_eq!(dead_dy(d), if d <= 2 { -1 } else if d <= 6 { 0 } else { 1 });
    }
    let dying_horizontal = [-3, -2, -2, -1, -1, -1, 0, 0, 0, 1, 1, 1, 2, 2, 3];
    for d in 0..15 {
        assert_eq!(dying_dx(d), dying_horizontal[d as usize]);
    }
}

#[test]
fn deltas_stay_small_for_every_kind() {
    let mut rng = rand::rngs::StdRng::seed_from_u64(3);
    let kinds = [
        BranchKind::Trunk,
        BranchKind::ShootLeft,
        BranchKind::ShootRight,
        BranchKind::Dying,
        BranchKind::Dead,
    ];
    for kind in kinds {
        for life in [0, 3, 5, 20] {
            for age in [0, 2, 5, 12, 40] {
                let (dx, dy) = set_deltas(kind, life, age, 3, &mut rng);
                assert!((-3..=3).contains(&dx));
                assert!((-1..=1).contains(&dy));
            }
        }
    }
}

#[test]
fn glyphs_follow_direction_hints() {
    assert_eq!(choose_string(Trunk, 10, 0, 0), "/~");
    assert_eq!(choose_string(Trunk, 10, -1, 0), "\\|");
    assert_eq!(choose_string(Trunk, 10, 0, -1), "/|\\");
    assert_eq!(choose_string(Trunk, 10, 2, 0), "|/");
    assert_eq!(choose_string(ShootLeft, 10, -2, 1), "\\");
    assert_eq!(choose_string(ShootLeft, 10, 0, 0), "\\_");
    assert_eq!(choose_string(ShootLeft, 10, -1, 0), "\\|");
    assert_eq!(choose_string(ShootLeft, 10, 0, -1), "/|");
    assert_eq!(choose_string(ShootLeft, 10, 1, -1), "/");
    assert_eq!(choose_string(ShootRight, 10, 1, 1), "/");
    assert_eq!(choose_string(ShootRight, 10, 0, 0), "_/");
    assert_eq!(choose_string(ShootRight, 10, -1, 0), "\\|");
    assert_eq!(choose_string(ShootRight, 10, 0, -1), "/|");
    assert_eq!(choose_string(ShootRight, 10, 2, -1), "/");
    assert_eq!(choose_string(Dying, 10, 1, 0), "&");
    assert_eq!(choose_string(Dead, 10, 0, -1), "&");
    // life under four always draws a leaf, whatever the kind or motion
    assert_eq!(choose_string(Trunk, 3, 1, -1), "&");
    assert_eq!(choose_string(ShootRight, 0, -1, 0), "&");
}

#[test]
fn styles_follow_their_palettes() {
    let bolds = [Trunk, ShootLeft, ShootRight];
    for kind in bolds {
        let bright = style_for(kind, 0);
        assert!(bright.bold && bright.foreground_color == 11);
        let plain = style_for(kind, 1);
        assert!(!plain.bold && plain.foreground_color == 3);
    }
    assert!(style_for(Dying, 0).bold);
    for d in 1..10 {
        let s = style_for(Dying, d);
        assert!(!s.bold && s.foreground_color == 2);
    }
    assert!(style_for(Dead, 0).bold && style_for(Dead, 0).foreground_color == 10);
    for d in 1..3 {
        let s = style_for(Dead, d);
        assert!(!s.bold && s.foreground_color == 10);
    }
}

#[test]
fn drawn_styles_stay_in_each_palette() {
    let mut rng = rand::rngs::StdRng::seed_from_u64(17);
    for _ in 0..50 {
        let wood = choose_color(BranchKind::Trunk, &mut rng);
        assert!(
            (wood.bold && wood.foreground_color == 11)
                || (!wood.bold && wood.foreground_color == 3)
        );
        let dying = choose_color(BranchKind::Dying, &mut rng);
        assert_eq!(dying.foreground_color, 2);
        let dead = choose_color(BranchKind::Dead, &mut rng);
        assert_eq!(dead.foreground_color, 10);
    }
}
