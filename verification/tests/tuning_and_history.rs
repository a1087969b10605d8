use ball_in_a_box::fx::Fx;
use ball_in_a_box::settings::Settings;
use ball_in_a_box::wall_hits::{WallHits, WALL_CEILING, WALL_FLOOR, WALL_NONE};

#[test]
fn stock_tuning_values() {
    let settings = Settings::default();
    assert_eq!(settings.gravity_strength.raw, 3_000_000);
    assert_eq!(settings.ball_bounciness.raw, 900_000);
    assert_eq!(settings.ball_radius, 90);
    assert_eq!(settings.box_width, 640);
    assert_eq!(settings.box_height, 480);
    assert_eq!(settings.box_thickness, 20);
    assert_eq!(settings.box_depth, 20);
    assert_eq!(settings.min_hit_speed.raw, 120_000_000);
    assert_eq!(settings.hit_density.raw, 320_000);
    assert_eq!(settings.box_weight.raw, 40_000);
    assert_eq!(settings.delay_frames, 0);
}

#[test]
fn change_detection_per_group() {
    let settings = Settings::default();
    let mut other = settings;
    assert!(!settings.physics_changed(&other));
    assert!(!settings.box_changed(&other));
    other.ball_bounciness = Fx { raw: 500_000 };
    assert!(settings.physics_changed(&other));
    assert!(!settings.box_changed(&other));
    let mut resized = settings;
    resized.box_width = 800;
    assert!(!settings.physics_changed(&resized));
    assert!(settings.box_changed(&resized));
}

#[test]
fn history_rotates_and_answers_membership() {
    let mut hits = WallHits::new();
    assert_eq!(hits.latest, WALL_NONE);
    assert_eq!(hits.previous, WALL_NONE);
    hits.latest = WALL_FLOOR;
    assert!(hits.contains(WALL_FLOOR));
    assert!(!hits.contains(WALL_CEILING));
    hits.rotate();
    assert_eq!(hits.latest, WALL_NONE);
    assert_eq!(hits.previous, WALL_FLOOR);
    assert!(hits.contains(WALL_FLOOR));
    hits.latest = WALL_CEILING;
    hits.rotate();
    hits.latest = WALL_NONE;
    assert!(!hits.contains(WALL_FLOOR));
    assert!(hits.contains(WALL_CEILING));
}
