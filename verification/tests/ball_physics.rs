use ball_in_a_box::ball::{wrap_angle, Ball};
use ball_in_a_box::fx::Fx;
use ball_in_a_box::scheduler::run_frame;
use ball_in_a_box::settings::Settings;
use ball_in_a_box::vec2::Vec2;
use ball_in_a_box::wall_hits::{WallHits, WALL_FLOOR, WALL_RIGHT};

fn units(u: i64) -> Fx {
    Fx::from_units(u)
}

fn frame_dt() -> Fx {
    Fx { raw: 16_667 }
}

fn box_size(settings: &Settings) -> Vec2 {
    Vec2::new(
        Fx::from_units(settings.box_width as i64),
        Fx::from_units(settings.box_height as i64),
    )
}

/// Default tuning, but in a vacuum: no gravity, no drag.
fn vacuum_settings() -> Settings {
    let mut settings = Settings::default();
    settings.gravity_strength = Fx { raw: 0 };
    settings.air_friction = Fx { raw: 0 };
    settings
}

#[test]
fn wrap_angle_lands_in_one_turn() {
    assert_eq!(wrap_angle(Fx { raw: -1 }).raw, 6_283_184);
    assert_eq!(wrap_angle(Fx { raw: 7_000_000 }).raw, 716_815);
    assert_eq!(wrap_angle(Fx { raw: -6_283_185 }).raw, 0);
    assert_eq!(wrap_angle(Fx { raw: 123 }).raw, 123);
}

#[test]
fn dropped_ball_rebounds_lower_but_not_too_low() {
    // Gravity only, zero container velocity, radius 90, bounciness 0.9:
    // the floor plane sits 350 units below the center of the default box.
    let settings = Settings::default();
    let size = box_size(&settings);
    let mut ball = Ball::new(units(settings.ball_radius as i64));
    let floor_plane: i64 = 350_000_000;

    let mut first_bounce_frame: Option<usize> = None;
    let mut apex_after_bounce: i64 = floor_plane;
    let mut impact_speed: i64 = 0;
    for _frame in 0..900 {
        let result = run_frame(
            &mut ball,
            frame_dt(),
            &settings,
            Vec2::zero(),
            Vec2::zero(),
            size,
        );
        // Containment must hold on every frame of the fall and rebound.
        assert!(ball.position.y.raw.abs() <= floor_plane);
        assert!(ball.position.x.raw == 0);
        match first_bounce_frame {
            None => {
                if let Some(impact) = result.impacts.first() {
                    first_bounce_frame = Some(0);
                    impact_speed = impact.hit_speed.y.raw;
                    assert!(impact.volume_exponent.raw > 0);
                }
            },
            Some(_) => {
                if ball.position.y.raw < apex_after_bounce {
                    apex_after_bounce = ball.position.y.raw;
                }
                if ball.velocity.y.raw >= 0 {
                    break;
                }
            },
        }
    }
    assert!(first_bounce_frame.is_some());
    // The drop across 350 units ends well above the audible threshold.
    assert!(impact_speed > settings.min_hit_speed.raw);
    let rebound_height = floor_plane - apex_after_bounce;
    // Energy was lost, but bounciness 0.9 keeps more than half the height.
    assert!(rebound_height < floor_plane);
    assert!(rebound_height > floor_plane / 2);
}

#[test]
fn flung_container_kicks_the_ball_with_twice_its_speed() {
    // The container moves right at V for one frame, so the caller hands
    // the core a visual velocity of -2V; the ball starts resting on the
    // left wall and must come away with exactly +2V horizontal velocity.
    let settings = vacuum_settings();
    let size = box_size(&settings);
    let mut ball = Ball::new(units(settings.ball_radius as i64));
    ball.position = Vec2::new(Fx { raw: -510_000_000 }, Fx { raw: 0 });
    let v: i64 = 300_000_000;
    let coupled = Vec2::new(Fx { raw: -2 * v }, Fx { raw: 0 });
    let result = run_frame(&mut ball, frame_dt(), &settings, coupled, coupled, size);
    assert_eq!(ball.velocity.x.raw, 2 * v);
    assert_eq!(ball.position.x.raw, -510_000_000);
    assert_eq!(result.impacts.len(), 1);
}

#[test]
fn corner_contact_resolves_both_walls_at_once() {
    // The ball flies into the floor/right-wall corner in one sub-step:
    // both walls must reflect, both must exchange spin, and the center
    // must land exactly on both planes.
    let settings = vacuum_settings();
    let size = box_size(&settings);
    let mut ball = Ball::new(units(settings.ball_radius as i64));
    ball.position = Vec2::new(units(509), units(349));
    ball.velocity = Vec2::new(units(200), units(200));
    let mut hits = WallHits::new();
    let (leftover, impact) = ball.step(
        frame_dt(),
        &settings,
        Vec2::zero(),
        Vec2::zero(),
        &mut hits,
        size,
    );
    assert_eq!(ball.position.x.raw, 510_000_000);
    assert_eq!(ball.position.y.raw, 350_000_000);
    assert!(ball.velocity.x.raw < 0);
    assert!(ball.velocity.y.raw < 0);
    assert!(ball.rotation_velocity.raw != 0);
    assert!(hits.latest == WALL_RIGHT || hits.latest == WALL_FLOOR);
    let impact = impact.expect("a corner hit this fast must sound");
    assert_eq!(impact.hit_speed.x.raw, 200_000_000);
    assert_eq!(impact.hit_speed.y.raw, 200_000_000);
    // (200 - 120) / 450, scaled up by the corner-distance factor, then
    // squared against the squared density.
    assert_eq!(impact.volume_exponent.raw, 8_810);
    assert!(leftover.raw > 0 && leftover.raw < frame_dt().raw);
}

#[test]
fn resting_contact_reflects_exactly_once() {
    // A ball resting on the floor plane with a small downward speed:
    // the first sub-step reflects it, the chained second sub-step sees
    // the floor in the history and must not reflect again.
    let settings = Settings::default();
    let size = box_size(&settings);
    let mut ball = Ball::new(units(settings.ball_radius as i64));
    ball.position = Vec2::new(Fx { raw: 0 }, Fx { raw: 350_000_000 });
    ball.velocity = Vec2::new(Fx { raw: 0 }, Fx { raw: 6_000 });
    let mut hits = WallHits::new();
    let (leftover, _) = ball.step(
        frame_dt(),
        &settings,
        Vec2::zero(),
        Vec2::zero(),
        &mut hits,
        size,
    );
    // One sign flip: 6000 reflected by bounciness 0.9.
    assert_eq!(ball.velocity.y.raw, -5_400);
    assert_eq!(hits.latest, WALL_FLOOR);
    assert_eq!(leftover.raw, frame_dt().raw);
    let (_, _) = ball.step(
        leftover,
        &settings,
        Vec2::zero(),
        Vec2::zero(),
        &mut hits,
        size,
    );
    // Still exactly one flip: the second contact only re-exchanges spin.
    assert_eq!(ball.velocity.y.raw, -5_400);
    assert_eq!(ball.position.y.raw, 350_000_000);
}

#[test]
fn quiet_contact_stays_silent() {
    // A contact slower than min_hit_speed must not emit an impact.
    let settings = vacuum_settings();
    let size = box_size(&settings);
    let mut ball = Ball::new(units(settings.ball_radius as i64));
    ball.position = Vec2::new(Fx { raw: 0 }, units(349));
    ball.velocity = Vec2::new(Fx { raw: 0 }, units(100));
    let mut hits = WallHits::new();
    let (_, impact) = ball.step(
        frame_dt(),
        &settings,
        Vec2::zero(),
        Vec2::zero(),
        &mut hits,
        size,
    );
    assert!(impact.is_none());
    // The touched axis still starts its cooldown.
    assert!(ball.vertical_sound_timer.raw > 0);
    assert_eq!(ball.horizontal_sound_timer.raw, -9_999);
    assert_eq!(ball.velocity.y.raw, -90_000_000);
}

#[test]
fn cooldown_suppresses_an_immediate_second_sound() {
    let settings = vacuum_settings();
    let size = box_size(&settings);
    let mut ball = Ball::new(units(settings.ball_radius as i64));
    ball.position = Vec2::new(Fx { raw: 0 }, units(349));
    ball.velocity = Vec2::new(Fx { raw: 0 }, units(200));
    let mut hits = WallHits::new();
    let (_, first) = ball.step(
        frame_dt(),
        &settings,
        Vec2::zero(),
        Vec2::zero(),
        &mut hits,
        size,
    );
    assert_eq!(first.unwrap().volume_exponent.raw, 57_088);
    assert_eq!(ball.vertical_sound_timer.raw, 16_667);
    // Push the ball straight back at the floor while the cooldown runs.
    ball.velocity = Vec2::new(Fx { raw: 0 }, units(200));
    ball.position = Vec2::new(Fx { raw: 0 }, units(349));
    let mut hits = WallHits::new();
    let (_, second) = ball.step(
        frame_dt(),
        &settings,
        Vec2::zero(),
        Vec2::zero(),
        &mut hits,
        size,
    );
    assert!(second.is_none());
}
