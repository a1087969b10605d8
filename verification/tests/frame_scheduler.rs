use ball_in_a_box::ball::Ball;
use ball_in_a_box::fx::Fx;
use ball_in_a_box::scheduler::run_frame;
use ball_in_a_box::settings::Settings;
use ball_in_a_box::vec2::Vec2;

fn units(u: i64) -> Fx {
    Fx::from_units(u)
}

fn frame_dt() -> Fx {
    Fx { raw: 16_667 }
}

fn box_size(settings: &Settings) -> Vec2 {
    Vec2::new(
        Fx::from_units(settings.box_width as i64),
        Fx::from_units(settings.box_height as i64),
    )
}

#[test]
fn free_flight_takes_a_single_full_sub_step() {
    let settings = Settings::default();
    let size = box_size(&settings);
    let mut ball = Ball::new(units(settings.ball_radius as i64));
    let result = run_frame(
        &mut ball,
        frame_dt(),
        &settings,
        Vec2::zero(),
        Vec2::zero(),
        size,
    );
    assert_eq!(result.steps, 1);
    assert_eq!(result.remaining_dt.raw, 0);
    assert_eq!(result.sub_dts.len(), 2);
    assert_eq!(result.sub_dts[0].raw, 16_667);
    assert_eq!(result.sub_dts[1].raw, 0);
    assert!(result.impacts.is_empty());
}

#[test]
fn sub_step_lengths_sum_to_the_frame_time_minus_the_residue() {
    // A wall contact splits the frame into several sub-steps; summing
    // the neighbouring differences of the remaining-time trace must give
    // back exactly the simulated share of the frame.
    let settings = Settings::default();
    let size = box_size(&settings);
    let mut ball = Ball::new(units(settings.ball_radius as i64));
    ball.position = Vec2::new(Fx { raw: 0 }, units(349));
    ball.velocity = Vec2::new(Fx { raw: 0 }, units(200));
    let result = run_frame(
        &mut ball,
        frame_dt(),
        &settings,
        Vec2::zero(),
        Vec2::zero(),
        size,
    );
    assert!(result.steps >= 2);
    assert_eq!(result.sub_dts.len(), result.steps + 1);
    assert_eq!(result.sub_dts[0].raw, frame_dt().raw);
    assert_eq!(
        result.sub_dts.last().unwrap().raw,
        result.remaining_dt.raw
    );
    let mut consumed: i64 = 0;
    for i in 0..result.steps {
        let sub = result.sub_dts[i].raw - result.sub_dts[i + 1].raw;
        assert!(sub >= 0);
        consumed += sub;
    }
    assert_eq!(consumed, frame_dt().raw - result.remaining_dt.raw);
    assert!(result.remaining_dt.raw <= 10 || result.steps == 10);
}

#[test]
fn a_zero_frame_runs_no_sub_step() {
    let settings = Settings::default();
    let size = box_size(&settings);
    let mut ball = Ball::new(units(settings.ball_radius as i64));
    ball.position = Vec2::new(units(10), units(-20));
    let before = ball;
    let result = run_frame(
        &mut ball,
        Fx { raw: 0 },
        &settings,
        Vec2::zero(),
        Vec2::zero(),
        size,
    );
    assert_eq!(result.steps, 0);
    assert_eq!(result.remaining_dt.raw, 0);
    assert_eq!(ball, before);
}

#[test]
fn the_iteration_cap_bounds_a_frame() {
    // Even a pathological frame can run at most ten sub-steps.
    let settings = Settings::default();
    let size = box_size(&settings);
    let mut ball = Ball::new(units(settings.ball_radius as i64));
    ball.position = Vec2::new(Fx { raw: 0 }, units(350));
    ball.velocity = Vec2::new(Fx { raw: 0 }, units(500));
    let result = run_frame(
        &mut ball,
        units(3),
        &settings,
        Vec2::zero(),
        Vec2::zero(),
        size,
    );
    assert!(result.steps <= 10);
    assert!(result.remaining_dt.raw <= 10 || result.steps == 10);
}
