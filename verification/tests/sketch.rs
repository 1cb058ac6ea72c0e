use noise_walk::color::{Color, CHANNEL_MAX};
use noise_walk::grid::{build_model, grid_point_count};
use noise_walk::model::Model;
use noise_walk::render::{Renderer, DOT_DIAMETER};
use noise_walk::update::noise_to_angle;
use noise_walk::FIX_ONE;

/// One distinct, in-range color per point.
fn varied_colors(n: u64) -> Vec<Color> {
    (0..n)
        .map(|i| {
            let i = i as u32;
            Color::new(
                (i * 2_001) % (CHANNEL_MAX + 1),
                (i * 37) % (CHANNEL_MAX + 1),
                (i * 101) % (CHANNEL_MAX + 1),
                CHANNEL_MAX - (i % 7),
            )
        })
        .collect()
}

fn reference_model() -> Model {
    let n = grid_point_count(720, 720, 20);
    build_model(720, 720, 20, &varied_colors(n))
}

#[test]
fn count_matches_density_formula() {
    // floor(W / (W / D)) * floor(H / (H / D)) with W = H = 720, D = 20:
    // spacing 36, twenty columns by twenty rows.
    let spacing = 720 / 20;
    assert_eq!(spacing, 36);
    assert_eq!(grid_point_count(720, 720, 20), (720 / spacing) * (720 / spacing));
    assert_eq!(grid_point_count(720, 720, 20), 400);
    // A width that the step does not divide evenly: step 33, columns at
    // 0, 33, …, 99 < 100, so four of them.
    assert_eq!(grid_point_count(100, 67, 3), 4 * 3);
}

#[test]
fn builder_lays_out_the_centered_grid() {
    let m = reference_model();
    assert_eq!(m.points.len(), 400);
    // First point: raw (0, 0), centered by -360 and offset by +36 units.
    assert_eq!(m.points[0].x, -324 * FIX_ONE);
    assert_eq!(m.points[0].y, -324 * FIX_ONE);
    // Rows are the inner walk: the next point is one step down the y axis,
    // the 20th is one step along x.
    assert_eq!(m.points[1].y - m.points[0].y, 36 * FIX_ONE);
    assert_eq!(m.points[1].x, m.points[0].x);
    assert_eq!(m.points[20].x - m.points[0].x, 36 * FIX_ONE);
    assert_eq!(m.points[20].y, m.points[0].y);
    // Last point: raw (684, 684), centered to (360, 360) units.
    assert_eq!(m.points[399].x, 360 * FIX_ONE);
    assert_eq!(m.points[399].y, 360 * FIX_ONE);
    // Every point sits inside the canvas, allowing the one-step offset.
    for p in &m.points {
        assert!(-360 * FIX_ONE <= p.x && p.x <= (360 + 36) * FIX_ONE);
        assert!(-360 * FIX_ONE <= p.y && p.y <= (360 + 36) * FIX_ONE);
    }
}

#[test]
fn builder_keeps_the_colors_handed_in() {
    let n = grid_point_count(720, 720, 20);
    let colors = varied_colors(n);
    let m = build_model(720, 720, 20, &colors);
    for (p, c) in m.points.iter().zip(colors.iter()) {
        assert_eq!(p.color.red_value(), c.red_value());
        assert_eq!(p.color.green_value(), c.green_value());
        assert_eq!(p.color.blue_value(), c.blue_value());
        assert_eq!(p.color.alpha_value(), c.alpha_value());
    }
}

#[test]
fn every_color_channel_lies_in_unit_range() {
    let m = reference_model();
    for p in &m.points {
        assert!(p.color.red_value() <= CHANNEL_MAX);
        assert!(p.color.green_value() <= CHANNEL_MAX);
        assert!(p.color.blue_value() <= CHANNEL_MAX);
        assert!(p.color.alpha_value() <= CHANNEL_MAX);
    }
}

#[test]
fn color_clamps_out_of_range_channels() {
    let c = Color::new(2_000_000, CHANNEL_MAX, 0, 999_999);
    assert_eq!(c.red_value(), CHANNEL_MAX);
    assert_eq!(c.green_value(), CHANNEL_MAX);
    assert_eq!(c.blue_value(), 0);
    assert_eq!(c.alpha_value(), 999_999);
    let d = Color::new(u32::MAX, u32::MAX, u32::MAX, u32::MAX);
    assert_eq!(d.red_value(), CHANNEL_MAX);
    assert_eq!(d.alpha_value(), CHANNEL_MAX);
}

#[test]
fn noise_lerp_maps_unit_range_onto_full_turns() {
    // The lerp of [-1, 1] onto [-360, 360] degrees, in micro-units.
    assert_eq!(noise_to_angle(0), 0);
    assert_eq!(noise_to_angle(FIX_ONE), 360 * FIX_ONE);
    assert_eq!(noise_to_angle(-FIX_ONE), -360 * FIX_ONE);
    assert_eq!(noise_to_angle(FIX_ONE / 2), 180 * FIX_ONE);
    assert_eq!(noise_to_angle(-FIX_ONE / 4), -90 * FIX_ONE);
    // The map is linear, so a sample slightly out of range keeps going.
    assert_eq!(noise_to_angle(1_100_000), 396 * FIX_ONE);
}

#[test]
fn update_moves_each_point_by_its_own_step() {
    // Width 4 at density 4: step 1, four columns; height 3: three rows.
    let colors = varied_colors(4 * 3);
    let mut m = build_model(4, 3, 4, &colors);
    assert_eq!(m.points.len(), 12);
    let before: Vec<(i64, i64)> = m.points.iter().map(|p| (p.x, p.y)).collect();
    let steps: Vec<(i64, i64)> =
        (0..12).map(|i| (i as i64 * FIX_ONE, -3 * i as i64)).collect();
    m.update(&steps);
    assert_eq!(m.points.len(), 12);
    for i in 0..12 {
        assert_eq!(m.points[i].x, before[i].0 + steps[i].0);
        assert_eq!(m.points[i].y, before[i].1 + steps[i].1);
        assert_eq!(m.points[i].color.red_value(), colors[i].red_value());
        assert_eq!(m.points[i].color.alpha_value(), colors[i].alpha_value());
    }
}

#[test]
fn update_is_deterministic() {
    // Two runs from the same positions through the same steps agree.
    let mut a = reference_model();
    let mut b = reference_model();
    let steps: Vec<(i64, i64)> = a
        .points
        .iter()
        .map(|p| ((p.x % 97) * 11, (p.y % 89) * 7))
        .collect();
    a.update(&steps);
    b.update(&steps);
    for (pa, pb) in a.points.iter().zip(b.points.iter()) {
        assert_eq!(pa.x, pb.x);
        assert_eq!(pa.y, pb.y);
    }
}

#[test]
fn a_thousand_ticks_never_come_back() {
    // Under a noise field that is constant zero, the angle is 0 and the
    // step is one unit along x, every tick.  The walk is persistent: the
    // point never revisits its start.
    let mut m = reference_model();
    let (x0, y0) = (m.points[0].x, m.points[0].y);
    let steps: Vec<(i64, i64)> = m.points.iter().map(|_| (FIX_ONE, 0)).collect();
    for _ in 0..1000 {
        m.update(&steps);
        assert!((m.points[0].x, m.points[0].y) != (x0, y0));
    }
    assert_eq!(m.points[0].x, x0 + 1000 * FIX_ONE);
    assert_eq!(m.points[0].y, y0);
}

#[test]
fn clear_fires_exactly_once() {
    let m = reference_model();
    let mut r = Renderer::new();
    let mut clears = Vec::new();
    for _ in 0..5 {
        clears.push(r.plan_frame(&m).clear_background);
    }
    assert_eq!(clears, vec![true, false, false, false, false]);
}

#[test]
fn frame_plan_draws_one_circle_per_point() {
    let m = reference_model();
    let mut r = Renderer::new();
    let plan = r.plan_frame(&m);
    assert_eq!(plan.circles.len(), m.points.len());
    for (c, p) in plan.circles.iter().zip(m.points.iter()) {
        assert_eq!(c.x, p.x);
        assert_eq!(c.y, p.y);
        assert_eq!(c.diameter, DOT_DIAMETER);
        assert_eq!(c.diameter, 3 * FIX_ONE);
        assert_eq!(c.color.red_value(), p.color.red_value());
        assert_eq!(c.color.alpha_value(), p.color.alpha_value());
    }
}

#[test]
fn displacement_direction_is_a_unit_vector() {
    // The host turns the mapped angle into (cos a, sin a); whatever the
    // noise sample, that direction has magnitude exactly one.
    for n in [-1.0f64, -0.37, 0.0, 0.5, 0.93, 1.0] {
        let sample = (n * FIX_ONE as f64) as i64;
        let micro_deg = noise_to_angle(sample);
        let radians = (micro_deg as f64 / FIX_ONE as f64).to_radians();
        let (dx, dy) = (radians.cos(), radians.sin());
        assert!((dx * dx + dy * dy - 1.0).abs() < 1e-12);
        // And the fixed-point step the host hands back is that unit vector
        // to within rounding.
        let (sx, sy) = ((dx * FIX_ONE as f64) as i64, (dy * FIX_ONE as f64) as i64);
        let len = ((sx * sx + sy * sy) as f64).sqrt();
        assert!((len - FIX_ONE as f64).abs() < 2.0);
    }
}

#[test]
fn end_to_end_zero_noise_moves_every_point_one_unit_right() {
    // W = H = 720, D = 20: a 20-by-20 grid spaced 36 units, centered.
    // One tick under a constant-zero noise field: the lerp sends 0 to the
    // midpoint of [-360, 360], angle 0, so the step is exactly (1, 0).
    let n = grid_point_count(720, 720, 20);
    assert_eq!(n, 400);
    let colors = varied_colors(n);
    let mut m = build_model(720, 720, 20, &colors);
    let before: Vec<(i64, i64)> = m.points.iter().map(|p| (p.x, p.y)).collect();
    let steps: Vec<(i64, i64)> = m
        .points
        .iter()
        .map(|_| {
            let sample = (0.0f64 * FIX_ONE as f64) as i64;
            let micro_deg = noise_to_angle(sample);
            let radians = (micro_deg as f64 / FIX_ONE as f64).to_radians();
            (
                (radians.cos() * FIX_ONE as f64) as i64,
                (radians.sin() * FIX_ONE as f64) as i64,
            )
        })
        .collect();
    m.update(&steps);
    assert_eq!(m.points[0].x, -324 * FIX_ONE + FIX_ONE);
    assert_eq!(m.points[0].y, -324 * FIX_ONE);
    for i in 0..400 {
        assert_eq!(m.points[i].x, before[i].0 + FIX_ONE);
        assert_eq!(m.points[i].y, before[i].1);
    }
}
