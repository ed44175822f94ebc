use mandelbrot_view::handle_input;
use mandelbrot_view::Key;
use mandelbrot_view::ViewState;
use mandelbrot_view::view::CENTER_MAX;
use mandelbrot_view::view::CENTER_RE_START;
use mandelbrot_view::view::MAX_ITERATIONS;
use mandelbrot_view::view::PIXEL_DELTA_MAX;
use mandelbrot_view::view::PIXEL_DELTA_MIN;
use mandelbrot_view::view::PIXEL_DELTA_START;
use mandelbrot_view::view::SCALE;

fn press(v: &mut ViewState, keys: &[Key]) {
    for k in keys {
        handle_input(*k, v);
    }
}

#[test]
fn initial_state() {
    let v = ViewState::new(800, 800);
    assert_eq!(v.width, 800);
    assert_eq!(v.height, 800);
    assert_eq!(v.max_iterations, MAX_ITERATIONS);
    assert_eq!(v.pixel_delta, PIXEL_DELTA_START);
    assert_eq!(v.center_re, CENTER_RE_START);
    assert_eq!(v.center_im, 0);
}

#[test]
fn zoom_in_once_matches_scenario() {
    // 0.0031415 / 1.05 is about 0.0029919.
    let mut v = ViewState::new(800, 800);
    handle_input(Key::Up, &mut v);
    assert_eq!(v.pixel_delta, 2_991_904_761);
    let delta = v.pixel_delta as f64 / SCALE as f64;
    assert!((delta - 0.0029919).abs() < 1e-6);
    // The center does not move on a zoom press.
    assert_eq!(v.center_re, CENTER_RE_START);
    assert_eq!(v.center_im, 0);
}

#[test]
fn zoom_then_pan_matches_scenario() {
    // After one zoom-in, a D press pans by pixel_delta * (800 / 100):
    // about -0.5 + 0.0029919 * 8 = -0.476066.
    let mut v = ViewState::new(800, 800);
    handle_input(Key::Up, &mut v);
    handle_input(Key::D, &mut v);
    assert_eq!(v.center_re, -500_000_000_000 + 2_991_904_761 * 8);
    assert_eq!(v.center_re, -476_064_761_912);
    let re = v.center_re as f64 / SCALE as f64;
    assert!((re - (-0.476066)).abs() < 1e-5);
}

#[test]
fn zoom_in_sequence_exact() {
    let mut v = ViewState::new(800, 800);
    handle_input(Key::Up, &mut v);
    assert_eq!(v.pixel_delta, 2_991_904_761);
    handle_input(Key::Up, &mut v);
    assert_eq!(v.pixel_delta, 2_849_433_105);
    handle_input(Key::Up, &mut v);
    assert_eq!(v.pixel_delta, 2_713_745_814);
}

#[test]
fn zoom_out_once_exact() {
    // 0.0031415 * 1.05 = 0.003298575, exactly on the grid.
    let mut v = ViewState::new(800, 800);
    handle_input(Key::Down, &mut v);
    assert_eq!(v.pixel_delta, 3_298_575_000);
}

#[test]
fn zoom_round_trip_is_approximate() {
    // Ten zoom-ins then ten zoom-outs come back near the start, but not
    // exactly: the grid's flooring is not invertible.
    let mut v = ViewState::new(800, 800);
    press(&mut v, &[Key::Up; 10]);
    press(&mut v, &[Key::Down; 10]);
    assert!(v.pixel_delta <= PIXEL_DELTA_START);
    assert!(v.pixel_delta >= PIXEL_DELTA_START - 100);
    let d = v.pixel_delta as f64 / SCALE as f64;
    assert!((d - 0.0031415).abs() < 1e-9);
}

#[test]
fn pan_is_additive_and_order_independent() {
    let step = PIXEL_DELTA_START as i64 * 8;
    let mut a = ViewState::new(800, 800);
    press(&mut a, &[Key::D, Key::W, Key::A]);
    let mut b = ViewState::new(800, 800);
    press(&mut b, &[Key::A, Key::D, Key::W]);
    let mut c = ViewState::new(800, 800);
    press(&mut c, &[Key::W, Key::A, Key::D]);
    // D and A cancel; one W remains.
    assert_eq!(a.center_re, CENTER_RE_START);
    assert_eq!(a.center_im, step);
    assert_eq!(a, b);
    assert_eq!(a, c);
}

#[test]
fn pan_moves_by_step_in_each_direction() {
    let step = PIXEL_DELTA_START as i64 * 8;
    let mut v = ViewState::new(800, 800);
    handle_input(Key::D, &mut v);
    assert_eq!(v.center_re, CENTER_RE_START + step);
    handle_input(Key::A, &mut v);
    assert_eq!(v.center_re, CENTER_RE_START);
    handle_input(Key::W, &mut v);
    assert_eq!(v.center_im, step);
    handle_input(Key::S, &mut v);
    assert_eq!(v.center_im, 0);
}

#[test]
fn pan_step_scales_linearly_with_pixel_delta() {
    // Doubling the pixel delta doubles the pan distance of one press.
    let mut slow = ViewState::new(800, 800);
    slow.pixel_delta = 1_000_000;
    let mut fast = ViewState::new(800, 800);
    fast.pixel_delta = 2_000_000;
    handle_input(Key::D, &mut slow);
    handle_input(Key::D, &mut fast);
    let slow_move = slow.center_re - CENTER_RE_START;
    let fast_move = fast.center_re - CENTER_RE_START;
    assert_eq!(slow_move, 8_000_000);
    assert_eq!(fast_move, 2 * slow_move);
}

#[test]
fn pan_uses_shorter_dimension() {
    // For a 400 by 800 window the step is pixel_delta * (400 / 100).
    let mut v = ViewState::new(400, 800);
    handle_input(Key::D, &mut v);
    assert_eq!(v.center_re, CENTER_RE_START + PIXEL_DELTA_START as i64 * 4);
}

#[test]
fn tiny_window_pans_nowhere() {
    // Below 100 pixels the step's screen factor floors to zero.
    let mut v = ViewState::new(50, 80);
    handle_input(Key::D, &mut v);
    assert_eq!(v.center_re, CENTER_RE_START);
}

#[test]
fn escape_and_unknown_keys_change_nothing() {
    let mut v = ViewState::new(800, 800);
    let before = v;
    handle_input(Key::Escape, &mut v);
    assert_eq!(v, before);
    handle_input(Key::Other, &mut v);
    assert_eq!(v, before);
}

#[test]
fn zoom_in_stops_at_smallest_delta() {
    let mut v = ViewState::new(800, 800);
    v.pixel_delta = PIXEL_DELTA_MIN;
    handle_input(Key::Up, &mut v);
    assert_eq!(v.pixel_delta, PIXEL_DELTA_MIN);
}

#[test]
fn zoom_out_stops_at_largest_delta() {
    let mut v = ViewState::new(800, 800);
    v.pixel_delta = PIXEL_DELTA_MAX;
    handle_input(Key::Down, &mut v);
    assert_eq!(v.pixel_delta, PIXEL_DELTA_MAX);
}

#[test]
fn pan_clamps_at_the_edge_of_the_grid() {
    let mut v = ViewState::new(800, 800);
    v.center_re = CENTER_MAX;
    handle_input(Key::D, &mut v);
    assert_eq!(v.center_re, CENTER_MAX);
    v.center_re = -CENTER_MAX;
    handle_input(Key::A, &mut v);
    assert_eq!(v.center_re, -CENTER_MAX);
}
