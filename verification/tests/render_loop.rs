use mandelbrot_view::Event;
use mandelbrot_view::Key;
use mandelbrot_view::Phase;
use mandelbrot_view::RenderLoop;
use mandelbrot_view::view::CENTER_RE_START;
use mandelbrot_view::view::PIXEL_DELTA_START;

fn running_loop() -> RenderLoop {
    let mut rl = RenderLoop::new(800, 800);
    rl.start();
    rl
}

#[test]
fn lifecycle_phases() {
    let mut rl = RenderLoop::new(800, 800);
    assert_eq!(rl.phase, Phase::Initializing);
    rl.start();
    assert_eq!(rl.phase, Phase::Running);
    rl.step_frame(&vec![]);
    assert_eq!(rl.phase, Phase::Running);
    rl.step_frame(&vec![Event::CloseRequested]);
    assert_eq!(rl.phase, Phase::Terminated);
}

#[test]
fn escape_terminates() {
    let mut rl = running_loop();
    rl.step_frame(&vec![Event::KeyPress(Key::Escape)]);
    assert_eq!(rl.phase, Phase::Terminated);
}

#[test]
fn escape_terminates_whatever_else_is_queued() {
    // The quit signal wins even with other events before and after it
    // in the same polled batch; those events still reach the view.
    let step = PIXEL_DELTA_START as i64 * 8;
    let mut rl = running_loop();
    rl.step_frame(
        &vec![
            Event::KeyPress(Key::D),
            Event::KeyPress(Key::Escape),
            Event::KeyPress(Key::W),
            Event::Other,
        ],
    );
    assert_eq!(rl.phase, Phase::Terminated);
    assert_eq!(rl.view.center_re, CENTER_RE_START + step);
    assert_eq!(rl.view.center_im, step);
}

#[test]
fn close_terminates_whatever_else_is_queued() {
    let mut rl = running_loop();
    rl.step_frame(&vec![Event::Other, Event::CloseRequested, Event::KeyPress(Key::Up)]);
    assert_eq!(rl.phase, Phase::Terminated);
    assert_eq!(rl.view.pixel_delta, 2_991_904_761);
}

#[test]
fn keys_reach_the_view_through_the_loop() {
    let mut rl = running_loop();
    rl.step_frame(&vec![Event::KeyPress(Key::Up), Event::KeyPress(Key::D)]);
    assert_eq!(rl.phase, Phase::Running);
    assert_eq!(rl.view.pixel_delta, 2_991_904_761);
    assert_eq!(rl.view.center_re, -476_064_761_912);
}

#[test]
fn resize_changes_nothing() {
    // The window is created non-resizable; a resize event is ignored.
    let mut rl = running_loop();
    let before = rl.view;
    rl.step_frame(&vec![Event::Resized(1024, 768), Event::Resized(1, 1)]);
    assert_eq!(rl.phase, Phase::Running);
    assert_eq!(rl.view, before);
}

#[test]
fn other_events_change_nothing() {
    let mut rl = running_loop();
    let before = rl.view;
    rl.step_frame(&vec![Event::Other, Event::Other]);
    assert_eq!(rl.phase, Phase::Running);
    assert_eq!(rl.view, before);
}
