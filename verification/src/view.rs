//! The view state of the visualizer and the key-press transitions on it.
//!
//! Coordinates of the complex plane are held on a fixed-point grid:
//! `SCALE` grid units make one complex-plane unit, so the default center
//! `(-0.5, 0.0)` is `(-SCALE / 2, 0)`. The zoom factor `1.05` is the exact
//! ratio `ZOOM_NUMER / ZOOM_DENOM = 21 / 20`; zooming divides or multiplies
//! the per-pixel distance by it with the grid's flooring division.

use vstd::prelude::*;

verus! {

/// Grid units per complex-plane unit.
pub const SCALE: i64 = 1_000_000_000_000;

/// Width of the window, in pixels.
pub const SCREEN_WIDTH: u64 = 800;

/// Height of the window, in pixels.
pub const SCREEN_HEIGHT: u64 = 800;

/// Iteration cap handed to the fragment shader; never mutated at runtime.
pub const MAX_ITERATIONS: u32 = 1000;

/// Numerator of the zoom factor 21/20 = 1.05.
pub const ZOOM_NUMER: u64 = 21;

/// Denominator of the zoom factor 21/20 = 1.05.
pub const ZOOM_DENOM: u64 = 20;

/// Real part of the starting center point: -0.5 on the grid.
pub const CENTER_RE_START: i64 = -500_000_000_000;

/// Imaginary part of the starting center point: 0.0 on the grid.
pub const CENTER_IM_START: i64 = 0;

/// Starting complex-plane distance between two adjacent pixels:
/// 0.0031415 on the grid.
pub const PIXEL_DELTA_START: u64 = 3_141_500_000;

/// Smallest representable pixel delta; zooming in clamps here so the
/// delta stays strictly positive.
pub const PIXEL_DELTA_MIN: u64 = 1;

/// Largest pixel delta (4000 complex-plane units per pixel); zooming out
/// clamps here so the arithmetic below stays within the machine words.
pub const PIXEL_DELTA_MAX: u64 = 4_000_000_000_000_000;

/// Largest center coordinate magnitude; panning clamps here.
pub const CENTER_MAX: i64 = 1_000_000_000_000_000_000;

/// Largest supported screen dimension, in pixels.
pub const DIM_MAX: u64 = 100_000;

/// Largest possible pan step: `PIXEL_DELTA_MAX * (DIM_MAX / 100)`.
pub const PAN_STEP_MAX: i64 = 4_000_000_000_000_000_000;

/// A keyboard key the viewer reacts to. Every other key is `Other`.
#[derive(Clone, Copy, PartialEq, Eq, Structural, Debug)]
pub enum Key {
    W,
    A,
    S,
    D,
    Up,
    Down,
    Escape,
    Other,
}

/// The mutable state read by the shader each frame.
#[derive(Clone, Copy, PartialEq, Eq, Structural, Debug)]
pub struct ViewState {
    /// Screen width in pixels; fixed at creation.
    pub width: u64,
    /// Screen height in pixels; fixed at creation.
    pub height: u64,
    /// Iteration cap for the escape-time computation; fixed at creation.
    pub max_iterations: u32,
    /// Complex-plane distance between adjacent pixels, in grid units.
    pub pixel_delta: u64,
    /// Real part of the center point, in grid units.
    pub center_re: i64,
    /// Imaginary part of the center point, in grid units.
    pub center_im: i64,
}

/// The mathematical shadow of a `ViewState`: the same fields as
/// unbounded integers.
pub ghost struct ViewModel {
    pub width: int,
    pub height: int,
    pub max_iterations: int,
    pub pixel_delta: int,
    pub center_re: int,
    pub center_im: int,
}

impl View for ViewState {
    type V = ViewModel;

    open spec fn view(&self) -> ViewModel {
        ViewModel {
            width: self.width as int,
            height: self.height as int,
            max_iterations: self.max_iterations as int,
            pixel_delta: self.pixel_delta as int,
            center_re: self.center_re as int,
            center_im: self.center_im as int,
        }
    }
}

impl ViewModel {
    /// Well-formedness: the delta is strictly positive and everything is
    /// within the ranges the fixed-point arithmetic needs.
    pub open spec fn wf(self) -> bool {
        &&& 0 < self.pixel_delta <= PIXEL_DELTA_MAX as int
        &&& 0 <= self.width <= DIM_MAX as int
        &&& 0 <= self.height <= DIM_MAX as int
        &&& -(CENTER_MAX as int) <= self.center_re <= CENTER_MAX as int
        &&& -(CENTER_MAX as int) <= self.center_im <= CENTER_MAX as int
    }
}

/// The shorter of the two screen dimensions.
pub open spec fn shortest_dim(v: ViewModel) -> int {
    if v.width < v.height {
        v.width
    } else {
        v.height
    }
}

/// How far one pan key press moves the center, in grid units:
/// the pixel delta times a hundredth of the shorter screen dimension,
/// so the apparent pan speed is independent of the zoom level.
pub open spec fn pan_step(v: ViewModel) -> int {
    v.pixel_delta * (shortest_dim(v) / 100)
}

/// Clamp a center coordinate into the representable range.
pub open spec fn clamp_center(x: int) -> int {
    if x > CENTER_MAX as int {
        CENTER_MAX as int
    } else if x < -(CENTER_MAX as int) {
        -(CENTER_MAX as int)
    } else {
        x
    }
}

/// One zoom-in press: divide the pixel delta by 21/20 on the grid,
/// never below `PIXEL_DELTA_MIN`.
pub open spec fn zoom_in_delta(d: int) -> int {
    let z = d * (ZOOM_DENOM as int) / (ZOOM_NUMER as int);
    if z < PIXEL_DELTA_MIN as int {
        PIXEL_DELTA_MIN as int
    } else {
        z
    }
}

/// One zoom-out press: multiply the pixel delta by 21/20 on the grid,
/// never above `PIXEL_DELTA_MAX`.
pub open spec fn zoom_out_delta(d: int) -> int {
    let z = d * (ZOOM_NUMER as int) / (ZOOM_DENOM as int);
    if z > PIXEL_DELTA_MAX as int {
        PIXEL_DELTA_MAX as int
    } else {
        z
    }
}

/// What one key press does to the view.
pub open spec fn key_step(v: ViewModel, key: Key) -> ViewModel {
    match key {
        Key::A => ViewModel { center_re: clamp_center(v.center_re - pan_step(v)), ..v },
        Key::D => ViewModel { center_re: clamp_center(v.center_re + pan_step(v)), ..v },
        Key::W => ViewModel { center_im: clamp_center(v.center_im + pan_step(v)), ..v },
        Key::S => ViewModel { center_im: clamp_center(v.center_im - pan_step(v)), ..v },
        Key::Up => ViewModel { pixel_delta: zoom_in_delta(v.pixel_delta), ..v },
        Key::Down => ViewModel { pixel_delta: zoom_out_delta(v.pixel_delta), ..v },
        Key::Escape => v,
        Key::Other => v,
    }
}

/// The model of the state the visualizer starts in, for a window of the
/// given size.
pub open spec fn initial_view(width: int, height: int) -> ViewModel {
    ViewModel {
        width: width,
        height: height,
        max_iterations: MAX_ITERATIONS as int,
        pixel_delta: PIXEL_DELTA_START as int,
        center_re: CENTER_RE_START as int,
        center_im: CENTER_IM_START as int,
    }
}

impl ViewState {
    /// The state the visualizer starts in, for a window of the given size.
    pub fn new(width: u64, height: u64) -> (v: ViewState)
        requires
            width <= DIM_MAX,
            height <= DIM_MAX,
        ensures
            v@ == initial_view(width as int, height as int),
            v@.wf(),
    {
        ViewState {
            width,
            height,
            max_iterations: MAX_ITERATIONS,
            pixel_delta: PIXEL_DELTA_START,
            center_re: CENTER_RE_START,
            center_im: CENTER_IM_START,
        }
    }
}

/// Add a pan translation to a center coordinate, clamping into the
/// representable range.
fn clamp_add(c: i64, t: i64) -> (r: i64)
    requires
        -(CENTER_MAX as int) <= c <= CENTER_MAX as int,
        -(PAN_STEP_MAX as int) <= t <= PAN_STEP_MAX as int,
    ensures
        r == clamp_center(c + t),
{
    let s: i64 = c + t;
    if s > CENTER_MAX {
        CENTER_MAX
    } else if s < -CENTER_MAX {
        -CENTER_MAX
    } else {
        s
    }
}

/// Divide the pixel delta by the zoom factor, on the grid.
fn zoom_in(d: u64) -> (r: u64)
    requires
        0 < d <= PIXEL_DELTA_MAX,
    ensures
        r == zoom_in_delta(d as int),
        0 < r <= PIXEL_DELTA_MAX,
{
    let z: u64 = d * ZOOM_DENOM / ZOOM_NUMER;
    proof {
        assert(d * 20 <= PIXEL_DELTA_MAX * 20) by (nonlinear_arith)
            requires
                d <= PIXEL_DELTA_MAX,
        ;
        assert(d * 20 / 21 <= d) by (nonlinear_arith)
            requires
                0 < d,
        ;
    }
    if z < PIXEL_DELTA_MIN {
        PIXEL_DELTA_MIN
    } else {
        z
    }
}

/// Multiply the pixel delta by the zoom factor, on the grid.
fn zoom_out(d: u64) -> (r: u64)
    requires
        0 < d <= PIXEL_DELTA_MAX,
    ensures
        r == zoom_out_delta(d as int),
        0 < r <= PIXEL_DELTA_MAX,
{
    let z: u64 = d * ZOOM_NUMER / ZOOM_DENOM;
    proof {
        assert(d * 21 <= PIXEL_DELTA_MAX * 21) by (nonlinear_arith)
            requires
                d <= PIXEL_DELTA_MAX,
        ;
        assert(d <= d * 21 / 20) by (nonlinear_arith)
            requires
                0 < d,
        ;
    }
    if z > PIXEL_DELTA_MAX {
        PIXEL_DELTA_MAX
    } else {
        z
    }
}

/// React to one key press: pan with W/A/S/D, zoom with Up/Down,
/// ignore everything else.
pub fn handle_input(key_code: Key, locals: &mut ViewState)
    requires
        old(locals)@.wf(),
    ensures
        final(locals)@ == key_step(old(locals)@, key_code),
        final(locals)@.wf(),
{
    let shortest_dim: u64 = if locals.width < locals.height {
        locals.width
    } else {
        locals.height
    };

    let factor: u64 = shortest_dim / 100;
    proof {
        assert(locals.pixel_delta * factor <= PIXEL_DELTA_MAX * 1000) by (nonlinear_arith)
            requires
                locals.pixel_delta <= PIXEL_DELTA_MAX,
                factor <= 1000,
        ;
        assert(locals.pixel_delta * factor == pan_step(locals@));
    }
    let step_wide: u64 = locals.pixel_delta * factor;
    let step: i64 = step_wide as i64;
    let mut transform_re: i64 = 0;
    let mut transform_im: i64 = 0;

    if key_code == Key::A {
        transform_re = transform_re - step;
    }
    if key_code == Key::D {
        transform_re = transform_re + step;
    }
    if key_code == Key::W {
        transform_im = transform_im + step;
    }
    if key_code == Key::S {
        transform_im = transform_im - step;
    }

    if key_code == Key::Up {
        locals.pixel_delta = zoom_in(locals.pixel_delta);
    }
    if key_code == Key::Down {
        locals.pixel_delta = zoom_out(locals.pixel_delta);
    }

    locals.center_re = clamp_add(locals.center_re, transform_re);
    locals.center_im = clamp_add(locals.center_im, transform_im);
}

} // verus!
