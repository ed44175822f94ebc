//! The laws the key-press transitions obey: pan presses are additive and
//! order-independent, the pan step scales linearly with the zoom level,
//! zoom presses iterate the zoom maps and nearly invert each other, and
//! resize events change nothing.

use vstd::prelude::*;

use vstd::arithmetic::div_mod::lemma_div_pos_is_pos;
use vstd::arithmetic::div_mod::lemma_fundamental_div_mod;
use vstd::arithmetic::div_mod::lemma_mod_bound;
use vstd::arithmetic::mul::lemma_mul_inequality;
use vstd::arithmetic::mul::lemma_mul_nonnegative;
use vstd::arithmetic::power::lemma_pow_positive;
use vstd::arithmetic::power::pow;

use crate::frame::batch_step;
use crate::frame::event_step;
use crate::frame::Event;
use crate::view::clamp_center;
use crate::view::key_step;
use crate::view::pan_step;
use crate::view::shortest_dim;
use crate::view::zoom_in_delta;
use crate::view::zoom_out_delta;
use crate::view::Key;
use crate::view::ViewModel;
use crate::view::CENTER_MAX;
use crate::view::PIXEL_DELTA_MAX;

verus! {

/// Is this one of the four pan keys?
pub open spec fn is_pan_key(k: Key) -> bool {
    k == Key::A || k == Key::D || k == Key::W || k == Key::S
}

/// What a sequence of key presses does to the view, first press first.
pub open spec fn keys_step(v: ViewModel, keys: Seq<Key>) -> ViewModel
    decreases keys.len(),
{
    if keys.len() == 0 {
        v
    } else {
        keys_step(key_step(v, keys[0]), keys.drop_first())
    }
}

/// How often a key occurs in a sequence of presses.
pub open spec fn count_key(keys: Seq<Key>, k: Key) -> int
    decreases keys.len(),
{
    if keys.len() == 0 {
        0
    } else {
        (if keys[0] == k {
            1int
        } else {
            0int
        }) + count_key(keys.drop_first(), k)
    }
}

/// The pan step is never negative.
pub proof fn lemma_pan_step_nonneg(v: ViewModel)
    requires
        0 <= v.pixel_delta,
        0 <= v.width,
        0 <= v.height,
    ensures
        0 <= pan_step(v),
{
    lemma_div_pos_is_pos(shortest_dim(v), 100);
    lemma_mul_nonnegative(v.pixel_delta, shortest_dim(v) / 100);
}

/// The pan step scales linearly with the pixel delta: scaling the delta
/// by any factor scales the per-press pan distance by the same factor.
/// In particular, doubling the delta doubles the pan distance.
pub proof fn lemma_pan_step_linear(v: ViewModel, c: int)
    ensures
        pan_step(ViewModel { pixel_delta: c * v.pixel_delta, ..v }) == c * pan_step(v),
{
    let q = shortest_dim(v) / 100;
    assert((c * v.pixel_delta) * q == c * (v.pixel_delta * q)) by (nonlinear_arith);
}

/// A resize event leaves the view untouched: the window is created
/// non-resizable, and the loop does not react to resizes.
pub proof fn lemma_resize_ignored(v: ViewModel, width: u64, height: u64)
    ensures
        event_step(v, Event::Resized(width, height)) == v,
{
}

/// A batch made only of key presses acts on the view exactly as the
/// sequence of the pressed keys does.
pub proof fn lemma_key_batch(v: ViewModel, keys: Seq<Key>)
    ensures
        batch_step(v, keys.map_values(|k: Key| Event::KeyPress(k))) == keys_step(v, keys),
    decreases keys.len(),
{
    let events = keys.map_values(|k: Key| Event::KeyPress(k));
    if keys.len() == 0 {
    } else {
        assert(events[0] == Event::KeyPress(keys[0]));
        assert(events.drop_first() =~= keys.drop_first().map_values(
            |k: Key| Event::KeyPress(k),
        ));
        lemma_key_batch(key_step(v, keys[0]), keys.drop_first());
    }
}

/// Pan presses are additive: as long as the center stays clear of the
/// clamping range, a batch of pan presses moves the center by the pan
/// step times the net key counts — the initial center plus the sum of
/// the per-key deltas, whatever the order of the presses — and leaves
/// the zoom level and the screen untouched.
pub proof fn lemma_pan_batch_additive(v: ViewModel, keys: Seq<Key>)
    requires
        v.wf(),
        forall|i: int| 0 <= i < keys.len() ==> is_pan_key(#[trigger] keys[i]),
        -(CENTER_MAX as int) <= v.center_re - keys.len() * pan_step(v),
        v.center_re + keys.len() * pan_step(v) <= CENTER_MAX as int,
        -(CENTER_MAX as int) <= v.center_im - keys.len() * pan_step(v),
        v.center_im + keys.len() * pan_step(v) <= CENTER_MAX as int,
    ensures
        keys_step(v, keys) == (ViewModel {
            center_re: v.center_re + pan_step(v) * (count_key(keys, Key::D) - count_key(
                keys,
                Key::A,
            )),
            center_im: v.center_im + pan_step(v) * (count_key(keys, Key::W) - count_key(
                keys,
                Key::S,
            )),
            ..v
        }),
    decreases keys.len(),
{
    let step = pan_step(v);
    lemma_pan_step_nonneg(v);
    if keys.len() == 0 {
        let cre = count_key(keys, Key::D) - count_key(keys, Key::A);
        let cim = count_key(keys, Key::W) - count_key(keys, Key::S);
        assert(cre == 0 && cim == 0);
        assert(step * cre == 0 && step * cim == 0) by (nonlinear_arith)
            requires
                cre == 0,
                cim == 0,
        ;
    } else {
        let k0 = keys[0];
        let rest = keys.drop_first();
        let v1 = key_step(v, k0);
        let len = keys.len() as int;
        assert(is_pan_key(k0));
        lemma_mul_inequality(1, len, step);
        assert((len - 1) * step + step == len * step) by (nonlinear_arith);
        assert(v1.pixel_delta == v.pixel_delta && v1.width == v.width && v1.height == v.height
            && v1.max_iterations == v.max_iterations);
        assert(pan_step(v1) == step);
        assert(v.center_re - step == clamp_center(v.center_re - step));
        assert(v.center_re + step == clamp_center(v.center_re + step));
        assert(v.center_im - step == clamp_center(v.center_im - step));
        assert(v.center_im + step == clamp_center(v.center_im + step));
        assert(v1.wf());
        assert(forall|i: int|
            0 <= i < rest.len() ==> is_pan_key(#[trigger] rest[i]) && rest[i] == keys[i + 1]);
        lemma_pan_batch_additive(v1, rest);
        let nre = count_key(rest, Key::D) - count_key(rest, Key::A);
        let nim = count_key(rest, Key::W) - count_key(rest, Key::S);
        assert(step * (nre + 1) == step * nre + step) by (nonlinear_arith);
        assert(step * (nre - 1) == step * nre - step) by (nonlinear_arith);
        assert(step * (nim + 1) == step * nim + step) by (nonlinear_arith);
        assert(step * (nim - 1) == step * nim - step) by (nonlinear_arith);
        assert(keys_step(v, keys) == keys_step(v1, rest));
        if k0 == Key::A {
            assert(v1.center_re == v.center_re - step);
            assert(count_key(keys, Key::D) - count_key(keys, Key::A) == nre - 1);
            assert(keys_step(v1, rest).center_re == v.center_re - step + step * nre);
        } else if k0 == Key::D {
            assert(v1.center_re == v.center_re + step);
            assert(count_key(keys, Key::D) - count_key(keys, Key::A) == nre + 1);
            assert(keys_step(v1, rest).center_re == v.center_re + step + step * nre);
        } else {
            assert(v1.center_re == v.center_re);
            assert(count_key(keys, Key::D) - count_key(keys, Key::A) == nre);
        }
    }
}

/// Two pan presses commute: within one polled batch, the order of two
/// pan keys does not matter, as long as the center stays clear of the
/// clamping range.
pub proof fn lemma_pan_commutes(v: ViewModel, k1: Key, k2: Key)
    requires
        v.wf(),
        is_pan_key(k1),
        is_pan_key(k2),
        -(CENTER_MAX as int) <= v.center_re - 2 * pan_step(v),
        v.center_re + 2 * pan_step(v) <= CENTER_MAX as int,
        -(CENTER_MAX as int) <= v.center_im - 2 * pan_step(v),
        v.center_im + 2 * pan_step(v) <= CENTER_MAX as int,
    ensures
        key_step(key_step(v, k1), k2) == key_step(key_step(v, k2), k1),
{
    reveal_with_fuel(keys_step, 4);
    reveal_with_fuel(count_key, 4);
    lemma_pan_batch_additive(v, seq![k1, k2]);
    lemma_pan_batch_additive(v, seq![k2, k1]);
    assert(seq![k1, k2].drop_first() =~= seq![k2]);
    assert(seq![k2, k1].drop_first() =~= seq![k1]);
    assert(seq![k2].drop_first() =~= Seq::<Key>::empty());
    assert(seq![k1].drop_first() =~= Seq::<Key>::empty());
    assert(keys_step(v, seq![k1, k2]) == key_step(key_step(v, k1), k2));
    assert(keys_step(v, seq![k2, k1]) == key_step(key_step(v, k2), k1));
    assert(count_key(seq![k1, k2], Key::D) == count_key(seq![k2, k1], Key::D));
    assert(count_key(seq![k1, k2], Key::A) == count_key(seq![k2, k1], Key::A));
    assert(count_key(seq![k1, k2], Key::W) == count_key(seq![k2, k1], Key::W));
    assert(count_key(seq![k1, k2], Key::S) == count_key(seq![k2, k1], Key::S));
}

/// The pixel delta after `n` zoom-in presses, as an iterated map.
pub open spec fn zoom_in_iter(d: int, n: nat) -> int
    decreases n,
{
    if n == 0 {
        d
    } else {
        zoom_in_delta(zoom_in_iter(d, (n - 1) as nat))
    }
}

/// The pixel delta after `n` zoom-out presses, as an iterated map.
pub open spec fn zoom_out_iter(d: int, n: nat) -> int
    decreases n,
{
    if n == 0 {
        d
    } else {
        zoom_out_delta(zoom_out_iter(d, (n - 1) as nat))
    }
}

/// Iterating after one zoom-in press is one press after iterating.
pub proof fn lemma_zoom_in_iter_shift(d: int, n: nat)
    ensures
        zoom_in_iter(zoom_in_delta(d), n) == zoom_in_delta(zoom_in_iter(d, n)),
    decreases n,
{
    if n > 0 {
        lemma_zoom_in_iter_shift(d, (n - 1) as nat);
    }
}

/// Iterating after one zoom-out press is one press after iterating.
pub proof fn lemma_zoom_out_iter_shift(d: int, n: nat)
    ensures
        zoom_out_iter(zoom_out_delta(d), n) == zoom_out_delta(zoom_out_iter(d, n)),
    decreases n,
{
    if n > 0 {
        lemma_zoom_out_iter_shift(d, (n - 1) as nat);
    }
}

/// A batch of `n` zoom-in presses sets the pixel delta to the zoom-in
/// map iterated `n` times on it, and moves nothing else.
pub proof fn lemma_zoom_in_batch(v: ViewModel, keys: Seq<Key>)
    requires
        forall|i: int| 0 <= i < keys.len() ==> #[trigger] keys[i] == Key::Up,
    ensures
        keys_step(v, keys) == (ViewModel {
            pixel_delta: zoom_in_iter(v.pixel_delta, keys.len()),
            ..v
        }),
    decreases keys.len(),
{
    if keys.len() > 0 {
        let v1 = key_step(v, keys[0]);
        let rest = keys.drop_first();
        assert(forall|i: int|
            0 <= i < rest.len() ==> #[trigger] rest[i] == keys[i + 1] && rest[i] == Key::Up);
        lemma_zoom_in_batch(v1, rest);
        lemma_zoom_in_iter_shift(v.pixel_delta, (keys.len() - 1) as nat);
    }
}

/// A batch of `n` zoom-out presses sets the pixel delta to the zoom-out
/// map iterated `n` times on it, and moves nothing else.
pub proof fn lemma_zoom_out_batch(v: ViewModel, keys: Seq<Key>)
    requires
        forall|i: int| 0 <= i < keys.len() ==> #[trigger] keys[i] == Key::Down,
    ensures
        keys_step(v, keys) == (ViewModel {
            pixel_delta: zoom_out_iter(v.pixel_delta, keys.len()),
            ..v
        }),
    decreases keys.len(),
{
    if keys.len() > 0 {
        let v1 = key_step(v, keys[0]);
        let rest = keys.drop_first();
        assert(forall|i: int|
            0 <= i < rest.len() ==> #[trigger] rest[i] == keys[i + 1] && rest[i] == Key::Down);
        lemma_zoom_out_batch(v1, rest);
        lemma_zoom_out_iter_shift(v.pixel_delta, (keys.len() - 1) as nat);
    }
}

/// Zooming out right after zooming in nearly restores the pixel delta:
/// the grid's flooring loses at most one grid unit. The two maps are
/// not exact inverses, so only this approximate bound holds.
pub proof fn lemma_zoom_round_trip(d: int)
    requires
        1 <= d <= PIXEL_DELTA_MAX as int,
    ensures
        d - 1 <= zoom_out_delta(zoom_in_delta(d)) <= d,
{
    lemma_fundamental_div_mod(d * 20, 21);
    lemma_mod_bound(d * 20, 21);
    let x = zoom_in_delta(d);
    if d == 1 {
        assert(zoom_out_delta(1) == 1);
    } else {
        assert(x == d * 20 / 21);
        lemma_fundamental_div_mod(x * 21, 20);
        lemma_mod_bound(x * 21, 20);
        assert(21 * x <= 20 * d && 20 * d - 20 <= 21 * x);
        let y = x * 21 / 20;
        assert(20 * y <= 21 * x && 21 * x - 19 <= 20 * y);
        assert(y <= d);
        assert(zoom_out_delta(x) == y);
        assert(d - 1 <= y);
    }
}

/// After `n` zoom-in presses the pixel delta is `d * 20^n / 21^n` up to
/// the grid's flooring: each press floors away less than one grid unit.
/// The bound asks that the delta stay above the lower clamp on the way;
/// at the clamp the delta stops shrinking and the bound has no content.
pub proof fn lemma_zoom_in_iter_pow_bounds(d: int, n: nat)
    requires
        1 <= d,
        forall|k: nat| k < n ==> #[trigger] zoom_in_iter(d, k) >= 2,
    ensures
        pow(21, n) * zoom_in_iter(d, n) <= pow(20, n) * d,
        pow(20, n) * d - n * pow(21, n) <= pow(21, n) * zoom_in_iter(d, n),
    decreases n,
{
    reveal(pow);
    if n == 0 {
    } else {
        let m = (n - 1) as nat;
        lemma_zoom_in_iter_pow_bounds(d, m);
        let x = zoom_in_iter(d, m);
        assert(x >= 2);
        let z = zoom_in_iter(d, n);
        lemma_fundamental_div_mod(x * 20, 21);
        lemma_mod_bound(x * 20, 21);
        assert(z == x * 20 / 21);
        assert(21 * z <= 20 * x && 20 * x - 20 <= 21 * z);
        let p20 = pow(20, m);
        let p21 = pow(21, m);
        lemma_pow_positive(20, m);
        lemma_pow_positive(21, m);
        assert(pow(20, n) == 20 * p20 && pow(21, n) == 21 * p21);
        assert(21 * p21 * z <= 20 * p20 * d && 20 * p20 * d - n * (21 * p21) <= 21 * p21 * z)
            by (nonlinear_arith)
            requires
                21 * z <= 20 * x,
                20 * x - 20 <= 21 * z,
                p21 * x <= p20 * d,
                p20 * d - m * p21 <= p21 * x,
                p20 > 0,
                p21 > 0,
                n == m + 1,
                m >= 0,
        ;
    }
}

/// After `n` zoom-out presses the pixel delta is `d * 21^n / 20^n` up
/// to the grid's flooring: each press floors away less than one grid
/// unit. The bound asks that the delta stay below the upper clamp on
/// the way; at the clamp the delta stops growing and the bound has no
/// content.
pub proof fn lemma_zoom_out_iter_pow_bounds(d: int, n: nat)
    requires
        1 <= d,
        forall|k: nat|
            k < n ==> #[trigger] zoom_out_iter(d, k) * 21 / 20 <= PIXEL_DELTA_MAX as int,
        forall|k: nat| k < n ==> #[trigger] zoom_out_iter(d, k) >= 1,
    ensures
        pow(20, n) * zoom_out_iter(d, n) <= pow(21, n) * d,
        pow(21, n) * d - n * pow(21, n) <= pow(20, n) * zoom_out_iter(d, n),
    decreases n,
{
    reveal(pow);
    if n == 0 {
    } else {
        let m = (n - 1) as nat;
        lemma_zoom_out_iter_pow_bounds(d, m);
        lemma_pow20_le_pow21(m);
        let x = zoom_out_iter(d, m);
        assert(x >= 1);
        let z = zoom_out_iter(d, n);
        lemma_fundamental_div_mod(x * 21, 20);
        lemma_mod_bound(x * 21, 20);
        assert(x * 21 / 20 <= PIXEL_DELTA_MAX as int);
        assert(z == x * 21 / 20);
        assert(20 * z <= 21 * x && 21 * x - 20 <= 20 * z);
        let p20 = pow(20, m);
        let p21 = pow(21, m);
        lemma_pow_positive(20, m);
        lemma_pow_positive(21, m);
        assert(pow(20, n) == 20 * p20 && pow(21, n) == 21 * p21);
        assert(20 * p20 * z <= 21 * p21 * d && 21 * p21 * d - n * (21 * p21) <= 20 * p20 * z)
            by (nonlinear_arith)
            requires
                20 * z <= 21 * x,
                21 * x - 20 <= 20 * z,
                p20 * x <= p21 * d,
                p21 * d - m * p21 <= p20 * x,
                0 < p20 <= p21,
                n == m + 1,
                m >= 0,
        ;
    }
}

/// Powers of 20 stay positive and below the same power of 21.
proof fn lemma_pow20_le_pow21(n: nat)
    ensures
        0 < pow(20, n) <= pow(21, n),
    decreases n,
{
    reveal(pow);
    if n > 0 {
        let m = (n - 1) as nat;
        lemma_pow20_le_pow21(m);
        assert(20 * pow(20, m) <= 21 * pow(21, m)) by (nonlinear_arith)
            requires
                0 < pow(20, m) <= pow(21, m),
        ;
    }
}

} // verus!
