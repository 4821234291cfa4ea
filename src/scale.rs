use vstd::prelude::*;
use vstd::arithmetic::div_mod::{lemma_fundamental_div_mod, lemma_fundamental_div_mod_converse};

verus! {

/// The integer downscale factor for one axis: 1 when the image already fits
/// (`max_size > cur_size`), otherwise `ceil(cur_size / max_size)`.
pub open spec fn scale_factor(max_size: nat, cur_size: nat) -> nat
    recommends
        max_size > 0,
{
    if max_size > cur_size {
        1
    } else {
        ((cur_size + max_size - 1) as int / max_size as int) as nat
    }
}

/// `ceil(c / m)` is `c / m`, plus one when the division leaves a remainder.
proof fn lemma_ceil_div(c: nat, m: nat)
    requires
        m > 0,
    ensures
        (c + m - 1) as int / m as int == c as int / m as int + if c as int % m as int == 0 {
            0int
        } else {
            1int
        },
{
    let q = c as int / m as int;
    let r = c as int % m as int;
    lemma_fundamental_div_mod(c as int, m as int);
    assert(c as int == q * m + r) by (nonlinear_arith)
        requires
            c as int == m * q + r,
    ;
    if r == 0 {
        assert((c + m - 1) as int == q * m + (m - 1));
        lemma_fundamental_div_mod_converse((c + m - 1) as int, m as int, q, m - 1);
    } else {
        assert((c + m - 1) as int == (q + 1) * m + (r - 1)) by (nonlinear_arith)
            requires
                c as int == q * m + r,
        ;
        lemma_fundamental_div_mod_converse((c + m - 1) as int, m as int, q + 1, r - 1);
    }
}

/// The factor is the least one that is enough: `cur_size` fits into `f * max_size`,
/// and, where `f > 1`, not into `(f - 1) * max_size`.
pub proof fn lemma_scale_factor_minimal(max_size: nat, cur_size: nat)
    requires
        max_size > 0,
    ensures
        scale_factor(max_size, cur_size) >= 1,
        cur_size <= scale_factor(max_size, cur_size) * max_size,
        scale_factor(max_size, cur_size) > 1 ==> cur_size > (scale_factor(max_size, cur_size) - 1)
            * max_size,
        cur_size / scale_factor(max_size, cur_size) <= max_size,
{
    let f = scale_factor(max_size, cur_size);
    if max_size <= cur_size {
        let c = cur_size as int;
        let m = max_size as int;
        let q = c / m;
        let r = c % m;
        lemma_ceil_div(cur_size, max_size);
        lemma_fundamental_div_mod(c, m);
        assert(q >= 1) by (nonlinear_arith)
            requires
                c == m * q + r,
                0 <= r < m,
                c >= m,
        ;
        assert(c <= f * m && (f > 1 ==> c > (f - 1) * m)) by (nonlinear_arith)
            requires
                c == m * q + r,
                0 <= r < m,
                f == q + if r == 0 {
                    0int
                } else {
                    1int
                },
        ;
    }
    assert(cur_size / f <= max_size) by (nonlinear_arith)
        requires
            f >= 1,
            cur_size <= f * max_size,
    ;
}

/// Integer downscale factor for one axis: how many times `cur_size` has to be divided
/// so that it fits into `max_size`.
pub fn calc_scale(max_size: u32, cur_size: u32) -> (r: u32)
    requires
        max_size > 0,
    ensures
        r as nat == scale_factor(max_size as nat, cur_size as nat),
        r >= 1,
        max_size > cur_size ==> r == 1,
        cur_size <= r * max_size,
        r > 1 ==> cur_size > (r - 1) * max_size,
        cur_size / r <= max_size,
{
    proof {
        lemma_scale_factor_minimal(max_size as nat, cur_size as nat);
        lemma_ceil_div(cur_size as nat, max_size as nat);
    }
    if max_size > cur_size {
        1
    } else {
        let q: u32 = cur_size / max_size;
        if cur_size % max_size == 0 {
            q
        } else {
            assert(q < u32::MAX) by (nonlinear_arith)
                requires
                    q == cur_size / max_size,
                    cur_size % max_size != 0,
                    max_size > 0,
            ;
            q + 1
        }
    }
}

/// Share of the screen, in percent, that a newly opened window may take along each axis.
pub const SCREEN_PERCENT: u32 = 90;

/// Width and height, in physical pixels.
#[derive(Clone, Copy, Debug, PartialEq, Eq, Structural)]
pub struct PixelSize {
    pub width: u32,
    pub height: u32,
}

/// The usable part of a screen dimension: `SCREEN_PERCENT` percent of it, rounded down.
pub open spec fn capacity_of(screen_size: nat) -> nat {
    screen_size * SCREEN_PERCENT as nat / 100
}

/// The overall downscale factor: the larger of the two per-axis factors.
pub open spec fn overall_factor(max: PixelSize, image: PixelSize) -> nat
    recommends
        max.width > 0,
        max.height > 0,
{
    let h = scale_factor(max.width as nat, image.width as nat);
    let v = scale_factor(max.height as nat, image.height as nat);
    if h >= v {
        h
    } else {
        v
    }
}

/// Part of one screen dimension that a window may take (`SCREEN_PERCENT` percent).
pub fn screen_capacity(screen_size: u32) -> (r: u32)
    ensures
        r as nat == capacity_of(screen_size as nat),
        r <= screen_size,
{
    let wide: u64 = screen_size as u64 * SCREEN_PERCENT as u64 / 100;
    assert(wide <= screen_size) by (nonlinear_arith)
        requires
            wide == screen_size as u64 * 90 / 100,
    ;
    wide as u32
}

/// Downscale factor that makes an image of size `image` fit into `max` along both axes.
pub fn overall_scale(max: PixelSize, image: PixelSize) -> (r: u32)
    requires
        max.width > 0,
        max.height > 0,
    ensures
        r as nat == overall_factor(max, image),
        r >= 1,
        image.width / r <= max.width,
        image.height / r <= max.height,
{
    let horz_scale = calc_scale(max.width, image.width);
    let vert_scale = calc_scale(max.height, image.height);
    let scale = if horz_scale >= vert_scale {
        horz_scale
    } else {
        vert_scale
    };
    assert(image.width / scale <= max.width) by (nonlinear_arith)
        requires
            scale >= horz_scale,
            horz_scale >= 1,
            image.width / horz_scale <= max.width,
    ;
    assert(image.height / scale <= max.height) by (nonlinear_arith)
        requires
            scale >= vert_scale,
            vert_scale >= 1,
            image.height / vert_scale <= max.height,
    ;
    scale
}

/// Inner size of a window that shows an image of size `image` on a screen of size `screen`:
/// each side of the image divided by the overall factor, computed against the screen's
/// usable part. `None` when the usable part is empty along an axis.
pub fn fit_to_screen(screen: PixelSize, image: PixelSize) -> (r: Option<PixelSize>)
    ensures
        r is None <==> capacity_of(screen.width as nat) == 0 || capacity_of(screen.height as nat)
            == 0,
        r matches Some(w) ==> {
            let max = (PixelSize {
                width: capacity_of(screen.width as nat) as u32,
                height: capacity_of(screen.height as nat) as u32,
            });
            &&& w.width as nat == image.width as nat / overall_factor(max, image)
            &&& w.height as nat == image.height as nat / overall_factor(max, image)
            &&& w.width <= max.width
            &&& w.height <= max.height
        },
{
    let max = PixelSize {
        width: screen_capacity(screen.width),
        height: screen_capacity(screen.height),
    };
    if max.width == 0 || max.height == 0 {
        return None;
    }
    let scale = overall_scale(max, image);
    Some(PixelSize { width: image.width / scale, height: image.height / scale })
}

} // verus!
