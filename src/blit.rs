use vstd::prelude::*;

verus! {

/// Value of the fourth slot of every output pixel: fully opaque.
pub const OPAQUE: u8 = 0xff;

/// Copies tightly packed three-sample pixels from `src` into the four-slot pixels of
/// `dst`: the first three slots of each output pixel take the samples of the
/// corresponding input pixel, and the fourth is set to `OPAQUE`.
pub fn blit_rgb_to_rgba(src: &[u8], dst: &mut [u8])
    requires
        src@.len() % 3 == 0,
        old(dst)@.len() % 4 == 0,
        src@.len() / 3 == old(dst)@.len() / 4,
    ensures
        final(dst)@.len() == old(dst)@.len(),
        forall|p: int, k: int|
            0 <= p < src@.len() / 3 && 0 <= k < 3 ==> #[trigger] final(dst)@[4 * p + k] == src@[3
                * p + k],
        forall|p: int| 0 <= p < src@.len() / 3 ==> #[trigger] final(dst)@[4 * p + 3] == OPAQUE,
{
    let n: usize = src.len() / 3;
    let mut p: usize = 0;
    let mut i3: usize = 0;
    let mut i4: usize = 0;
    while p < n
        invariant
            n == src@.len() / 3,
            src@.len() == 3 * n,
            dst@.len() == 4 * n,
            p <= n,
            i3 == 3 * p,
            i4 == 4 * p,
            forall|q: int, k: int|
                0 <= q < p && 0 <= k < 3 ==> #[trigger] dst@[4 * q + k] == src@[3 * q + k],
            forall|q: int| 0 <= q < p ==> #[trigger] dst@[4 * q + 3] == OPAQUE,
        decreases n - p,
    {
        dst[i4] = src[i3];
        dst[i4 + 1] = src[i3 + 1];
        dst[i4 + 2] = src[i3 + 2];
        dst[i4 + 3] = OPAQUE;
        i3 = i3 + 3;
        i4 = i4 + 4;
        p = p + 1;
    }
}

} // verus!
