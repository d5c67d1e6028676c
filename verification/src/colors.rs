//! The color sequencer: one visually distinct color per item index.
//!
//! A hue is a 32-bit fraction of a turn (`h / 2^32` turns). The sequence
//! starts at a caller-supplied hue and advances by the fractional part of the
//! golden ratio each step, which spreads hues evenly for any item count.
//! Each hue becomes an RGB color by the standard six-sector HSV conversion
//! with saturation and value both fixed at one half; every step of that
//! conversion is exact integer arithmetic.

use vstd::prelude::*;

verus! {

/// The fractional part of the golden ratio, as a 32-bit fraction of a turn:
/// `floor(0.618033988749895 * 2^32)`.
pub const GOLDEN_RATIO_CONJUGATE: u32 = 2654435769;

/// One turn, in the 32-bit fixed-point hue scale.
pub const HUE_TURN: u64 = 0x1_0000_0000;

/// The hue of item `i` when the sequence starts at `seed`: the seed advanced
/// `i` times by the golden-ratio step, modulo one turn.
pub open spec fn spec_hue_at(seed: u32, i: nat) -> int
    decreases i,
{
    if i == 0 {
        seed as int
    } else {
        (spec_hue_at(seed, (i - 1) as nat) + GOLDEN_RATIO_CONJUGATE) % (HUE_TURN as int)
    }
}

/// HSV to RGB at saturation and value one half, as a packed `0xrrggbb`
/// integer. `h` is a 32-bit fraction of a turn. The sector is
/// `floor(6h)`, `f` the fractional remainder of `6h`; the three derived
/// channels are `v = 128`, `p = 64`, `t = floor(64 + 64 f)` and
/// `q = floor(128 - 64 f)`, each already scaled to the 8-bit range.
pub open spec fn spec_hsv_rgb(h: int) -> int {
    let six = 6 * h;
    let sector = six / (HUE_TURN as int);
    let f = six % (HUE_TURN as int);
    let v: int = 128;
    let p: int = 64;
    let t = (0x40_0000_0000 + 64 * f) / (HUE_TURN as int);
    let q = (0x80_0000_0000 - 64 * f) / (HUE_TURN as int);
    if sector == 0 {
        v * 0x10000 + t * 0x100 + p
    } else if sector == 1 {
        q * 0x10000 + v * 0x100 + p
    } else if sector == 2 {
        p * 0x10000 + v * 0x100 + t
    } else if sector == 3 {
        p * 0x10000 + q * 0x100 + v
    } else if sector == 4 {
        t * 0x10000 + p * 0x100 + v
    } else {
        v * 0x10000 + p * 0x100 + q
    }
}

/// The packed color of item `i` for a sequence started at `seed`.
pub open spec fn spec_color_at(seed: u32, i: nat) -> int {
    spec_hsv_rgb(spec_hue_at(seed, i))
}

/// Relies on `rand::random`: a sample of the thread-local generator.
/// Nothing is assumed about which value comes back.
#[verifier::external_body]
pub(crate) fn fresh_hue_seed() -> u32 {
    rand::random::<u32>()
}

/// The next hue of the sequence: `h` advanced by the golden-ratio step,
/// modulo one turn.
pub fn advance_hue(h: u32) -> (r: u32)
    ensures
        r as int == (h as int + GOLDEN_RATIO_CONJUGATE) % (HUE_TURN as int),
{
    ((h as u64 + GOLDEN_RATIO_CONJUGATE as u64) % HUE_TURN) as u32
}

/// The six-sector HSV conversion at saturation and value one half, packed as
/// `0xrrggbb`. Every channel lies in the mid-tone range `64 ..= 128`, so no
/// channel can leave the 8-bit range.
pub fn hsv_to_rgb(h: u32) -> (rgb: u32)
    ensures
        rgb as int == spec_hsv_rgb(h as int),
        rgb < 0x1000000,
        rgb / 0x10000 <= 128,
        rgb / 0x100 % 0x100 <= 128,
        rgb % 0x100 <= 128,
{
    let six: u64 = 6 * (h as u64);
    let sector: u64 = six / HUE_TURN;
    let f: u64 = six % HUE_TURN;
    let v: u64 = 128;
    let p: u64 = 64;
    let t: u64 = (0x40_0000_0000 + 64 * f) / HUE_TURN;
    let q: u64 = (0x80_0000_0000 - 64 * f) / HUE_TURN;
    assert(t <= 128);
    assert(q <= 128);
    let packed: u64 = if sector == 0 {
        v * 0x10000 + t * 0x100 + p
    } else if sector == 1 {
        q * 0x10000 + v * 0x100 + p
    } else if sector == 2 {
        p * 0x10000 + v * 0x100 + t
    } else if sector == 3 {
        p * 0x10000 + q * 0x100 + v
    } else if sector == 4 {
        t * 0x10000 + p * 0x100 + v
    } else {
        v * 0x10000 + p * 0x100 + q
    };
    packed as u32
}

/// Successive hues are always one golden-ratio step apart on the hue circle,
/// whatever the starting seed: the gap from the hue of item `i` to the hue of
/// item `i + 1`, measured around the circle, is exactly the step constant.
pub proof fn lemma_hue_spacing(seed: u32, i: nat)
    ensures
        (spec_hue_at(seed, i + 1) - spec_hue_at(seed, i)) % (HUE_TURN as int)
            == GOLDEN_RATIO_CONJUGATE as int,
{
    let m = HUE_TURN as int;
    let h = spec_hue_at(seed, i);
    let g = GOLDEN_RATIO_CONJUGATE as int;
    assert(0 <= h < m) by {
        lemma_hue_in_range(seed, i);
    }
    assert(spec_hue_at(seed, i + 1) == (h + g) % m);
    if h + g < m {
        assert((h + g) % m == h + g);
        assert((h + g - h) % m == g);
    } else {
        assert((h + g) % m == h + g - m);
        assert((h + g - m - h) % m == g);
    }
}

/// Every hue of the sequence lies on the circle: in `[0, 2^32)`.
pub proof fn lemma_hue_in_range(seed: u32, i: nat)
    ensures
        0 <= spec_hue_at(seed, i) < HUE_TURN as int,
    decreases i,
{
    if i > 0 {
        lemma_hue_in_range(seed, (i - 1) as nat);
    }
}

} // verus!
