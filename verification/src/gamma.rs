//! The linear intensity of each 8-bit channel value, as a table that is held
//! to the transfer curve, and the way back from an intensity to a channel.

use crate::curve::{
    fifth_power,
    is_linear_intensity,
    lemma_curve_11_to_45,
    lemma_curve_46_to_80,
    lemma_curve_81_to_115,
    lemma_curve_116_to_150,
    lemma_curve_151_to_185,
    lemma_curve_186_to_220,
    lemma_curve_221_to_255,
    lemma_fifth_power_increases,
    twelfth_power,
};
use vstd::prelude::*;

verus! {

/// The linear intensity 1.0, in millionths.
pub const LINEAR_ONE: u32 = 1_000_000;

/// The linear intensity of each channel value, in millionths.
pub const LINEAR_INTENSITY: [u32; 256] = [
    0, 303, 607, 910, 1214, 1517, 1821, 2124,
    2428, 2731, 3035, 3346, 3676, 4024, 4391, 4776,
    5181, 5605, 6048, 6512, 6995, 7499, 8023, 8568,
    9134, 9721, 10329, 10960, 11612, 12286, 12983, 13702,
    14443, 15208, 15996, 16807, 17641, 18500, 19382, 20288,
    21219, 22173, 23153, 24157, 25186, 26241, 27320, 28426,
    29556, 30713, 31896, 33104, 34339, 35601, 36889, 38204,
    39546, 40915, 42311, 43735, 45186, 46665, 48171, 49706,
    51269, 52860, 54480, 56128, 57805, 59511, 61246, 63010,
    64803, 66625, 68478, 70360, 72271, 74213, 76185, 78187,
    80219, 82282, 84376, 86500, 88655, 90841, 93058, 95307,
    97587, 99898, 102241, 104616, 107023, 109461, 111932, 114435,
    116970, 119538, 122138, 124771, 127437, 130136, 132868, 135633,
    138431, 141263, 144128, 147027, 149959, 152926, 155926, 158960,
    162029, 165132, 168269, 171441, 174647, 177888, 181164, 184474,
    187820, 191201, 194617, 198069, 201556, 205078, 208636, 212230,
    215860, 219526, 223227, 226965, 230740, 234550, 238397, 242281,
    246201, 250158, 254152, 258182, 262250, 266355, 270497, 274677,
    278894, 283148, 287440, 291770, 296138, 300543, 304987, 309468,
    313988, 318546, 323143, 327778, 332451, 337163, 341914, 346704,
    351532, 356400, 361306, 366252, 371237, 376262, 381326, 386429,
    391572, 396755, 401977, 407240, 412542, 417885, 423267, 428690,
    434153, 439657, 445201, 450785, 456411, 462076, 467783, 473531,
    479320, 485149, 491020, 496932, 502886, 508881, 514917, 520995,
    527115, 533276, 539479, 545724, 552011, 558340, 564711, 571124,
    577580, 584078, 590618, 597201, 603827, 610495, 617206, 623960,
    630757, 637596, 644479, 651405, 658374, 665387, 672443, 679542,
    686685, 693871, 701101, 708375, 715693, 723055, 730460, 737910,
    745404, 752942, 760524, 768151, 775822, 783537, 791297, 799102,
    806952, 814846, 822785, 830769, 838799, 846873, 854992, 863157,
    871367, 879622, 887923, 896269, 904661, 913098, 921581, 930110,
    938685, 947306, 955973, 964686, 973445, 982250, 991102, 1000000,
];

/// The linear intensity of channel value `c`, in millionths, rounded down:
/// the entry of the table.
pub closed spec fn linear_intensity(c: int) -> int {
    LINEAR_INTENSITY[c] as int
}

/// The linear intensity is the entry of the table.
pub proof fn lemma_linear_intensity_is_entry(c: int)
    ensures
        linear_intensity(c) == LINEAR_INTENSITY[c],
{
}

/// Every entry of the table is what the transfer curve gives, rounded down.
pub proof fn lemma_linear_intensity_exact(c: int)
    requires
        0 <= c <= 255,
    ensures
        is_linear_intensity(c, linear_intensity(c)),
{
    lemma_curve_11_to_45();
    lemma_curve_46_to_80();
    lemma_curve_81_to_115();
    lemma_curve_116_to_150();
    lemma_curve_151_to_185();
    lemma_curve_186_to_220();
    lemma_curve_221_to_255();
}

/// The transfer curve gives a channel value one intensity: that of the
/// table.
pub proof fn lemma_linear_intensity_unique(c: int, g: int)
    requires
        0 <= c <= 255,
        is_linear_intensity(c, g),
    ensures
        linear_intensity(c) == g,
{
    let h = linear_intensity(c);
    lemma_linear_intensity_exact(c);
    if c > 10 && h != g {
        let d = twelfth_power(10761);
        assert(d > 0) by (nonlinear_arith)
            requires
                d == twelfth_power(10761),
        ;
        let (lo, hi) = if h < g {
            (h, g)
        } else {
            (g, h)
        };
        if lo + 1 < hi {
            lemma_fifth_power_increases(lo + 1, hi);
        }
        assert(fifth_power(lo + 1) * d <= fifth_power(hi) * d) by (nonlinear_arith)
            requires
                fifth_power(lo + 1) <= fifth_power(hi),
                d > 0,
        ;
    }
}

/// Each entry of the table is greater than the one before.
proof fn lemma_next_intensity_greater(c: int)
    requires
        0 <= c < 255,
    ensures
        linear_intensity(c) < linear_intensity(c + 1),
{
}

/// The table runs from zero for 0 to one for 255.
pub proof fn lemma_linear_intensity_range(c: int)
    requires
        0 <= c <= 255,
    ensures
        0 <= linear_intensity(c) <= LINEAR_ONE,
        linear_intensity(c) == 0 <==> c == 0,
        linear_intensity(c) == LINEAR_ONE <==> c == 255,
{
}

/// The table grows with the channel value.
pub proof fn lemma_linear_intensity_increases(c: int, d: int)
    requires
        0 <= c < d <= 255,
    ensures
        linear_intensity(c) < linear_intensity(d),
    decreases d - c,
{
    lemma_next_intensity_greater(c);
    if c + 1 < d {
        lemma_linear_intensity_increases(c + 1, d);
    }
}

/// The linear intensity of a channel value, in millionths.
pub fn gamma_expand(c: u8) -> (g: u32)
    ensures
        g == linear_intensity(c as int),
        g <= LINEAR_ONE,
        g == 0 <==> c == 0,
{
    proof {
        lemma_linear_intensity_range(c as int);
    }
    LINEAR_INTENSITY[c as usize]
}

/// The highest channel value up to `c` whose linear intensity is at most `v`
/// millionths; 0 if there is none.
pub open spec fn highest_channel_within(v: int, c: int) -> int
    decreases c,
{
    if c <= 0 {
        0
    } else if linear_intensity(c) <= v {
        c
    } else {
        highest_channel_within(v, c - 1)
    }
}

/// The channel value of a linear intensity of `v` millionths: the highest
/// one whose own intensity does not exceed `v`. Intensities below zero give 0,
/// those above one give 255.
pub open spec fn compressed_channel(v: int) -> int {
    highest_channel_within(v, 255)
}

/// What singles out the highest channel within `v`: it is 0 or within `v`,
/// and every higher channel up to `c` is beyond `v`.
pub proof fn lemma_highest_channel_within(v: int, c: int)
    requires
        0 <= c,
    ensures
        0 <= highest_channel_within(v, c) <= c,
        highest_channel_within(v, c) == 0 || linear_intensity(highest_channel_within(v, c)) <= v,
        forall|k: int| highest_channel_within(v, c) < k <= c ==> linear_intensity(k) > v,
    decreases c,
{
    if c > 0 && linear_intensity(c) > v {
        lemma_highest_channel_within(v, c - 1);
    }
}

/// Compressing the intensity of a channel value gives the value back.
pub proof fn lemma_compress_expand(c: int)
    requires
        0 <= c <= 255,
    ensures
        compressed_channel(linear_intensity(c)) == c,
{
    let v = linear_intensity(c);
    lemma_highest_channel_within(v, 255);
    let h = highest_channel_within(v, 255);
    if h < c {
        assert(linear_intensity(c) > v);
    }
    if h > c {
        lemma_linear_intensity_increases(c, h);
    }
}

/// The channel value of a linear intensity, in millionths.
pub fn gamma_compress(v: i128) -> (c: u8)
    ensures
        c == compressed_channel(v as int),
{
    let mut c: u8 = 255;
    while c > 0
        invariant
            compressed_channel(v as int) == highest_channel_within(v as int, c as int),
        decreases c,
    {
        if gamma_expand(c) as i128 <= v {
            return c;
        }
        c -= 1;
    }
    0
}

} // verus!
