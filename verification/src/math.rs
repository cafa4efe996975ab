use vstd::prelude::*;

use crate::types::{trunc_div, Vec2I, Vector2D};

verus! {

/// Number of fraction bits of the fixed-point numbers.
pub const ONE_BIT: i32 = 8;
/// The fixed-point unit.
pub const ONE: i32 = 256;
/// Number of angle steps in a full turn; angles are kept in `ANGLE * ONE` units.
pub const ANGLE: i32 = 256;

/// sin of the first quarter turn in 64 steps, scaled by `ONE` and rounded.
pub const QUARTER_SIN: [i32; 65] = [
    0, 6, 13, 19, 25, 31, 38, 44, 50, 56, 62, 68, 74, 80, 86, 92,
    98, 104, 109, 115, 121, 126, 132, 137, 142, 147, 152, 157, 162, 167, 172, 177,
    181, 185, 190, 194, 198, 202, 206, 209, 213, 216, 220, 223, 226, 229, 231, 234,
    237, 239, 241, 243, 245, 247, 248, 250, 251, 252, 253, 254, 255, 255, 256, 256,
    256,
];

/// atan(i / 256) for 0 <= i <= 256, in `ANGLE * ONE` units per turn, rounded.
pub const ATAN_TABLE: [i32; 257] = [
    0, 41, 81, 122, 163, 204, 244, 285, 326, 367, 407, 448, 489, 529, 570, 610,
    651, 692, 732, 773, 813, 854, 894, 935, 975, 1015, 1056, 1096, 1136, 1177, 1217, 1257,
    1297, 1337, 1377, 1417, 1457, 1497, 1537, 1577, 1617, 1656, 1696, 1736, 1775, 1815, 1854, 1894,
    1933, 1973, 2012, 2051, 2090, 2129, 2168, 2207, 2246, 2285, 2324, 2363, 2401, 2440, 2478, 2517,
    2555, 2594, 2632, 2670, 2708, 2746, 2784, 2822, 2860, 2897, 2935, 2973, 3010, 3047, 3085, 3122,
    3159, 3196, 3233, 3270, 3307, 3344, 3380, 3417, 3453, 3490, 3526, 3562, 3599, 3635, 3670, 3706,
    3742, 3778, 3813, 3849, 3884, 3920, 3955, 3990, 4025, 4060, 4095, 4129, 4164, 4199, 4233, 4267,
    4302, 4336, 4370, 4404, 4438, 4471, 4505, 4539, 4572, 4605, 4639, 4672, 4705, 4738, 4771, 4803,
    4836, 4869, 4901, 4933, 4966, 4998, 5030, 5062, 5094, 5125, 5157, 5188, 5220, 5251, 5282, 5313,
    5344, 5375, 5406, 5437, 5467, 5498, 5528, 5559, 5589, 5619, 5649, 5679, 5708, 5738, 5768, 5797,
    5826, 5856, 5885, 5914, 5943, 5972, 6000, 6029, 6058, 6086, 6114, 6142, 6171, 6199, 6227, 6254,
    6282, 6310, 6337, 6365, 6392, 6419, 6446, 6473, 6500, 6527, 6554, 6580, 6607, 6633, 6660, 6686,
    6712, 6738, 6764, 6790, 6815, 6841, 6867, 6892, 6917, 6943, 6968, 6993, 7018, 7043, 7068, 7092,
    7117, 7141, 7166, 7190, 7214, 7238, 7262, 7286, 7310, 7334, 7358, 7381, 7405, 7428, 7451, 7475,
    7498, 7521, 7544, 7566, 7589, 7612, 7635, 7657, 7679, 7702, 7724, 7746, 7768, 7790, 7812, 7834,
    7856, 7877, 7899, 7920, 7942, 7963, 7984, 8005, 8026, 8047, 8068, 8089, 8110, 8131, 8151, 8172,
    8192,
];

/// The sine table: `ANGLE` steps per turn, scaled by `ONE`.
pub open spec fn sin_tab(i: int) -> int {
    if i <= 64 {
        QUARTER_SIN@[i] as int
    } else if i <= 128 {
        QUARTER_SIN@[128 - i] as int
    } else if i <= 192 {
        -QUARTER_SIN@[i - 128]
    } else {
        -QUARTER_SIN@[256 - i]
    }
}

/// The cosine table: `ANGLE` steps per turn, scaled by `ONE`.
pub open spec fn cos_tab(i: int) -> int {
    sin_tab((i + 64) % 256)
}

/// The table step that an angle in `ANGLE * ONE` units falls on, rounding to nearest.
pub open spec fn angle_step(angle: int) -> int {
    ((angle + ONE / 2) / (ONE as int)) % (ANGLE as int)
}

/// The velocity of a move at `speed` toward `angle` (0 is up, a quarter turn is right).
pub open spec fn velocity(angle: int, speed: int) -> Vec2I {
    let a = angle_step(angle);
    Vector2D {
        x: trunc_div(sin_tab(a) * speed, ONE as int) as i32,
        y: trunc_div(-cos_tab(a) * speed, ONE as int) as i32,
    }
}

/// Speeds that `calc_velocity` can scale without overflow.
pub open spec fn valid_speed(speed: int) -> bool {
    -0x40_0000 <= speed <= 0x40_0000
}

/// Angles that `calc_velocity` can round without overflow.
pub open spec fn valid_angle(angle: int) -> bool {
    i32::MIN + ONE <= angle <= i32::MAX - ONE
}

pub proof fn lemma_quarter_sin_bounds()
    ensures
        forall|i: int| 0 <= i <= 64 ==> 0 <= #[trigger] QUARTER_SIN@[i] <= ONE,
{
    assert(forall|i: int| 0 <= i <= 64 ==> 0 <= #[trigger] QUARTER_SIN@[i] <= ONE);
}

pub proof fn lemma_atan_bounds()
    ensures
        forall|i: int| 0 <= i <= 256 ==> 0 <= #[trigger] ATAN_TABLE@[i] <= ANGLE * ONE / 8,
{
    assert(forall|i: int| 0 <= i <= 256 ==> 0 <= #[trigger] ATAN_TABLE@[i] <= ANGLE * ONE / 8);
}

/// The sine table entry for step `i`.
pub fn sin_lut(i: usize) -> (s: i32)
    requires
        i < 256,
    ensures
        s == sin_tab(i as int),
        -ONE <= s <= ONE,
{
    proof {
        lemma_quarter_sin_bounds();
    }
    if i <= 64 {
        QUARTER_SIN[i]
    } else if i <= 128 {
        QUARTER_SIN[128 - i]
    } else if i <= 192 {
        -QUARTER_SIN[i - 128]
    } else {
        -QUARTER_SIN[256 - i]
    }
}

/// The cosine table entry for step `i`.
pub fn cos_lut(i: usize) -> (c: i32)
    requires
        i < 256,
    ensures
        c == cos_tab(i as int),
        -ONE <= c <= ONE,
{
    sin_lut((i + 64) % 256)
}

/// The table step of `angle`, computed as the bit mask does it.
pub fn angle_index(angle: i32) -> (a: usize)
    requires
        valid_angle(angle as int),
    ensures
        a == angle_step(angle as int),
        a < 256,
{
    let t: i32 = angle + ONE / 2;
    let m: i32 = (t & ((ANGLE - 1) * ONE)) / ONE;
    assert((t & 0xff00i32) / 256 == ((t as int) / 256) % 256) by (bit_vector);
    m as usize
}

/// The velocity of a move at `speed` toward `angle`.
pub fn calc_velocity(angle: i32, speed: i32) -> (v: Vec2I)
    requires
        valid_angle(angle as int),
        valid_speed(speed as int),
    ensures
        v == velocity(angle as int, speed as int),
        -0x40_0000 <= v.x <= 0x40_0000,
        -0x40_0000 <= v.y <= 0x40_0000,
{
    let a = angle_index(angle);
    let cs = cos_lut(a);
    let sn = sin_lut(a);
    assert(-0x4000_0000 <= sn * speed <= 0x4000_0000) by (nonlinear_arith)
        requires -256 <= sn <= 256, -0x40_0000 <= speed <= 0x40_0000;
    assert(-0x4000_0000 <= -cs * speed <= 0x4000_0000) by (nonlinear_arith)
        requires -256 <= cs <= 256, -0x40_0000 <= speed <= 0x40_0000;
    let x = crate::types::div_trunc(sn * speed, ONE);
    let y = crate::types::div_trunc(-cs * speed, ONE);
    assert(-0x40_0000 <= x <= 0x40_0000) by (nonlinear_arith)
        requires x == trunc_div(sn * speed, 256), -0x4000_0000 <= sn * speed <= 0x4000_0000;
    assert(-0x40_0000 <= y <= 0x40_0000) by (nonlinear_arith)
        requires y == trunc_div(-cs * speed, 256), -0x4000_0000 <= -cs * speed <= 0x4000_0000;
    Vector2D::new(x, y)
}

/// `value` limited to the range `[min, max]`.
pub open spec fn clamp_spec(value: int, min: int, max: int) -> int {
    if value < min {
        min
    } else if value > max {
        max
    } else {
        value
    }
}

/// `value` limited to the range `[min, max]`.
pub fn clamp(value: i32, min: i32, max: i32) -> (r: i32)
    ensures
        r == clamp_spec(value as int, min as int, max as int),
{
    if value < min {
        min
    } else if value > max {
        max
    } else {
        value
    }
}

/// `value * value`.
pub fn square(value: i32) -> (r: i32)
    requires
        -46340 <= value <= 46340,
    ensures
        r == value * value,
{
    assert(0 <= value * value <= 46340 * 46340) by (nonlinear_arith)
        requires -46340 <= value <= 46340;
    value * value
}

/// A fixed-point coordinate rounded to the nearest whole dot.
pub open spec fn round_fixed(v: int) -> int {
    (v + ONE / 2) / (ONE as int)
}

/// Coordinates that `round_vec` can round without overflow.
pub open spec fn roundable(v: Vec2I) -> bool {
    v.x <= i32::MAX - ONE && v.y <= i32::MAX - ONE
}

/// A fixed-point vector rounded to whole dots.
pub fn round_vec(v: &Vec2I) -> (r: Vec2I)
    requires
        roundable(*v),
    ensures
        r.x == round_fixed(v.x as int),
        r.y == round_fixed(v.y as int),
{
    let tx: i32 = v.x + ONE / 2;
    let ty: i32 = v.y + ONE / 2;
    assert((tx >> 8i32) as int == (tx as int) / 256) by (bit_vector);
    assert((ty >> 8i32) as int == (ty as int) / 256) by (bit_vector);
    Vector2D::new(tx >> ONE_BIT, ty >> ONE_BIT)
}

/// An angle brought into `[0, ANGLE * ONE)`.
pub open spec fn normalized(angle: int) -> int {
    angle % (ANGLE * ONE) as int
}

/// An angle brought into `[0, ANGLE * ONE)`.
pub fn normalize_angle(angle: i32) -> (r: i32)
    ensures
        r == normalized(angle as int),
        0 <= r < ANGLE * ONE,
{
    let r = angle & (ANGLE * ONE - 1);
    assert((angle & 0xffffi32) as int == (angle as int) % 65536) by (bit_vector);
    r
}

/// The signed turn from `angle` to `target`, in `[-ANGLE * ONE / 2, ANGLE * ONE / 2)`.
pub open spec fn angle_diff(target: int, angle: int) -> int {
    (target - angle + ANGLE * ONE / 2) % (ANGLE * ONE) as int - ANGLE * ONE / 2
}

/// The signed turn from `angle` to `target`.
pub fn diff_angle(target: i32, angle: i32) -> (r: i32)
    requires
        crate::types::fits_i32(target - angle),
        crate::types::fits_i32(target - angle + ANGLE * ONE / 2),
    ensures
        r == angle_diff(target as int, angle as int),
        -ANGLE * ONE / 2 <= r < ANGLE * ONE / 2,
{
    let circumference = ANGLE * ONE;
    let t: i32 = target - angle + circumference / 2;
    assert((t & 0xffffi32) as int == (t as int) % 65536) by (bit_vector);
    (t & (circumference - 1)) - circumference / 2
}

/// An angle rounded to one of `div` directions, in the 256-step units of a sprite rotation.
pub open spec fn quantized(angle: int, div: int) -> int {
    let round = (ANGLE * ONE) as int / div;
    let a = ((angle + round / 2) % (ANGLE * ONE) as int) / round;
    (a * ANGLE / div) % 256
}

/// An angle rounded to one of `div` directions, in the 256-step units of a sprite rotation.
pub fn quantize_angle(angle: i32, div: i32) -> (r: u8)
    requires
        1 <= div <= ANGLE,
        -0x4000_0000 <= angle <= 0x4000_0000,
    ensures
        r == quantized(angle as int, div as int),
{
    let round: i32 = ANGLE * ONE / div;
    assert(256 <= round <= 65536) by (nonlinear_arith) requires 1 <= div <= 256, round == 65536int / (div as int);
    let t: i32 = angle + round / 2;
    let m: i32 = t & (ANGLE * ONE - 1);
    assert((t & 0xffffi32) as int == (t as int) % 65536) by (bit_vector);
    let a: i32 = m / round;
    assert(0 <= a <= 65535) by (nonlinear_arith) requires 0 <= m < 65536, round >= 256, a == (m as int) / (round as int);
    let q: i32 = a * ANGLE / div;
    ((q % 256) as u8)
}

/// The direction of the vector `(x, y)` measured from the `y` axis toward the `x` axis,
/// in `ANGLE * ONE` units per turn, through the arctangent table.
pub open spec fn atan2_spec(y: int, x: int) -> int {
    if x == 0 && y == 0 {
        0
    } else {
        let ax = if x < 0 { -x } else { x };
        let ay = if y < 0 { -y } else { y };
        let t = if ax <= ay {
            ATAN_TABLE@[(ax * 256) / ay] as int
        } else {
            ANGLE * ONE / 4 - ATAN_TABLE@[(ay * 256) / ax]
        };
        if y >= 0 {
            if x >= 0 { t } else { -t }
        } else {
            if x >= 0 { ANGLE * ONE / 2 - t } else { t - ANGLE * ONE / 2 }
        }
    }
}

/// Coordinates that `atan2_lut` accepts.
pub open spec fn atan2_arg(v: int) -> bool {
    -0x40_0000 <= v <= 0x40_0000
}

/// The direction of the vector `(x, y)`, with `y` along angle 0.
pub fn atan2_lut(y: i32, x: i32) -> (r: i32)
    requires
        atan2_arg(y as int),
        atan2_arg(x as int),
    ensures
        r == atan2_spec(y as int, x as int),
        -ANGLE * ONE / 2 <= r <= ANGLE * ONE / 2,
{
    proof {
        lemma_atan_bounds();
    }
    if x == 0 && y == 0 {
        return 0;
    }
    let ax: i32 = if x < 0 { -x } else { x };
    let ay: i32 = if y < 0 { -y } else { y };
    let t: i32 = if ax <= ay {
        let i: i32 = (ax * 256) / ay;
        assert(0 <= i <= 256) by (nonlinear_arith) requires 0 <= ax <= ay, ay > 0, i == (ax * 256) / (ay as int);
        ATAN_TABLE[i as usize]
    } else {
        let i: i32 = (ay * 256) / ax;
        assert(0 <= i <= 256) by (nonlinear_arith) requires 0 <= ay < ax, i == (ay * 256) / (ax as int);
        ANGLE * ONE / 4 - ATAN_TABLE[i as usize]
    };
    if y >= 0 {
        if x >= 0 { t } else { -t }
    } else {
        if x >= 0 { ANGLE * ONE / 2 - t } else { t - ANGLE * ONE / 2 }
    }
}

} // verus!
