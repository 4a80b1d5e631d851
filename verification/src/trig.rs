//! Table-driven trigonometry on fixed-point angles.
//!
//! Angles are `i64` micro-radians.  An angle is reduced to a whole number of
//! degrees (nearest degree) and looked up in a quarter-wave cosine table whose
//! entries are unit-circle coordinates in millionths.  The table is the
//! definition of this crate's cosine: every contract that mentions `cos_of`
//! or `sin_of` means exactly these values.

use vstd::prelude::*;
use crate::fixed::SCALE;

verus! {

use vstd::arithmetic::div_mod::lemma_fundamental_div_mod_converse;
use vstd::arithmetic::div_mod::lemma_multiply_divide_lt;
use vstd::arithmetic::div_mod::lemma_div_pos_is_pos;
use vstd::arithmetic::div_mod::lemma_mod_bound;

/// One full turn (two pi) in micro-radians, rounded to the nearest step.
pub const TAU_FP: i64 = 6_283_185;

/// Half a turn (pi) in micro-radians, rounded to the nearest step.
pub const PI_FP: i64 = 3_141_593;

/// Largest defect of `cos_entry(d)^2 + cos_entry(90 - d)^2` from a perfect
/// unit square, over the whole table.
pub const NORM_DEFECT: i64 = 1_129_488;

/// The quarter-wave cosine table: `cos_entry(d)` is the cosine of `d`
/// degrees in millionths, for `0 <= d <= 90`.
pub open spec fn cos_entry(d: int) -> int {
    if d == 0 { 1000000 } else if d == 1 { 999848 } else if d == 2 { 999391 } else if d == 3 { 998630 } else if d == 4 { 997564 } else if d == 5 { 996195 } else if d == 6 { 994522 } else if d == 7 { 992546 } else if d == 8 { 990268 } else if d == 9 { 987688 } else if d == 10 { 984808 } else if d == 11 { 981627 } else if d == 12 { 978148 } else if d == 13 { 974370 } else if d == 14 { 970296 } else if d == 15 { 965926 } else if d == 16 { 961262 } else if d == 17 { 956305 } else if d == 18 { 951057 } else if d == 19 { 945519 } else if d == 20 { 939693 } else if d == 21 { 933580 } else if d == 22 { 927184 } else if d == 23 { 920505 } else if d == 24 { 913545 } else if d == 25 { 906308 } else if d == 26 { 898794 } else if d == 27 { 891007 } else if d == 28 { 882948 } else if d == 29 { 874620 } else if d == 30 { 866025 } else if d == 31 { 857167 } else if d == 32 { 848048 } else if d == 33 { 838671 } else if d == 34 { 829038 } else if d == 35 { 819152 } else if d == 36 { 809017 } else if d == 37 { 798636 } else if d == 38 { 788011 } else if d == 39 { 777146 } else if d == 40 { 766044 } else if d == 41 { 754710 } else if d == 42 { 743145 } else if d == 43 { 731354 } else if d == 44 { 719340 } else if d == 45 { 707107 } else if d == 46 { 694658 } else if d == 47 { 681998 } else if d == 48 { 669131 } else if d == 49 { 656059 } else if d == 50 { 642788 } else if d == 51 { 629320 } else if d == 52 { 615661 } else if d == 53 { 601815 } else if d == 54 { 587785 } else if d == 55 { 573576 } else if d == 56 { 559193 } else if d == 57 { 544639 } else if d == 58 { 529919 } else if d == 59 { 515038 } else if d == 60 { 500000 } else if d == 61 { 484810 } else if d == 62 { 469472 } else if d == 63 { 453990 } else if d == 64 { 438371 } else if d == 65 { 422618 } else if d == 66 { 406737 } else if d == 67 { 390731 } else if d == 68 { 374607 } else if d == 69 { 358368 } else if d == 70 { 342020 } else if d == 71 { 325568 } else if d == 72 { 309017 } else if d == 73 { 292372 } else if d == 74 { 275637 } else if d == 75 { 258819 } else if d == 76 { 241922 } else if d == 77 { 224951 } else if d == 78 { 207912 } else if d == 79 { 190809 } else if d == 80 { 173648 } else if d == 81 { 156434 } else if d == 82 { 139173 } else if d == 83 { 121869 } else if d == 84 { 104528 } else if d == 85 { 87156 } else if d == 86 { 69756 } else if d == 87 { 52336 } else if d == 88 { 34899 } else if d == 89 { 17452 } else { 0 }
}

/// Table lookup mirroring `cos_entry`.
fn cos_entry_at(d: u32) -> (r: i64)
    ensures
        r == cos_entry(d as int),
{
    if d == 0 { 1000000 } else if d == 1 { 999848 } else if d == 2 { 999391 } else if d == 3 { 998630 } else if d == 4 { 997564 } else if d == 5 { 996195 } else if d == 6 { 994522 } else if d == 7 { 992546 } else if d == 8 { 990268 } else if d == 9 { 987688 } else if d == 10 { 984808 } else if d == 11 { 981627 } else if d == 12 { 978148 } else if d == 13 { 974370 } else if d == 14 { 970296 } else if d == 15 { 965926 } else if d == 16 { 961262 } else if d == 17 { 956305 } else if d == 18 { 951057 } else if d == 19 { 945519 } else if d == 20 { 939693 } else if d == 21 { 933580 } else if d == 22 { 927184 } else if d == 23 { 920505 } else if d == 24 { 913545 } else if d == 25 { 906308 } else if d == 26 { 898794 } else if d == 27 { 891007 } else if d == 28 { 882948 } else if d == 29 { 874620 } else if d == 30 { 866025 } else if d == 31 { 857167 } else if d == 32 { 848048 } else if d == 33 { 838671 } else if d == 34 { 829038 } else if d == 35 { 819152 } else if d == 36 { 809017 } else if d == 37 { 798636 } else if d == 38 { 788011 } else if d == 39 { 777146 } else if d == 40 { 766044 } else if d == 41 { 754710 } else if d == 42 { 743145 } else if d == 43 { 731354 } else if d == 44 { 719340 } else if d == 45 { 707107 } else if d == 46 { 694658 } else if d == 47 { 681998 } else if d == 48 { 669131 } else if d == 49 { 656059 } else if d == 50 { 642788 } else if d == 51 { 629320 } else if d == 52 { 615661 } else if d == 53 { 601815 } else if d == 54 { 587785 } else if d == 55 { 573576 } else if d == 56 { 559193 } else if d == 57 { 544639 } else if d == 58 { 529919 } else if d == 59 { 515038 } else if d == 60 { 500000 } else if d == 61 { 484810 } else if d == 62 { 469472 } else if d == 63 { 453990 } else if d == 64 { 438371 } else if d == 65 { 422618 } else if d == 66 { 406737 } else if d == 67 { 390731 } else if d == 68 { 374607 } else if d == 69 { 358368 } else if d == 70 { 342020 } else if d == 71 { 325568 } else if d == 72 { 309017 } else if d == 73 { 292372 } else if d == 74 { 275637 } else if d == 75 { 258819 } else if d == 76 { 241922 } else if d == 77 { 224951 } else if d == 78 { 207912 } else if d == 79 { 190809 } else if d == 80 { 173648 } else if d == 81 { 156434 } else if d == 82 { 139173 } else if d == 83 { 121869 } else if d == 84 { 104528 } else if d == 85 { 87156 } else if d == 86 { 69756 } else if d == 87 { 52336 } else if d == 88 { 34899 } else if d == 89 { 17452 } else { 0 }
}

/// The angle `a` brought into `[0, TAU_FP)`: the Euclidean remainder of a
/// full turn.
pub open spec fn turn_of(a: int) -> int {
    a % (TAU_FP as int)
}

/// Brings an angle into `[0, TAU_FP)`.
pub fn reduce_turn(a: i64) -> (r: i64)
    requires
        a > i64::MIN,
    ensures
        r == turn_of(a as int),
        0 <= r < TAU_FP,
{
    proof {
        let t = TAU_FP as int;
        if a < 0 {
            let k = -(a as int);
            let q = k / t;
            let m = k % t;
            if m == 0 {
                lemma_fundamental_div_mod_converse(a as int, t, -q, 0);
            } else {
                lemma_fundamental_div_mod_converse(a as int, t, -q - 1, t - m);
            }
        }
    }
    if a >= 0 {
        let q: u64 = (a as u64) % (TAU_FP as u64);
        q as i64
    } else {
        let m: u64 = ((-a) as u64) % (TAU_FP as u64);
        if m == 0 {
            0
        } else {
            TAU_FP - (m as i64)
        }
    }
}

/// The nearest whole degree of an angle already reduced into `[0, TAU_FP)`,
/// wrapped so that a full turn reads as zero degrees.
pub open spec fn degree_of(e: int) -> int {
    let d = (e * 360 + 3_141_592) / (TAU_FP as int);
    if d == 360 {
        0
    } else {
        d
    }
}

/// Rounds a reduced angle to its nearest whole degree.
fn nearest_degree(e: i64) -> (r: u32)
    requires
        0 <= e < TAU_FP,
    ensures
        r == degree_of(e as int),
        r < 360,
{
    let n: u64 = (e * 360 + 3_141_592) as u64;
    let d: u64 = n / (TAU_FP as u64);
    assert(d <= 360) by {
        lemma_multiply_divide_lt(n as int, TAU_FP as int, 361);
    };
    if d == 360 {
        0
    } else {
        d as u32
    }
}

/// Cosine of `d` whole degrees, `0 <= d < 360`, read off the quarter table.
pub open spec fn cos_deg(d: int) -> int {
    if d <= 90 {
        cos_entry(d)
    } else if d <= 180 {
        -cos_entry(180 - d)
    } else if d <= 270 {
        -cos_entry(d - 180)
    } else {
        cos_entry(360 - d)
    }
}

/// Sine of `d` whole degrees, `0 <= d < 360`, read off the quarter table.
pub open spec fn sin_deg(d: int) -> int {
    if d <= 90 {
        cos_entry(90 - d)
    } else if d <= 180 {
        cos_entry(d - 90)
    } else if d <= 270 {
        -cos_entry(270 - d)
    } else {
        -cos_entry(d - 270)
    }
}

/// Cosine of an angle in micro-radians, at the table's degree resolution.
pub open spec fn cos_of(a: int) -> int {
    cos_deg(degree_of(turn_of(a)))
}

/// Sine of an angle in micro-radians, at the table's degree resolution.
pub open spec fn sin_of(a: int) -> int {
    sin_deg(degree_of(turn_of(a)))
}

/// Cosine of an angle in micro-radians, in millionths.
pub fn cos_fp(a: i64) -> (r: i64)
    requires
        a > i64::MIN,
    ensures
        r == cos_of(a as int),
{
    let e = reduce_turn(a);
    let d = nearest_degree(e);
    if d <= 90 {
        cos_entry_at(d)
    } else if d <= 180 {
        -cos_entry_at(180 - d)
    } else if d <= 270 {
        -cos_entry_at(d - 180)
    } else {
        cos_entry_at(360 - d)
    }
}

/// Sine of an angle in micro-radians, in millionths.
pub fn sin_fp(a: i64) -> (r: i64)
    requires
        a > i64::MIN,
    ensures
        r == sin_of(a as int),
{
    let e = reduce_turn(a);
    let d = nearest_degree(e);
    if d <= 90 {
        cos_entry_at(90 - d)
    } else if d <= 180 {
        cos_entry_at(d - 90)
    } else if d <= 270 {
        -cos_entry_at(270 - d)
    } else {
        -cos_entry_at(d - 270)
    }
}

spec fn entry_range_ok(i: int) -> bool {
    0 <= cos_entry(i) <= SCALE
}

spec fn entry_norm_ok(i: int) -> bool {
    let c = cos_entry(i);
    let s = cos_entry(90 - i);
    -(NORM_DEFECT as int) <= c * c + s * s - (SCALE as int) * (SCALE as int) <= NORM_DEFECT as int
}

/// Every table entry lies between zero and one.
pub proof fn lemma_cos_entry_range(d: int)
    requires
        0 <= d <= 90,
    ensures
        0 <= cos_entry(d) <= SCALE,
{
    if d == 0 { assert(entry_range_ok(0)); }
    if d == 1 { assert(entry_range_ok(1)); }
    if d == 2 { assert(entry_range_ok(2)); }
    if d == 3 { assert(entry_range_ok(3)); }
    if d == 4 { assert(entry_range_ok(4)); }
    if d == 5 { assert(entry_range_ok(5)); }
    if d == 6 { assert(entry_range_ok(6)); }
    if d == 7 { assert(entry_range_ok(7)); }
    if d == 8 { assert(entry_range_ok(8)); }
    if d == 9 { assert(entry_range_ok(9)); }
    if d == 10 { assert(entry_range_ok(10)); }
    if d == 11 { assert(entry_range_ok(11)); }
    if d == 12 { assert(entry_range_ok(12)); }
    if d == 13 { assert(entry_range_ok(13)); }
    if d == 14 { assert(entry_range_ok(14)); }
    if d == 15 { assert(entry_range_ok(15)); }
    if d == 16 { assert(entry_range_ok(16)); }
    if d == 17 { assert(entry_range_ok(17)); }
    if d == 18 { assert(entry_range_ok(18)); }
    if d == 19 { assert(entry_range_ok(19)); }
    if d == 20 { assert(entry_range_ok(20)); }
    if d == 21 { assert(entry_range_ok(21)); }
    if d == 22 { assert(entry_range_ok(22)); }
    if d == 23 { assert(entry_range_ok(23)); }
    if d == 24 { assert(entry_range_ok(24)); }
    if d == 25 { assert(entry_range_ok(25)); }
    if d == 26 { assert(entry_range_ok(26)); }
    if d == 27 { assert(entry_range_ok(27)); }
    if d == 28 { assert(entry_range_ok(28)); }
    if d == 29 { assert(entry_range_ok(29)); }
    if d == 30 { assert(entry_range_ok(30)); }
    if d == 31 { assert(entry_range_ok(31)); }
    if d == 32 { assert(entry_range_ok(32)); }
    if d == 33 { assert(entry_range_ok(33)); }
    if d == 34 { assert(entry_range_ok(34)); }
    if d == 35 { assert(entry_range_ok(35)); }
    if d == 36 { assert(entry_range_ok(36)); }
    if d == 37 { assert(entry_range_ok(37)); }
    if d == 38 { assert(entry_range_ok(38)); }
    if d == 39 { assert(entry_range_ok(39)); }
    if d == 40 { assert(entry_range_ok(40)); }
    if d == 41 { assert(entry_range_ok(41)); }
    if d == 42 { assert(entry_range_ok(42)); }
    if d == 43 { assert(entry_range_ok(43)); }
    if d == 44 { assert(entry_range_ok(44)); }
    if d == 45 { assert(entry_range_ok(45)); }
    if d == 46 { assert(entry_range_ok(46)); }
    if d == 47 { assert(entry_range_ok(47)); }
    if d == 48 { assert(entry_range_ok(48)); }
    if d == 49 { assert(entry_range_ok(49)); }
    if d == 50 { assert(entry_range_ok(50)); }
    if d == 51 { assert(entry_range_ok(51)); }
    if d == 52 { assert(entry_range_ok(52)); }
    if d == 53 { assert(entry_range_ok(53)); }
    if d == 54 { assert(entry_range_ok(54)); }
    if d == 55 { assert(entry_range_ok(55)); }
    if d == 56 { assert(entry_range_ok(56)); }
    if d == 57 { assert(entry_range_ok(57)); }
    if d == 58 { assert(entry_range_ok(58)); }
    if d == 59 { assert(entry_range_ok(59)); }
    if d == 60 { assert(entry_range_ok(60)); }
    if d == 61 { assert(entry_range_ok(61)); }
    if d == 62 { assert(entry_range_ok(62)); }
    if d == 63 { assert(entry_range_ok(63)); }
    if d == 64 { assert(entry_range_ok(64)); }
    if d == 65 { assert(entry_range_ok(65)); }
    if d == 66 { assert(entry_range_ok(66)); }
    if d == 67 { assert(entry_range_ok(67)); }
    if d == 68 { assert(entry_range_ok(68)); }
    if d == 69 { assert(entry_range_ok(69)); }
    if d == 70 { assert(entry_range_ok(70)); }
    if d == 71 { assert(entry_range_ok(71)); }
    if d == 72 { assert(entry_range_ok(72)); }
    if d == 73 { assert(entry_range_ok(73)); }
    if d == 74 { assert(entry_range_ok(74)); }
    if d == 75 { assert(entry_range_ok(75)); }
    if d == 76 { assert(entry_range_ok(76)); }
    if d == 77 { assert(entry_range_ok(77)); }
    if d == 78 { assert(entry_range_ok(78)); }
    if d == 79 { assert(entry_range_ok(79)); }
    if d == 80 { assert(entry_range_ok(80)); }
    if d == 81 { assert(entry_range_ok(81)); }
    if d == 82 { assert(entry_range_ok(82)); }
    if d == 83 { assert(entry_range_ok(83)); }
    if d == 84 { assert(entry_range_ok(84)); }
    if d == 85 { assert(entry_range_ok(85)); }
    if d == 86 { assert(entry_range_ok(86)); }
    if d == 87 { assert(entry_range_ok(87)); }
    if d == 88 { assert(entry_range_ok(88)); }
    if d == 89 { assert(entry_range_ok(89)); }
    if d == 90 { assert(entry_range_ok(90)); }
    assert(entry_range_ok(d));
}

/// A table entry and its complement form a near-perfect unit vector: the
/// squared norm misses a perfect square of one by at most `NORM_DEFECT`.
pub proof fn lemma_entry_norm(d: int)
    requires
        0 <= d <= 90,
    ensures
        -(NORM_DEFECT as int) <= cos_entry(d) * cos_entry(d) + cos_entry(90 - d) * cos_entry(90 - d)
            - (SCALE as int) * (SCALE as int) <= NORM_DEFECT as int,
{
    if d == 0 { assert(entry_norm_ok(0)); }
    if d == 1 { assert(entry_norm_ok(1)); }
    if d == 2 { assert(entry_norm_ok(2)); }
    if d == 3 { assert(entry_norm_ok(3)); }
    if d == 4 { assert(entry_norm_ok(4)); }
    if d == 5 { assert(entry_norm_ok(5)); }
    if d == 6 { assert(entry_norm_ok(6)); }
    if d == 7 { assert(entry_norm_ok(7)); }
    if d == 8 { assert(entry_norm_ok(8)); }
    if d == 9 { assert(entry_norm_ok(9)); }
    if d == 10 { assert(entry_norm_ok(10)); }
    if d == 11 { assert(entry_norm_ok(11)); }
    if d == 12 { assert(entry_norm_ok(12)); }
    if d == 13 { assert(entry_norm_ok(13)); }
    if d == 14 { assert(entry_norm_ok(14)); }
    if d == 15 { assert(entry_norm_ok(15)); }
    if d == 16 { assert(entry_norm_ok(16)); }
    if d == 17 { assert(entry_norm_ok(17)); }
    if d == 18 { assert(entry_norm_ok(18)); }
    if d == 19 { assert(entry_norm_ok(19)); }
    if d == 20 { assert(entry_norm_ok(20)); }
    if d == 21 { assert(entry_norm_ok(21)); }
    if d == 22 { assert(entry_norm_ok(22)); }
    if d == 23 { assert(entry_norm_ok(23)); }
    if d == 24 { assert(entry_norm_ok(24)); }
    if d == 25 { assert(entry_norm_ok(25)); }
    if d == 26 { assert(entry_norm_ok(26)); }
    if d == 27 { assert(entry_norm_ok(27)); }
    if d == 28 { assert(entry_norm_ok(28)); }
    if d == 29 { assert(entry_norm_ok(29)); }
    if d == 30 { assert(entry_norm_ok(30)); }
    if d == 31 { assert(entry_norm_ok(31)); }
    if d == 32 { assert(entry_norm_ok(32)); }
    if d == 33 { assert(entry_norm_ok(33)); }
    if d == 34 { assert(entry_norm_ok(34)); }
    if d == 35 { assert(entry_norm_ok(35)); }
    if d == 36 { assert(entry_norm_ok(36)); }
    if d == 37 { assert(entry_norm_ok(37)); }
    if d == 38 { assert(entry_norm_ok(38)); }
    if d == 39 { assert(entry_norm_ok(39)); }
    if d == 40 { assert(entry_norm_ok(40)); }
    if d == 41 { assert(entry_norm_ok(41)); }
    if d == 42 { assert(entry_norm_ok(42)); }
    if d == 43 { assert(entry_norm_ok(43)); }
    if d == 44 { assert(entry_norm_ok(44)); }
    if d == 45 { assert(entry_norm_ok(45)); }
    if d == 46 { assert(entry_norm_ok(46)); }
    if d == 47 { assert(entry_norm_ok(47)); }
    if d == 48 { assert(entry_norm_ok(48)); }
    if d == 49 { assert(entry_norm_ok(49)); }
    if d == 50 { assert(entry_norm_ok(50)); }
    if d == 51 { assert(entry_norm_ok(51)); }
    if d == 52 { assert(entry_norm_ok(52)); }
    if d == 53 { assert(entry_norm_ok(53)); }
    if d == 54 { assert(entry_norm_ok(54)); }
    if d == 55 { assert(entry_norm_ok(55)); }
    if d == 56 { assert(entry_norm_ok(56)); }
    if d == 57 { assert(entry_norm_ok(57)); }
    if d == 58 { assert(entry_norm_ok(58)); }
    if d == 59 { assert(entry_norm_ok(59)); }
    if d == 60 { assert(entry_norm_ok(60)); }
    if d == 61 { assert(entry_norm_ok(61)); }
    if d == 62 { assert(entry_norm_ok(62)); }
    if d == 63 { assert(entry_norm_ok(63)); }
    if d == 64 { assert(entry_norm_ok(64)); }
    if d == 65 { assert(entry_norm_ok(65)); }
    if d == 66 { assert(entry_norm_ok(66)); }
    if d == 67 { assert(entry_norm_ok(67)); }
    if d == 68 { assert(entry_norm_ok(68)); }
    if d == 69 { assert(entry_norm_ok(69)); }
    if d == 70 { assert(entry_norm_ok(70)); }
    if d == 71 { assert(entry_norm_ok(71)); }
    if d == 72 { assert(entry_norm_ok(72)); }
    if d == 73 { assert(entry_norm_ok(73)); }
    if d == 74 { assert(entry_norm_ok(74)); }
    if d == 75 { assert(entry_norm_ok(75)); }
    if d == 76 { assert(entry_norm_ok(76)); }
    if d == 77 { assert(entry_norm_ok(77)); }
    if d == 78 { assert(entry_norm_ok(78)); }
    if d == 79 { assert(entry_norm_ok(79)); }
    if d == 80 { assert(entry_norm_ok(80)); }
    if d == 81 { assert(entry_norm_ok(81)); }
    if d == 82 { assert(entry_norm_ok(82)); }
    if d == 83 { assert(entry_norm_ok(83)); }
    if d == 84 { assert(entry_norm_ok(84)); }
    if d == 85 { assert(entry_norm_ok(85)); }
    if d == 86 { assert(entry_norm_ok(86)); }
    if d == 87 { assert(entry_norm_ok(87)); }
    if d == 88 { assert(entry_norm_ok(88)); }
    if d == 89 { assert(entry_norm_ok(89)); }
    if d == 90 { assert(entry_norm_ok(90)); }
    assert(entry_norm_ok(d));
}

/// Cosine and sine of any whole degree stay within one unit.
pub proof fn lemma_deg_range(d: int)
    requires
        0 <= d < 360,
    ensures
        -(SCALE as int) <= cos_deg(d) <= SCALE as int,
        -(SCALE as int) <= sin_deg(d) <= SCALE as int,
{
    if d <= 90 {
        lemma_cos_entry_range(d);
        lemma_cos_entry_range(90 - d);
    } else if d <= 180 {
        lemma_cos_entry_range(180 - d);
        lemma_cos_entry_range(d - 90);
    } else if d <= 270 {
        lemma_cos_entry_range(d - 180);
        lemma_cos_entry_range(270 - d);
    } else {
        lemma_cos_entry_range(360 - d);
        lemma_cos_entry_range(d - 270);
    }
}

/// Cosine and sine of any whole degree form a near-perfect unit vector.
pub proof fn lemma_deg_norm(d: int)
    requires
        0 <= d < 360,
    ensures
        -(NORM_DEFECT as int) <= cos_deg(d) * cos_deg(d) + sin_deg(d) * sin_deg(d) - (SCALE as int)
            * (SCALE as int) <= NORM_DEFECT as int,
{
    if d <= 90 {
        lemma_entry_norm(d);
    } else if d <= 180 {
        lemma_entry_norm(180 - d);
        let x = cos_entry(180 - d);
        assert(cos_deg(d) == -x);
        assert((-x) * (-x) == x * x) by (nonlinear_arith);
    } else if d <= 270 {
        lemma_entry_norm(d - 180);
        let x = cos_entry(d - 180);
        let y = cos_entry(270 - d);
        assert(cos_deg(d) == -x);
        assert(sin_deg(d) == -y);
        assert((-x) * (-x) == x * x) by (nonlinear_arith);
        assert((-y) * (-y) == y * y) by (nonlinear_arith);
    } else {
        lemma_entry_norm(360 - d);
        let y = cos_entry(d - 270);
        assert(sin_deg(d) == -y);
        assert((-y) * (-y) == y * y) by (nonlinear_arith);
    }
}

/// The degree index of any reduced angle is a valid table index.
pub proof fn lemma_degree_range(e: int)
    requires
        0 <= e < TAU_FP,
    ensures
        0 <= degree_of(e) < 360,
{
    let n = e * 360 + 3_141_592;
    lemma_div_pos_is_pos(n, TAU_FP as int);
    lemma_multiply_divide_lt(n, TAU_FP as int, 361);
}

/// Cosine and sine of any angle stay within one unit.
pub proof fn lemma_cos_sin_range(a: int)
    ensures
        -(SCALE as int) <= cos_of(a) <= SCALE as int,
        -(SCALE as int) <= sin_of(a) <= SCALE as int,
{
    let t = TAU_FP as int;
    lemma_mod_bound(a, t);
    lemma_degree_range(turn_of(a));
    lemma_deg_range(degree_of(turn_of(a)));
}

/// Cosine and sine of any angle form a near-perfect unit vector.
pub proof fn lemma_cos_sin_norm(a: int)
    ensures
        -(NORM_DEFECT as int) <= cos_of(a) * cos_of(a) + sin_of(a) * sin_of(a) - (SCALE as int)
            * (SCALE as int) <= NORM_DEFECT as int,
{
    let t = TAU_FP as int;
    lemma_mod_bound(a, t);
    lemma_degree_range(turn_of(a));
    lemma_deg_norm(degree_of(turn_of(a)));
}

} // verus!
