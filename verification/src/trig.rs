//! Trigonometric functions on fixed-point values, in millionths.
//!
//! Whole degrees go through a first-quadrant table whose entries are the
//! nearest integers to `sin(d degrees) * SCALE`; the other quadrants fold
//! onto it by symmetry. Fixed-point radians go through a truncated power
//! series on the first quadrant after the same folding. Both functions are
//! total over their stated ranges and bounded by one unit in magnitude.

use vstd::prelude::*;

use crate::fp::div_scale;
use crate::fp::fixed_mul;
use crate::fp::lemma_fmul_le;
use crate::fp::wrap_angle;
use crate::fp::wrap_angle_wide;
use crate::fp::HALF_PI_FP;
use crate::fp::PI_FP;
use crate::fp::QUARTER_PI_FP;
use crate::fp::SCALE;
use crate::fp::TWO_PI_FP;

verus! {

/// Sine of a whole number of degrees in the first quadrant: the nearest
/// integer to `sin(d degrees) * SCALE`, for `0 <= d <= 90`. Opaque: proofs
/// reach the entries through `quarter_sin` and the norm and bounds lemmas.
#[verifier::opaque]
pub open spec fn quarter_sin_spec(d: int) -> int {
    if d <= 0 { 0 }
    else if d == 1 { 17452 }
    else if d == 2 { 34899 }
    else if d == 3 { 52336 }
    else if d == 4 { 69756 }
    else if d == 5 { 87156 }
    else if d == 6 { 104528 }
    else if d == 7 { 121869 }
    else if d == 8 { 139173 }
    else if d == 9 { 156434 }
    else if d == 10 { 173648 }
    else if d == 11 { 190809 }
    else if d == 12 { 207912 }
    else if d == 13 { 224951 }
    else if d == 14 { 241922 }
    else if d == 15 { 258819 }
    else if d == 16 { 275637 }
    else if d == 17 { 292372 }
    else if d == 18 { 309017 }
    else if d == 19 { 325568 }
    else if d == 20 { 342020 }
    else if d == 21 { 358368 }
    else if d == 22 { 374607 }
    else if d == 23 { 390731 }
    else if d == 24 { 406737 }
    else if d == 25 { 422618 }
    else if d == 26 { 438371 }
    else if d == 27 { 453990 }
    else if d == 28 { 469472 }
    else if d == 29 { 484810 }
    else if d == 30 { 500000 }
    else if d == 31 { 515038 }
    else if d == 32 { 529919 }
    else if d == 33 { 544639 }
    else if d == 34 { 559193 }
    else if d == 35 { 573576 }
    else if d == 36 { 587785 }
    else if d == 37 { 601815 }
    else if d == 38 { 615661 }
    else if d == 39 { 629320 }
    else if d == 40 { 642788 }
    else if d == 41 { 656059 }
    else if d == 42 { 669131 }
    else if d == 43 { 681998 }
    else if d == 44 { 694658 }
    else if d == 45 { 707107 }
    else if d == 46 { 719340 }
    else if d == 47 { 731354 }
    else if d == 48 { 743145 }
    else if d == 49 { 754710 }
    else if d == 50 { 766044 }
    else if d == 51 { 777146 }
    else if d == 52 { 788011 }
    else if d == 53 { 798636 }
    else if d == 54 { 809017 }
    else if d == 55 { 819152 }
    else if d == 56 { 829038 }
    else if d == 57 { 838671 }
    else if d == 58 { 848048 }
    else if d == 59 { 857167 }
    else if d == 60 { 866025 }
    else if d == 61 { 874620 }
    else if d == 62 { 882948 }
    else if d == 63 { 891007 }
    else if d == 64 { 898794 }
    else if d == 65 { 906308 }
    else if d == 66 { 913545 }
    else if d == 67 { 920505 }
    else if d == 68 { 927184 }
    else if d == 69 { 933580 }
    else if d == 70 { 939693 }
    else if d == 71 { 945519 }
    else if d == 72 { 951057 }
    else if d == 73 { 956305 }
    else if d == 74 { 961262 }
    else if d == 75 { 965926 }
    else if d == 76 { 970296 }
    else if d == 77 { 974370 }
    else if d == 78 { 978148 }
    else if d == 79 { 981627 }
    else if d == 80 { 984808 }
    else if d == 81 { 987688 }
    else if d == 82 { 990268 }
    else if d == 83 { 992546 }
    else if d == 84 { 994522 }
    else if d == 85 { 996195 }
    else if d == 86 { 997564 }
    else if d == 87 { 998630 }
    else if d == 88 { 999391 }
    else if d == 89 { 999848 }
    else { 1000000 }
}

/// Table lookup for the first-quadrant sine of whole degrees.
pub fn quarter_sin(d: u32) -> (r: i64)
    requires
        d <= 90,
    ensures
        r == quarter_sin_spec(d as int),
        0 <= r <= SCALE,
{
    proof {
        reveal(quarter_sin_spec);
    }
    if d == 0 { 0 }
    else if d == 1 { 17452 }
    else if d == 2 { 34899 }
    else if d == 3 { 52336 }
    else if d == 4 { 69756 }
    else if d == 5 { 87156 }
    else if d == 6 { 104528 }
    else if d == 7 { 121869 }
    else if d == 8 { 139173 }
    else if d == 9 { 156434 }
    else if d == 10 { 173648 }
    else if d == 11 { 190809 }
    else if d == 12 { 207912 }
    else if d == 13 { 224951 }
    else if d == 14 { 241922 }
    else if d == 15 { 258819 }
    else if d == 16 { 275637 }
    else if d == 17 { 292372 }
    else if d == 18 { 309017 }
    else if d == 19 { 325568 }
    else if d == 20 { 342020 }
    else if d == 21 { 358368 }
    else if d == 22 { 374607 }
    else if d == 23 { 390731 }
    else if d == 24 { 406737 }
    else if d == 25 { 422618 }
    else if d == 26 { 438371 }
    else if d == 27 { 453990 }
    else if d == 28 { 469472 }
    else if d == 29 { 484810 }
    else if d == 30 { 500000 }
    else if d == 31 { 515038 }
    else if d == 32 { 529919 }
    else if d == 33 { 544639 }
    else if d == 34 { 559193 }
    else if d == 35 { 573576 }
    else if d == 36 { 587785 }
    else if d == 37 { 601815 }
    else if d == 38 { 615661 }
    else if d == 39 { 629320 }
    else if d == 40 { 642788 }
    else if d == 41 { 656059 }
    else if d == 42 { 669131 }
    else if d == 43 { 681998 }
    else if d == 44 { 694658 }
    else if d == 45 { 707107 }
    else if d == 46 { 719340 }
    else if d == 47 { 731354 }
    else if d == 48 { 743145 }
    else if d == 49 { 754710 }
    else if d == 50 { 766044 }
    else if d == 51 { 777146 }
    else if d == 52 { 788011 }
    else if d == 53 { 798636 }
    else if d == 54 { 809017 }
    else if d == 55 { 819152 }
    else if d == 56 { 829038 }
    else if d == 57 { 838671 }
    else if d == 58 { 848048 }
    else if d == 59 { 857167 }
    else if d == 60 { 866025 }
    else if d == 61 { 874620 }
    else if d == 62 { 882948 }
    else if d == 63 { 891007 }
    else if d == 64 { 898794 }
    else if d == 65 { 906308 }
    else if d == 66 { 913545 }
    else if d == 67 { 920505 }
    else if d == 68 { 927184 }
    else if d == 69 { 933580 }
    else if d == 70 { 939693 }
    else if d == 71 { 945519 }
    else if d == 72 { 951057 }
    else if d == 73 { 956305 }
    else if d == 74 { 961262 }
    else if d == 75 { 965926 }
    else if d == 76 { 970296 }
    else if d == 77 { 974370 }
    else if d == 78 { 978148 }
    else if d == 79 { 981627 }
    else if d == 80 { 984808 }
    else if d == 81 { 987688 }
    else if d == 82 { 990268 }
    else if d == 83 { 992546 }
    else if d == 84 { 994522 }
    else if d == 85 { 996195 }
    else if d == 86 { 997564 }
    else if d == 87 { 998630 }
    else if d == 88 { 999391 }
    else if d == 89 { 999848 }
    else { 1000000 }
}

/// The squared norm of a table entry paired with its complement.
pub open spec fn unit_norm_sq(d: int) -> int {
    quarter_sin_spec(d) * quarter_sin_spec(d) + quarter_sin_spec(90 - d) * quarter_sin_spec(90 - d)
}

/// Table entries and their complements square to one unit, within the
/// rounding of the table (part 1).
proof fn lemma_quarter_norm_0(d: int)
    requires
        0 <= d <= 30,
    ensures
        999999150000 <= unit_norm_sq(d) <= 1000001150000,
{
    reveal(quarter_sin_spec);
    if d == 0 {
        assert(quarter_sin_spec(d) == 0);
        assert(quarter_sin_spec(90 - d) == 1000000);
        assert(unit_norm_sq(d) == 1000000000000);
    } else if d == 1 {
        assert(quarter_sin_spec(d) == 17452);
        assert(quarter_sin_spec(90 - d) == 999848);
        assert(unit_norm_sq(d) == 1000000595408);
    } else if d == 2 {
        assert(quarter_sin_spec(d) == 34899);
        assert(quarter_sin_spec(90 - d) == 999391);
        assert(unit_norm_sq(d) == 1000000311082);
    } else if d == 3 {
        assert(quarter_sin_spec(d) == 52336);
        assert(quarter_sin_spec(90 - d) == 998630);
        assert(unit_norm_sq(d) == 1000000933796);
    } else if d == 4 {
        assert(quarter_sin_spec(d) == 69756);
        assert(quarter_sin_spec(90 - d) == 997564);
        assert(unit_norm_sq(d) == 999999833632);
    } else if d == 5 {
        assert(quarter_sin_spec(d) == 87156);
        assert(quarter_sin_spec(90 - d) == 996195);
        assert(unit_norm_sq(d) == 1000000646361);
    } else if d == 6 {
        assert(quarter_sin_spec(d) == 104528);
        assert(quarter_sin_spec(90 - d) == 994522);
        assert(unit_norm_sq(d) == 1000000111268);
    } else if d == 7 {
        assert(quarter_sin_spec(d) == 121869);
        assert(quarter_sin_spec(90 - d) == 992546);
        assert(unit_norm_sq(d) == 999999615277);
    } else if d == 8 {
        assert(quarter_sin_spec(d) == 139173);
        assert(quarter_sin_spec(90 - d) == 990268);
        assert(unit_norm_sq(d) == 999999835753);
    } else if d == 9 {
        assert(quarter_sin_spec(d) == 156434);
        assert(quarter_sin_spec(90 - d) == 987688);
        assert(unit_norm_sq(d) == 999999181700);
    } else if d == 10 {
        assert(quarter_sin_spec(d) == 173648);
        assert(quarter_sin_spec(90 - d) == 984808);
        assert(unit_norm_sq(d) == 1000000424768);
    } else if d == 11 {
        assert(quarter_sin_spec(d) == 190809);
        assert(quarter_sin_spec(90 - d) == 981627);
        assert(unit_norm_sq(d) == 999999641610);
    } else if d == 12 {
        assert(quarter_sin_spec(d) == 207912);
        assert(quarter_sin_spec(90 - d) == 978148);
        assert(unit_norm_sq(d) == 1000000909648);
    } else if d == 13 {
        assert(quarter_sin_spec(d) == 224951);
        assert(quarter_sin_spec(90 - d) == 974370);
        assert(unit_norm_sq(d) == 999999849301);
    } else if d == 14 {
        assert(quarter_sin_spec(d) == 241922);
        assert(quarter_sin_spec(90 - d) == 970296);
        assert(unit_norm_sq(d) == 1000000581700);
    } else if d == 15 {
        assert(quarter_sin_spec(d) == 258819);
        assert(quarter_sin_spec(90 - d) == 965926);
        assert(unit_norm_sq(d) == 1000000312237);
    } else if d == 16 {
        assert(quarter_sin_spec(d) == 275637);
        assert(quarter_sin_spec(90 - d) == 961262);
        assert(unit_norm_sq(d) == 1000000388413);
    } else if d == 17 {
        assert(quarter_sin_spec(d) == 292372);
        assert(quarter_sin_spec(90 - d) == 956305);
        assert(unit_norm_sq(d) == 1000000639409);
    } else if d == 18 {
        assert(quarter_sin_spec(d) == 309017);
        assert(quarter_sin_spec(90 - d) == 951057);
        assert(unit_norm_sq(d) == 1000000923538);
    } else if d == 19 {
        assert(quarter_sin_spec(d) == 325568);
        assert(quarter_sin_spec(90 - d) == 945519);
        assert(unit_norm_sq(d) == 1000000701985);
    } else if d == 20 {
        assert(quarter_sin_spec(d) == 342020);
        assert(quarter_sin_spec(90 - d) == 939693);
        assert(unit_norm_sq(d) == 1000000614649);
    } else if d == 21 {
        assert(quarter_sin_spec(d) == 358368);
        assert(quarter_sin_spec(90 - d) == 933580);
        assert(unit_norm_sq(d) == 999999239824);
    } else if d == 22 {
        assert(quarter_sin_spec(d) == 374607);
        assert(quarter_sin_spec(90 - d) == 927184);
        assert(unit_norm_sq(d) == 1000000574305);
    } else if d == 23 {
        assert(quarter_sin_spec(d) == 390731);
        assert(quarter_sin_spec(90 - d) == 920505);
        assert(unit_norm_sq(d) == 1000000169386);
    } else if d == 24 {
        assert(quarter_sin_spec(d) == 406737);
        assert(quarter_sin_spec(90 - d) == 913545);
        assert(unit_norm_sq(d) == 999999454194);
    } else if d == 25 {
        assert(quarter_sin_spec(d) == 422618);
        assert(quarter_sin_spec(90 - d) == 906308);
        assert(unit_norm_sq(d) == 1000000164788);
    } else if d == 26 {
        assert(quarter_sin_spec(d) == 438371);
        assert(quarter_sin_spec(90 - d) == 898794);
        assert(unit_norm_sq(d) == 999999788077);
    } else if d == 27 {
        assert(quarter_sin_spec(d) == 453990);
        assert(quarter_sin_spec(90 - d) == 891007);
        assert(unit_norm_sq(d) == 1000000394149);
    } else if d == 28 {
        assert(quarter_sin_spec(d) == 469472);
        assert(quarter_sin_spec(90 - d) == 882948);
        assert(unit_norm_sq(d) == 1000001129488);
    } else if d == 29 {
        assert(quarter_sin_spec(d) == 484810);
        assert(quarter_sin_spec(90 - d) == 874620);
        assert(unit_norm_sq(d) == 1000000880500);
    } else if d == 30 {
        assert(quarter_sin_spec(d) == 500000);
        assert(quarter_sin_spec(90 - d) == 866025);
        assert(unit_norm_sq(d) == 999999300625);
    }
}

/// Table entries and their complements square to one unit, within the
/// rounding of the table (part 2).
proof fn lemma_quarter_norm_1(d: int)
    requires
        31 <= d <= 60,
    ensures
        999999150000 <= unit_norm_sq(d) <= 1000001150000,
{
    reveal(quarter_sin_spec);
    if d == 31 {
        assert(quarter_sin_spec(d) == 515038);
        assert(quarter_sin_spec(90 - d) == 857167);
        assert(unit_norm_sq(d) == 999999407333);
    } else if d == 32 {
        assert(quarter_sin_spec(d) == 529919);
        assert(quarter_sin_spec(90 - d) == 848048);
        assert(unit_norm_sq(d) == 999999556865);
    } else if d == 33 {
        assert(quarter_sin_spec(d) == 544639);
        assert(quarter_sin_spec(90 - d) == 838671);
        assert(unit_norm_sq(d) == 1000000686562);
    } else if d == 34 {
        assert(quarter_sin_spec(d) == 559193);
        assert(quarter_sin_spec(90 - d) == 829038);
        assert(unit_norm_sq(d) == 1000000816693);
    } else if d == 35 {
        assert(quarter_sin_spec(d) == 573576);
        assert(quarter_sin_spec(90 - d) == 819152);
        assert(unit_norm_sq(d) == 999999426880);
    } else if d == 36 {
        assert(quarter_sin_spec(d) == 587785);
        assert(quarter_sin_spec(90 - d) == 809017);
        assert(unit_norm_sq(d) == 999999712514);
    } else if d == 37 {
        assert(quarter_sin_spec(d) == 601815);
        assert(quarter_sin_spec(90 - d) == 798636);
        assert(unit_norm_sq(d) == 1000000754721);
    } else if d == 38 {
        assert(quarter_sin_spec(d) == 615661);
        assert(quarter_sin_spec(90 - d) == 788011);
        assert(unit_norm_sq(d) == 999999803042);
    } else if d == 39 {
        assert(quarter_sin_spec(d) == 629320);
        assert(quarter_sin_spec(90 - d) == 777146);
        assert(unit_norm_sq(d) == 999999567716);
    } else if d == 40 {
        assert(quarter_sin_spec(d) == 642788);
        assert(quarter_sin_spec(90 - d) == 766044);
        assert(unit_norm_sq(d) == 999999822880);
    } else if d == 41 {
        assert(quarter_sin_spec(d) == 656059);
        assert(quarter_sin_spec(90 - d) == 754710);
        assert(unit_norm_sq(d) == 1000000595581);
    } else if d == 42 {
        assert(quarter_sin_spec(d) == 669131);
        assert(quarter_sin_spec(90 - d) == 743145);
        assert(unit_norm_sq(d) == 1000000786186);
    } else if d == 43 {
        assert(quarter_sin_spec(d) == 681998);
        assert(quarter_sin_spec(90 - d) == 731354);
        assert(unit_norm_sq(d) == 999999945320);
    } else if d == 44 {
        assert(quarter_sin_spec(d) == 694658);
        assert(quarter_sin_spec(90 - d) == 719340);
        assert(unit_norm_sq(d) == 999999772564);
    } else if d == 45 {
        assert(quarter_sin_spec(d) == 707107);
        assert(quarter_sin_spec(90 - d) == 707107);
        assert(unit_norm_sq(d) == 1000000618898);
    } else if d == 46 {
        assert(quarter_sin_spec(d) == 719340);
        assert(quarter_sin_spec(90 - d) == 694658);
        assert(unit_norm_sq(d) == 999999772564);
    } else if d == 47 {
        assert(quarter_sin_spec(d) == 731354);
        assert(quarter_sin_spec(90 - d) == 681998);
        assert(unit_norm_sq(d) == 999999945320);
    } else if d == 48 {
        assert(quarter_sin_spec(d) == 743145);
        assert(quarter_sin_spec(90 - d) == 669131);
        assert(unit_norm_sq(d) == 1000000786186);
    } else if d == 49 {
        assert(quarter_sin_spec(d) == 754710);
        assert(quarter_sin_spec(90 - d) == 656059);
        assert(unit_norm_sq(d) == 1000000595581);
    } else if d == 50 {
        assert(quarter_sin_spec(d) == 766044);
        assert(quarter_sin_spec(90 - d) == 642788);
        assert(unit_norm_sq(d) == 999999822880);
    } else if d == 51 {
        assert(quarter_sin_spec(d) == 777146);
        assert(quarter_sin_spec(90 - d) == 629320);
        assert(unit_norm_sq(d) == 999999567716);
    } else if d == 52 {
        assert(quarter_sin_spec(d) == 788011);
        assert(quarter_sin_spec(90 - d) == 615661);
        assert(unit_norm_sq(d) == 999999803042);
    } else if d == 53 {
        assert(quarter_sin_spec(d) == 798636);
        assert(quarter_sin_spec(90 - d) == 601815);
        assert(unit_norm_sq(d) == 1000000754721);
    } else if d == 54 {
        assert(quarter_sin_spec(d) == 809017);
        assert(quarter_sin_spec(90 - d) == 587785);
        assert(unit_norm_sq(d) == 999999712514);
    } else if d == 55 {
        assert(quarter_sin_spec(d) == 819152);
        assert(quarter_sin_spec(90 - d) == 573576);
        assert(unit_norm_sq(d) == 999999426880);
    } else if d == 56 {
        assert(quarter_sin_spec(d) == 829038);
        assert(quarter_sin_spec(90 - d) == 559193);
        assert(unit_norm_sq(d) == 1000000816693);
    } else if d == 57 {
        assert(quarter_sin_spec(d) == 838671);
        assert(quarter_sin_spec(90 - d) == 544639);
        assert(unit_norm_sq(d) == 1000000686562);
    } else if d == 58 {
        assert(quarter_sin_spec(d) == 848048);
        assert(quarter_sin_spec(90 - d) == 529919);
        assert(unit_norm_sq(d) == 999999556865);
    } else if d == 59 {
        assert(quarter_sin_spec(d) == 857167);
        assert(quarter_sin_spec(90 - d) == 515038);
        assert(unit_norm_sq(d) == 999999407333);
    } else if d == 60 {
        assert(quarter_sin_spec(d) == 866025);
        assert(quarter_sin_spec(90 - d) == 500000);
        assert(unit_norm_sq(d) == 999999300625);
    }
}

/// Table entries and their complements square to one unit, within the
/// rounding of the table (part 3).
proof fn lemma_quarter_norm_2(d: int)
    requires
        61 <= d <= 90,
    ensures
        999999150000 <= unit_norm_sq(d) <= 1000001150000,
{
    reveal(quarter_sin_spec);
    if d == 61 {
        assert(quarter_sin_spec(d) == 874620);
        assert(quarter_sin_spec(90 - d) == 484810);
        assert(unit_norm_sq(d) == 1000000880500);
    } else if d == 62 {
        assert(quarter_sin_spec(d) == 882948);
        assert(quarter_sin_spec(90 - d) == 469472);
        assert(unit_norm_sq(d) == 1000001129488);
    } else if d == 63 {
        assert(quarter_sin_spec(d) == 891007);
        assert(quarter_sin_spec(90 - d) == 453990);
        assert(unit_norm_sq(d) == 1000000394149);
    } else if d == 64 {
        assert(quarter_sin_spec(d) == 898794);
        assert(quarter_sin_spec(90 - d) == 438371);
        assert(unit_norm_sq(d) == 999999788077);
    } else if d == 65 {
        assert(quarter_sin_spec(d) == 906308);
        assert(quarter_sin_spec(90 - d) == 422618);
        assert(unit_norm_sq(d) == 1000000164788);
    } else if d == 66 {
        assert(quarter_sin_spec(d) == 913545);
        assert(quarter_sin_spec(90 - d) == 406737);
        assert(unit_norm_sq(d) == 999999454194);
    } else if d == 67 {
        assert(quarter_sin_spec(d) == 920505);
        assert(quarter_sin_spec(90 - d) == 390731);
        assert(unit_norm_sq(d) == 1000000169386);
    } else if d == 68 {
        assert(quarter_sin_spec(d) == 927184);
        assert(quarter_sin_spec(90 - d) == 374607);
        assert(unit_norm_sq(d) == 1000000574305);
    } else if d == 69 {
        assert(quarter_sin_spec(d) == 933580);
        assert(quarter_sin_spec(90 - d) == 358368);
        assert(unit_norm_sq(d) == 999999239824);
    } else if d == 70 {
        assert(quarter_sin_spec(d) == 939693);
        assert(quarter_sin_spec(90 - d) == 342020);
        assert(unit_norm_sq(d) == 1000000614649);
    } else if d == 71 {
        assert(quarter_sin_spec(d) == 945519);
        assert(quarter_sin_spec(90 - d) == 325568);
        assert(unit_norm_sq(d) == 1000000701985);
    } else if d == 72 {
        assert(quarter_sin_spec(d) == 951057);
        assert(quarter_sin_spec(90 - d) == 309017);
        assert(unit_norm_sq(d) == 1000000923538);
    } else if d == 73 {
        assert(quarter_sin_spec(d) == 956305);
        assert(quarter_sin_spec(90 - d) == 292372);
        assert(unit_norm_sq(d) == 1000000639409);
    } else if d == 74 {
        assert(quarter_sin_spec(d) == 961262);
        assert(quarter_sin_spec(90 - d) == 275637);
        assert(unit_norm_sq(d) == 1000000388413);
    } else if d == 75 {
        assert(quarter_sin_spec(d) == 965926);
        assert(quarter_sin_spec(90 - d) == 258819);
        assert(unit_norm_sq(d) == 1000000312237);
    } else if d == 76 {
        assert(quarter_sin_spec(d) == 970296);
        assert(quarter_sin_spec(90 - d) == 241922);
        assert(unit_norm_sq(d) == 1000000581700);
    } else if d == 77 {
        assert(quarter_sin_spec(d) == 974370);
        assert(quarter_sin_spec(90 - d) == 224951);
        assert(unit_norm_sq(d) == 999999849301);
    } else if d == 78 {
        assert(quarter_sin_spec(d) == 978148);
        assert(quarter_sin_spec(90 - d) == 207912);
        assert(unit_norm_sq(d) == 1000000909648);
    } else if d == 79 {
        assert(quarter_sin_spec(d) == 981627);
        assert(quarter_sin_spec(90 - d) == 190809);
        assert(unit_norm_sq(d) == 999999641610);
    } else if d == 80 {
        assert(quarter_sin_spec(d) == 984808);
        assert(quarter_sin_spec(90 - d) == 173648);
        assert(unit_norm_sq(d) == 1000000424768);
    } else if d == 81 {
        assert(quarter_sin_spec(d) == 987688);
        assert(quarter_sin_spec(90 - d) == 156434);
        assert(unit_norm_sq(d) == 999999181700);
    } else if d == 82 {
        assert(quarter_sin_spec(d) == 990268);
        assert(quarter_sin_spec(90 - d) == 139173);
        assert(unit_norm_sq(d) == 999999835753);
    } else if d == 83 {
        assert(quarter_sin_spec(d) == 992546);
        assert(quarter_sin_spec(90 - d) == 121869);
        assert(unit_norm_sq(d) == 999999615277);
    } else if d == 84 {
        assert(quarter_sin_spec(d) == 994522);
        assert(quarter_sin_spec(90 - d) == 104528);
        assert(unit_norm_sq(d) == 1000000111268);
    } else if d == 85 {
        assert(quarter_sin_spec(d) == 996195);
        assert(quarter_sin_spec(90 - d) == 87156);
        assert(unit_norm_sq(d) == 1000000646361);
    } else if d == 86 {
        assert(quarter_sin_spec(d) == 997564);
        assert(quarter_sin_spec(90 - d) == 69756);
        assert(unit_norm_sq(d) == 999999833632);
    } else if d == 87 {
        assert(quarter_sin_spec(d) == 998630);
        assert(quarter_sin_spec(90 - d) == 52336);
        assert(unit_norm_sq(d) == 1000000933796);
    } else if d == 88 {
        assert(quarter_sin_spec(d) == 999391);
        assert(quarter_sin_spec(90 - d) == 34899);
        assert(unit_norm_sq(d) == 1000000311082);
    } else if d == 89 {
        assert(quarter_sin_spec(d) == 999848);
        assert(quarter_sin_spec(90 - d) == 17452);
        assert(unit_norm_sq(d) == 1000000595408);
    } else if d == 90 {
        assert(quarter_sin_spec(d) == 1000000);
        assert(quarter_sin_spec(90 - d) == 0);
        assert(unit_norm_sq(d) == 1000000000000);
    }
}

/// A first-quadrant table entry and its complement square to one unit,
/// within the rounding of the table.
pub proof fn lemma_quarter_norm(d: int)
    requires
        0 <= d <= 90,
    ensures
        999999150000 <= unit_norm_sq(d) <= 1000001150000,
{
    if d <= 30 {
        lemma_quarter_norm_0(d);
    } else if d <= 60 {
        lemma_quarter_norm_1(d);
    } else {
        lemma_quarter_norm_2(d);
    }
}


/// Sine of a whole number of degrees anywhere on the circle, folded onto the
/// first-quadrant table by symmetry.
pub open spec fn sin_deg_spec(d: int) -> int {
    if d <= 90 {
        quarter_sin_spec(d)
    } else if d <= 180 {
        quarter_sin_spec(180 - d)
    } else if d <= 270 {
        -quarter_sin_spec(d - 180)
    } else {
        -quarter_sin_spec(360 - d)
    }
}

/// Cosine of a whole number of degrees: the sine a quarter turn further on.
pub open spec fn cos_deg_spec(d: int) -> int {
    sin_deg_spec((d + 90) % 360)
}

/// Sine of a whole number of degrees, in millionths.
pub fn sin_deg(d: u32) -> (r: i64)
    requires
        d < 360,
    ensures
        r == sin_deg_spec(d as int),
        -SCALE <= r <= SCALE,
{
    if d <= 90 {
        quarter_sin(d)
    } else if d <= 180 {
        quarter_sin(180 - d)
    } else if d <= 270 {
        -quarter_sin(d - 180)
    } else {
        -quarter_sin(360 - d)
    }
}

/// Cosine of a whole number of degrees, in millionths.
pub fn cos_deg(d: u32) -> (r: i64)
    requires
        d < 360,
    ensures
        r == cos_deg_spec(d as int),
        -SCALE <= r <= SCALE,
{
    sin_deg((d + 90) % 360)
}

/// The sine and cosine of one whole-degree angle square to one unit, within
/// the rounding of the table.
pub proof fn lemma_deg_norm(d: int)
    requires
        0 <= d < 360,
    ensures
        1000000 * 1000000 - 850000
            <= sin_deg_spec(d) * sin_deg_spec(d) + cos_deg_spec(d) * cos_deg_spec(d)
            <= 1000000 * 1000000 + 1150000,
{
    let s = sin_deg_spec(d);
    let c = cos_deg_spec(d);
    if d <= 90 {
        assert((d + 90) % 360 == d + 90);
        assert(c == quarter_sin_spec(90 - d));
        lemma_quarter_norm(d);
    } else if d <= 180 {
        assert((d + 90) % 360 == d + 90);
        assert(c == -quarter_sin_spec(d - 90));
        let j = d - 90;
        assert(s == quarter_sin_spec(90 - j));
        lemma_quarter_norm(j);
        assert(c * c == quarter_sin_spec(j) * quarter_sin_spec(j)) by (nonlinear_arith)
            requires
                c == -quarter_sin_spec(j),
        ;
        assert(s * s + c * c == unit_norm_sq(90 - j));
        lemma_quarter_norm(90 - j);
    } else if d <= 269 {
        assert((d + 90) % 360 == d + 90);
        assert(c == -quarter_sin_spec(270 - d));
        let j = d - 180;
        assert(s == -quarter_sin_spec(j));
        lemma_quarter_norm(j);
        assert(s * s == quarter_sin_spec(j) * quarter_sin_spec(j)) by (nonlinear_arith)
            requires
                s == -quarter_sin_spec(j),
        ;
        assert(c * c == quarter_sin_spec(90 - j) * quarter_sin_spec(90 - j)) by (nonlinear_arith)
            requires
                c == -quarter_sin_spec(90 - j),
        ;
        assert(s * s + c * c == unit_norm_sq(j));
    } else {
        assert((d + 90) % 360 == d + 90 - 360);
        let j = 360 - d;
        assert(s == -quarter_sin_spec(j));
        assert(c == quarter_sin_spec(90 - j));
        lemma_quarter_norm(j);
        assert(s * s == quarter_sin_spec(j) * quarter_sin_spec(j)) by (nonlinear_arith)
            requires
                s == -quarter_sin_spec(j),
        ;
        assert(s * s + c * c == unit_norm_sq(j));
    }
}

/// The truncated power series for the sine on the first quadrant, in the
/// fixed-point arithmetic of `div_scale`, clamped into `[0, SCALE]`. The
/// quarter-turn endpoint is pinned to exactly one unit, so that folding a
/// right angle onto it is exact: the cosine of zero is one unit, and a
/// zero-angle swing is the identity.
pub open spec fn sin_poly_spec(t: int) -> int {
    if t == HALF_PI_FP {
        SCALE as int
    } else {
        sin_series_spec(t)
    }
}

/// The series itself, before the endpoint is pinned.
pub open spec fn sin_series_spec(t: int) -> int {
    let t2 = div_scale(t * t);
    let t3 = div_scale(t2 * t);
    let t5 = div_scale(div_scale(t3 * t) * t);
    let t7 = div_scale(div_scale(t5 * t) * t);
    let raw = t - t3 / 6 + t5 / 120 - t7 / 5040;
    if raw < 0 {
        0
    } else if raw > SCALE {
        SCALE as int
    } else {
        raw
    }
}

/// Evaluates the first-quadrant sine series.
pub fn sin_poly(t: i64) -> (r: i64)
    requires
        0 <= t <= HALF_PI_FP,
    ensures
        r == sin_poly_spec(t as int),
        0 <= r <= SCALE,
{
    if t == HALF_PI_FP {
        return SCALE;
    }
    proof {
        lemma_fmul_le(t as int, t as int, HALF_PI_FP as int, HALF_PI_FP as int);
    }
    let t2: i64 = fixed_mul(t, t);
    proof {
        assert(t as int * t as int >= 0) by (nonlinear_arith);
        lemma_fmul_le(t2 as int, t as int, 2467401, HALF_PI_FP as int);
    }
    let t3: i64 = fixed_mul(t2, t);
    proof {
        assert(t2 as int * t as int >= 0) by (nonlinear_arith)
            requires
                t2 >= 0 && t >= 0,
        ;
        lemma_fmul_le(t3 as int, t as int, 3875784, HALF_PI_FP as int);
    }
    let t4: i64 = fixed_mul(t3, t);
    proof {
        assert(t3 as int * t as int >= 0) by (nonlinear_arith)
            requires
                t3 >= 0 && t >= 0,
        ;
        lemma_fmul_le(t4 as int, t as int, 6088067, HALF_PI_FP as int);
    }
    let t5: i64 = fixed_mul(t4, t);
    proof {
        assert(t4 as int * t as int >= 0) by (nonlinear_arith)
            requires
                t4 >= 0 && t >= 0,
        ;
        lemma_fmul_le(t5 as int, t as int, 9563112, HALF_PI_FP as int);
    }
    let t6: i64 = fixed_mul(t5, t);
    proof {
        assert(t5 as int * t as int >= 0) by (nonlinear_arith)
            requires
                t5 >= 0 && t >= 0,
        ;
        lemma_fmul_le(t6 as int, t as int, 15021699, HALF_PI_FP as int);
    }
    let t7: i64 = fixed_mul(t6, t);
    proof {
        assert(t6 as int * t as int >= 0) by (nonlinear_arith)
            requires
                t6 >= 0 && t >= 0,
        ;
    }
    let d3: i64 = ((t3 as u64) / 6) as i64;
    let d5: i64 = ((t5 as u64) / 120) as i64;
    let d7: i64 = ((t7 as u64) / 5040) as i64;
    let raw: i64 = t - d3 + d5 - d7;
    if raw < 0 {
        0
    } else if raw > SCALE {
        SCALE
    } else {
        raw
    }
}

/// Sine of a fixed-point angle in radians: the angle is reduced into one
/// turn, folded onto the first quadrant, and fed to the series.
pub open spec fn sin_fp_spec(x: int) -> int {
    let r = wrap_angle(x);
    if r <= HALF_PI_FP {
        sin_poly_spec(r)
    } else if r <= PI_FP {
        sin_poly_spec(PI_FP - r)
    } else if r <= PI_FP + HALF_PI_FP {
        -sin_poly_spec(r - PI_FP)
    } else {
        -sin_poly_spec(TWO_PI_FP - r)
    }
}

/// Cosine of a fixed-point angle in radians: the sine a quarter turn on.
pub open spec fn cos_fp_spec(x: int) -> int {
    sin_fp_spec(wrap_angle(x) + HALF_PI_FP)
}

/// Sine of a fixed-point angle in radians, in millionths.
pub fn sin_fp(x: i64) -> (r: i64)
    ensures
        r == sin_fp_spec(x as int),
        -SCALE <= r <= SCALE,
{
    let w: i64 = wrap_angle_wide(x as i128);
    if w <= HALF_PI_FP {
        sin_poly(w)
    } else if w <= PI_FP {
        sin_poly(PI_FP - w)
    } else if w <= PI_FP + HALF_PI_FP {
        -sin_poly(w - PI_FP)
    } else {
        -sin_poly(TWO_PI_FP - w)
    }
}

/// Cosine of a fixed-point angle in radians, in millionths.
pub fn cos_fp(x: i64) -> (r: i64)
    ensures
        r == cos_fp_spec(x as int),
        -SCALE <= r <= SCALE,
{
    let w: i64 = wrap_angle_wide(x as i128);
    sin_fp(w + HALF_PI_FP)
}

/// A whole number of degrees as fixed-point radians.
pub open spec fn deg_to_rad_spec(d: int) -> int {
    (d * (PI_FP as int)) / 180
}

/// Converts a whole number of degrees to fixed-point radians.
pub fn deg_to_rad(d: u32) -> (r: i64)
    requires
        d < 360,
    ensures
        r == deg_to_rad_spec(d as int),
        0 <= r < TWO_PI_FP,
{
    proof {
        assert(d as int * (PI_FP as int) <= 359 * (PI_FP as int));
        vstd::arithmetic::div_mod::lemma_div_is_ordered(
            d as int * (PI_FP as int), 359 * (PI_FP as int), 180);
    }
    (((d as u64) * (PI_FP as u64)) / 180) as i64
}

/// A fixed-point count of degrees as fixed-point radians: used for the
/// wobble rule, whose wave height is read as a number of degrees.
pub open spec fn deg_value_to_rad_spec(v: int) -> int {
    (v * (PI_FP as int)) / (180 * (SCALE as int))
}

/// Converts a fixed-point count of degrees to fixed-point radians.
pub fn deg_value_to_rad(v: i64) -> (r: i64)
    requires
        0 <= v < QUARTER_PI_FP,
    ensures
        r == deg_value_to_rad_spec(v as int),
        0 <= r < 14000,
{
    proof {
        assert(v as int * (PI_FP as int) <= (QUARTER_PI_FP as int) * (PI_FP as int));
        vstd::arithmetic::div_mod::lemma_div_is_ordered(
            v as int * (PI_FP as int), (QUARTER_PI_FP as int) * (PI_FP as int),
            180 * (SCALE as int));
    }
    (((v as u64) * (PI_FP as u64)) / (180 * (SCALE as u64))) as i64
}

} // verus!
