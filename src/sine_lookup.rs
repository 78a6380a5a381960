//! Fixed-point sine lookup.
//!
//! The table holds one quarter wave, `sin(d°) * SCALING_FACTOR` truncated for
//! `d` in `0..=90`; the other three quarters follow by symmetry, so the
//! full wave is exactly odd about 180°.
use vstd::prelude::*;

pub mod lookup;

verus! {

/// Number of table points in a full turn, one per degree.
pub const SAMPLE_POINTS: u32 = 360;

/// Fixed-point scale of the table: an entry of `SCALING_FACTOR` stands for 1.0.
pub const SCALING_FACTOR: i32 = 65535;

/// The quarter-wave table, indexed by degree in `0..=90`.
pub open spec fn quarter_wave() -> Seq<i32> {
    seq![0, 1143, 2287, 3429, 4571, 5711, 6850, 7986, 9120, 10251, 11380, 12504, 13625, 14742, 15854, 16961, 18063, 19160,
        20251, 21336, 22414, 23485, 24549, 25606, 26655, 27696, 28728, 29752, 30766, 31772, 32767, 33753, 34728, 35692,
        36646, 37589, 38520, 39439, 40347, 41242, 42125, 42994, 43851, 44694, 45524, 46340, 47141, 47929, 48702, 49459,
        50202, 50930, 51642, 52338, 53018, 53683, 54330, 54962, 55576, 56174, 56754, 57318, 57863, 58392, 58902, 59394,
        59869, 60325, 60762, 61182, 61582, 61964, 62327, 62671, 62996, 63301, 63588, 63855, 64102, 64330, 64539, 64728,
        64897, 65046, 65175, 65285, 65375, 65445, 65495, 65525, 65535]
}

/// Scaled sine of a whole degree `d` in `[0, 360)`, unfolded from the quarter wave.
pub open spec fn sine_table(d: int) -> int {
    if d <= 90 {
        quarter_wave()[d] as int
    } else if d <= 180 {
        quarter_wave()[180 - d] as int
    } else if d <= 270 {
        -(quarter_wave()[d - 180] as int)
    } else {
        -(quarter_wave()[360 - d] as int)
    }
}

/// Every quarter-wave entry lies in `[0, SCALING_FACTOR]`, and the ends are 0 and 1.0.
pub proof fn lemma_quarter_wave_bounds()
    ensures
        quarter_wave().len() == 91,
        quarter_wave()[0] == 0,
        quarter_wave()[90] == SCALING_FACTOR,
        forall|i: int| 0 <= i <= 90 ==> 0 <= #[trigger] quarter_wave()[i] <= SCALING_FACTOR,
{
    assert forall|i: int| 0 <= i <= 90 implies 0 <= #[trigger] quarter_wave()[i] <= SCALING_FACTOR by {}
}

/// Scaled sine of a whole degree in `[0, 360)`.
pub fn sine_entry(d: u32) -> (r: i32)
    requires
        d < 360,
    ensures
        r as int == sine_table(d as int),
        -SCALING_FACTOR <= r <= SCALING_FACTOR,
{
    let quarter: [i32; 91] = [0, 1143, 2287, 3429, 4571, 5711, 6850, 7986, 9120, 10251, 11380, 12504, 13625, 14742, 15854, 16961, 18063, 19160,
        20251, 21336, 22414, 23485, 24549, 25606, 26655, 27696, 28728, 29752, 30766, 31772, 32767, 33753, 34728, 35692,
        36646, 37589, 38520, 39439, 40347, 41242, 42125, 42994, 43851, 44694, 45524, 46340, 47141, 47929, 48702, 49459,
        50202, 50930, 51642, 52338, 53018, 53683, 54330, 54962, 55576, 56174, 56754, 57318, 57863, 58392, 58902, 59394,
        59869, 60325, 60762, 61182, 61582, 61964, 62327, 62671, 62996, 63301, 63588, 63855, 64102, 64330, 64539, 64728,
        64897, 65046, 65175, 65285, 65375, 65445, 65495, 65525, 65535];
    assert(quarter@ == quarter_wave());
    proof {
        lemma_quarter_wave_bounds();
    }
    if d <= 90 {
        quarter[d as usize]
    } else if d <= 180 {
        quarter[(180 - d) as usize]
    } else if d <= 270 {
        -quarter[(d - 180) as usize]
    } else {
        -quarter[(360 - d) as usize]
    }
}

} // verus!
