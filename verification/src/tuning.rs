//! The frequencies of the pitches in twelve-tone equal temperament: from one
//! semitone to the next the frequency grows by the twelfth root of two.

use crate::notes::Note;
use vstd::arithmetic::power::{lemma_pow1, lemma_pow_adds, pow};
use vstd::arithmetic::power2::{lemma2_to64, lemma2_to64_rest, lemma_pow2_adds, pow2};
use vstd::prelude::*;

verus! {

/// The frequency of `C0` in microhertz: 16.35160 Hz.
pub const C0_MICROHERTZ: u64 = 16_351_600;

/// `f` is the frequency in microhertz, rounded down, of the pitch `n`
/// semitones above `C0`: the greatest integer that is at most
/// `C0_MICROHERTZ * 2^(n/12)`. Both bounds are raised to the twelfth power, so
/// that no root is left in them.
pub open spec fn is_frequency(n: nat, f: int) -> bool {
    &&& 0 <= f
    &&& pow(f, 12) <= pow(C0_MICROHERTZ as int, 12) * pow2(n) < pow(f + 1, 12)
}

impl Note {
    /// The frequency of the pitch in microhertz, rounded down.
    pub open spec fn freq_spec(self) -> u64 {
        match self {
            Note::C0 => 16_351_600,
            Note::D0b => 17_323_916,
            Note::D0 => 18_354_050,
            Note::E0b => 19_445_439,
            Note::E0 => 20_601_725,
            Note::F0 => 21_826_767,
            Note::G0b => 23_124_654,
            Note::G0 => 24_499_717,
            Note::A0b => 25_956_547,
            Note::A0 => 27_500_003,
            Note::B0b => 29_135_238,
            Note::B0 => 30_867_710,
            Note::C1 => 32_703_200,
            Note::D1b => 34_647_833,
            Note::D1 => 36_708_100,
            Note::E1b => 38_890_878,
            Note::E1 => 41_203_450,
            Note::F1 => 43_653_534,
            Note::G1b => 46_249_308,
            Note::G1 => 48_999_435,
            Note::A1b => 51_913_094,
            Note::A1 => 55_000_007,
            Note::B1b => 58_270_477,
            Note::B1 => 61_735_420,
            Note::C2 => 65_406_400,
            Note::D2b => 69_295_666,
            Note::D2 => 73_416_201,
            Note::E2b => 77_781_756,
            Note::E2 => 82_406_900,
            Note::F2 => 87_307_069,
            Note::G2b => 92_498_617,
            Note::G2 => 97_998_871,
            Note::A2b => 103_826_188,
            Note::A2 => 110_000_014,
            Note::B2b => 116_540_955,
            Note::B2 => 123_470_841,
            Note::C3 => 130_812_800,
            Note::D3b => 138_591_333,
            Note::D3 => 146_832_403,
            Note::E3b => 155_563_512,
            Note::E3 => 164_813_800,
            Note::F3 => 174_614_138,
            Note::G3b => 184_997_235,
            Note::G3 => 195_997_743,
            Note::A3b => 207_652_376,
            Note::A3 => 220_000_029,
            Note::B3b => 233_081_911,
            Note::B3 => 246_941_683,
            Note::C4 => 261_625_600,
            Note::D4b => 277_182_667,
            Note::D4 => 293_664_806,
            Note::E4b => 311_127_024,
            Note::E4 => 329_627_600,
            Note::F4 => 349_228_277,
            Note::G4b => 369_994_471,
            Note::G4 => 391_995_487,
            Note::A4b => 415_304_752,
            Note::A4 => 440_000_058,
            Note::B4b => 466_163_823,
            Note::B4 => 493_883_366,
            Note::C5 => 523_251_200,
            Note::D5b => 554_365_335,
            Note::D5 => 587_329_613,
            Note::E5b => 622_254_049,
            Note::E5 => 659_255_201,
            Note::F5 => 698_456_555,
            Note::G5b => 739_988_943,
            Note::G5 => 783_990_975,
            Note::A5b => 830_609_505,
            Note::A5 => 880_000_116,
            Note::B5b => 932_327_646,
            Note::B5 => 987_766_733,
            Note::C6 => 1_046_502_400,
            Note::D6b => 1_108_730_670,
            Note::D6 => 1_174_659_227,
            Note::E6b => 1_244_508_099,
            Note::E6 => 1_318_510_402,
            Note::F6 => 1_396_913_111,
            Note::G6b => 1_479_977_887,
            Note::G6 => 1_567_981_951,
            Note::A6b => 1_661_219_010,
            Note::A6 => 1_760_000_233,
            Note::B6b => 1_864_655_293,
            Note::B6 => 1_975_533_467,
            Note::C7 => 2_093_004_800,
            Note::D7b => 2_217_461_341,
            Note::D7 => 2_349_318_454,
            Note::E7b => 2_489_016_199,
            Note::E7 => 2_637_020_805,
            Note::F7 => 2_793_826_222,
            Note::G7b => 2_959_955_774,
            Note::G7 => 3_135_963_903,
            Note::A7b => 3_322_438_021,
            Note::A7 => 3_520_000_466,
            Note::B7b => 3_729_310_586,
            Note::B7 => 3_951_066_934,
            Note::C8 => 4_186_009_600,
            Note::D8b => 4_434_922_683,
            Note::D8 => 4_698_636_909,
            Note::E8b => 4_978_032_399,
            Note::E8 => 5_274_041_610,
            Note::F8 => 5_587_652_444,
            Note::G8b => 5_919_911_548,
            Note::G8 => 6_271_927_807,
            Note::A8b => 6_644_876_042,
            Note::A8 => 7_040_000_933,
            Note::B8b => 7_458_621_173,
            Note::B8 => 7_902_133_868,
        }
    }

    /// The frequency of the pitch in microhertz, rounded down: less than a
    /// microhertz below `16.35160 Hz * 2^(ordinal/12)`.
    pub fn freq(&self) -> (f: u64)
        ensures
            f == self.freq_spec(),
            is_frequency(self.ordinal_spec() as nat, f as int),
    {
        proof {
            lemma_freq_is_equal_tempered(*self);
        }
        match self {
            Note::C0 => 16_351_600,
            Note::D0b => 17_323_916,
            Note::D0 => 18_354_050,
            Note::E0b => 19_445_439,
            Note::E0 => 20_601_725,
            Note::F0 => 21_826_767,
            Note::G0b => 23_124_654,
            Note::G0 => 24_499_717,
            Note::A0b => 25_956_547,
            Note::A0 => 27_500_003,
            Note::B0b => 29_135_238,
            Note::B0 => 30_867_710,
            Note::C1 => 32_703_200,
            Note::D1b => 34_647_833,
            Note::D1 => 36_708_100,
            Note::E1b => 38_890_878,
            Note::E1 => 41_203_450,
            Note::F1 => 43_653_534,
            Note::G1b => 46_249_308,
            Note::G1 => 48_999_435,
            Note::A1b => 51_913_094,
            Note::A1 => 55_000_007,
            Note::B1b => 58_270_477,
            Note::B1 => 61_735_420,
            Note::C2 => 65_406_400,
            Note::D2b => 69_295_666,
            Note::D2 => 73_416_201,
            Note::E2b => 77_781_756,
            Note::E2 => 82_406_900,
            Note::F2 => 87_307_069,
            Note::G2b => 92_498_617,
            Note::G2 => 97_998_871,
            Note::A2b => 103_826_188,
            Note::A2 => 110_000_014,
            Note::B2b => 116_540_955,
            Note::B2 => 123_470_841,
            Note::C3 => 130_812_800,
            Note::D3b => 138_591_333,
            Note::D3 => 146_832_403,
            Note::E3b => 155_563_512,
            Note::E3 => 164_813_800,
            Note::F3 => 174_614_138,
            Note::G3b => 184_997_235,
            Note::G3 => 195_997_743,
            Note::A3b => 207_652_376,
            Note::A3 => 220_000_029,
            Note::B3b => 233_081_911,
            Note::B3 => 246_941_683,
            Note::C4 => 261_625_600,
            Note::D4b => 277_182_667,
            Note::D4 => 293_664_806,
            Note::E4b => 311_127_024,
            Note::E4 => 329_627_600,
            Note::F4 => 349_228_277,
            Note::G4b => 369_994_471,
            Note::G4 => 391_995_487,
            Note::A4b => 415_304_752,
            Note::A4 => 440_000_058,
            Note::B4b => 466_163_823,
            Note::B4 => 493_883_366,
            Note::C5 => 523_251_200,
            Note::D5b => 554_365_335,
            Note::D5 => 587_329_613,
            Note::E5b => 622_254_049,
            Note::E5 => 659_255_201,
            Note::F5 => 698_456_555,
            Note::G5b => 739_988_943,
            Note::G5 => 783_990_975,
            Note::A5b => 830_609_505,
            Note::A5 => 880_000_116,
            Note::B5b => 932_327_646,
            Note::B5 => 987_766_733,
            Note::C6 => 1_046_502_400,
            Note::D6b => 1_108_730_670,
            Note::D6 => 1_174_659_227,
            Note::E6b => 1_244_508_099,
            Note::E6 => 1_318_510_402,
            Note::F6 => 1_396_913_111,
            Note::G6b => 1_479_977_887,
            Note::G6 => 1_567_981_951,
            Note::A6b => 1_661_219_010,
            Note::A6 => 1_760_000_233,
            Note::B6b => 1_864_655_293,
            Note::B6 => 1_975_533_467,
            Note::C7 => 2_093_004_800,
            Note::D7b => 2_217_461_341,
            Note::D7 => 2_349_318_454,
            Note::E7b => 2_489_016_199,
            Note::E7 => 2_637_020_805,
            Note::F7 => 2_793_826_222,
            Note::G7b => 2_959_955_774,
            Note::G7 => 3_135_963_903,
            Note::A7b => 3_322_438_021,
            Note::A7 => 3_520_000_466,
            Note::B7b => 3_729_310_586,
            Note::B7 => 3_951_066_934,
            Note::C8 => 4_186_009_600,
            Note::D8b => 4_434_922_683,
            Note::D8 => 4_698_636_909,
            Note::E8b => 4_978_032_399,
            Note::E8 => 5_274_041_610,
            Note::F8 => 5_587_652_444,
            Note::G8b => 5_919_911_548,
            Note::G8 => 6_271_927_807,
            Note::A8b => 6_644_876_042,
            Note::A8 => 7_040_000_933,
            Note::B8b => 7_458_621_173,
            Note::B8 => 7_902_133_868,
        }
    }
}

/// `x` to the twelfth power, by squaring.
spec fn twelfth_power(x: int) -> int {
    let x2 = x * x;
    let x4 = x2 * x2;
    x4 * x4 * x4
}

/// Squaring three times and multiplying once gives the twelfth power.
proof fn lemma_twelfth_power(x: int)
    ensures
        pow(x, 12) == twelfth_power(x),
{
    lemma_pow1(x);
    lemma_pow_adds(x, 1, 1);
    lemma_pow_adds(x, 2, 2);
    lemma_pow_adds(x, 4, 4);
    lemma_pow_adds(x, 8, 4);
}

/// On the numbers from 0 up the twelfth power grows strictly.
proof fn lemma_twelfth_power_increases(x: int, y: int)
    requires
        0 <= x < y,
    ensures
        twelfth_power(x) < twelfth_power(y),
{
    let x2 = x * x;
    let y2 = y * y;
    assert(0 <= x2 < y2) by (nonlinear_arith)
        requires
            0 <= x < y,
            x2 == x * x,
            y2 == y * y,
    ;
    let x4 = x2 * x2;
    let y4 = y2 * y2;
    assert(0 <= x4 < y4) by (nonlinear_arith)
        requires
            0 <= x2 < y2,
            x4 == x2 * x2,
            y4 == y2 * y2,
    ;
    let x8 = x4 * x4;
    let y8 = y4 * y4;
    assert(0 <= x8 < y8) by (nonlinear_arith)
        requires
            0 <= x4 < y4,
            x8 == x4 * x4,
            y8 == y4 * y4,
    ;
    assert(x8 * x4 < y8 * y4) by (nonlinear_arith)
        requires
            0 <= x4 < y4,
            0 <= x8 < y8,
    ;
}

/// The bounds of `is_frequency`, with the powers written out.
proof fn lemma_floor_of_root(n: nat, f: int, two_n: int)
    requires
        0 <= f,
        two_n == pow2(n),
        twelfth_power(f) <= twelfth_power(C0_MICROHERTZ as int) * two_n < twelfth_power(f + 1),
    ensures
        is_frequency(n, f),
{
    lemma_twelfth_power(f);
    lemma_twelfth_power(f + 1);
    lemma_twelfth_power(C0_MICROHERTZ as int);
}

/// The table is right for the pitches of octave 0.
proof fn lemma_octave_0(note: Note)
    requires
        0 <= note.ordinal_spec() < 12,
    ensures
        is_frequency(note.ordinal_spec() as nat, note.freq_spec() as int),
{
    lemma2_to64();
    lemma2_to64_rest();
    if note == Note::C0 {
        assert(twelfth_power(16_351_600)
            <= twelfth_power(16_351_600) * 0x1
            < twelfth_power(16_351_601)) by (nonlinear_arith);
        lemma_floor_of_root(0, 16_351_600, 0x1);
    }
    if note == Note::D0b {
        assert(twelfth_power(17_323_916)
            <= twelfth_power(16_351_600) * 0x2
            < twelfth_power(17_323_917)) by (nonlinear_arith);
        lemma_floor_of_root(1, 17_323_916, 0x2);
    }
    if note == Note::D0 {
        assert(twelfth_power(18_354_050)
            <= twelfth_power(16_351_600) * 0x4
            < twelfth_power(18_354_051)) by (nonlinear_arith);
        lemma_floor_of_root(2, 18_354_050, 0x4);
    }
    if note == Note::E0b {
        assert(twelfth_power(19_445_439)
            <= twelfth_power(16_351_600) * 0x8
            < twelfth_power(19_445_440)) by (nonlinear_arith);
        lemma_floor_of_root(3, 19_445_439, 0x8);
    }
    if note == Note::E0 {
        assert(twelfth_power(20_601_725)
            <= twelfth_power(16_351_600) * 0x10
            < twelfth_power(20_601_726)) by (nonlinear_arith);
        lemma_floor_of_root(4, 20_601_725, 0x10);
    }
    if note == Note::F0 {
        assert(twelfth_power(21_826_767)
            <= twelfth_power(16_351_600) * 0x20
            < twelfth_power(21_826_768)) by (nonlinear_arith);
        lemma_floor_of_root(5, 21_826_767, 0x20);
    }
    if note == Note::G0b {
        assert(twelfth_power(23_124_654)
            <= twelfth_power(16_351_600) * 0x40
            < twelfth_power(23_124_655)) by (nonlinear_arith);
        lemma_floor_of_root(6, 23_124_654, 0x40);
    }
    if note == Note::G0 {
        assert(twelfth_power(24_499_717)
            <= twelfth_power(16_351_600) * 0x80
            < twelfth_power(24_499_718)) by (nonlinear_arith);
        lemma_floor_of_root(7, 24_499_717, 0x80);
    }
    if note == Note::A0b {
        assert(twelfth_power(25_956_547)
            <= twelfth_power(16_351_600) * 0x100
            < twelfth_power(25_956_548)) by (nonlinear_arith);
        lemma_floor_of_root(8, 25_956_547, 0x100);
    }
    if note == Note::A0 {
        assert(twelfth_power(27_500_003)
            <= twelfth_power(16_351_600) * 0x200
            < twelfth_power(27_500_004)) by (nonlinear_arith);
        lemma_floor_of_root(9, 27_500_003, 0x200);
    }
    if note == Note::B0b {
        assert(twelfth_power(29_135_238)
            <= twelfth_power(16_351_600) * 0x400
            < twelfth_power(29_135_239)) by (nonlinear_arith);
        lemma_floor_of_root(10, 29_135_238, 0x400);
    }
    if note == Note::B0 {
        assert(twelfth_power(30_867_710)
            <= twelfth_power(16_351_600) * 0x800
            < twelfth_power(30_867_711)) by (nonlinear_arith);
        lemma_floor_of_root(11, 30_867_710, 0x800);
    }
}

/// The table is right for the pitches of octave 1.
proof fn lemma_octave_1(note: Note)
    requires
        12 <= note.ordinal_spec() < 24,
    ensures
        is_frequency(note.ordinal_spec() as nat, note.freq_spec() as int),
{
    lemma2_to64();
    lemma2_to64_rest();
    if note == Note::C1 {
        assert(twelfth_power(32_703_200)
            <= twelfth_power(16_351_600) * 0x1000
            < twelfth_power(32_703_201)) by (nonlinear_arith);
        lemma_floor_of_root(12, 32_703_200, 0x1000);
    }
    if note == Note::D1b {
        assert(twelfth_power(34_647_833)
            <= twelfth_power(16_351_600) * 0x2000
            < twelfth_power(34_647_834)) by (nonlinear_arith);
        lemma_floor_of_root(13, 34_647_833, 0x2000);
    }
    if note == Note::D1 {
        assert(twelfth_power(36_708_100)
            <= twelfth_power(16_351_600) * 0x4000
            < twelfth_power(36_708_101)) by (nonlinear_arith);
        lemma_floor_of_root(14, 36_708_100, 0x4000);
    }
    if note == Note::E1b {
        assert(twelfth_power(38_890_878)
            <= twelfth_power(16_351_600) * 0x8000
            < twelfth_power(38_890_879)) by (nonlinear_arith);
        lemma_floor_of_root(15, 38_890_878, 0x8000);
    }
    if note == Note::E1 {
        assert(twelfth_power(41_203_450)
            <= twelfth_power(16_351_600) * 0x10000
            < twelfth_power(41_203_451)) by (nonlinear_arith);
        lemma_floor_of_root(16, 41_203_450, 0x10000);
    }
    if note == Note::F1 {
        assert(twelfth_power(43_653_534)
            <= twelfth_power(16_351_600) * 0x20000
            < twelfth_power(43_653_535)) by (nonlinear_arith);
        lemma_floor_of_root(17, 43_653_534, 0x20000);
    }
    if note == Note::G1b {
        assert(twelfth_power(46_249_308)
            <= twelfth_power(16_351_600) * 0x40000
            < twelfth_power(46_249_309)) by (nonlinear_arith);
        lemma_floor_of_root(18, 46_249_308, 0x40000);
    }
    if note == Note::G1 {
        assert(twelfth_power(48_999_435)
            <= twelfth_power(16_351_600) * 0x80000
            < twelfth_power(48_999_436)) by (nonlinear_arith);
        lemma_floor_of_root(19, 48_999_435, 0x80000);
    }
    if note == Note::A1b {
        assert(twelfth_power(51_913_094)
            <= twelfth_power(16_351_600) * 0x100000
            < twelfth_power(51_913_095)) by (nonlinear_arith);
        lemma_floor_of_root(20, 51_913_094, 0x100000);
    }
    if note == Note::A1 {
        assert(twelfth_power(55_000_007)
            <= twelfth_power(16_351_600) * 0x200000
            < twelfth_power(55_000_008)) by (nonlinear_arith);
        lemma_floor_of_root(21, 55_000_007, 0x200000);
    }
    if note == Note::B1b {
        assert(twelfth_power(58_270_477)
            <= twelfth_power(16_351_600) * 0x400000
            < twelfth_power(58_270_478)) by (nonlinear_arith);
        lemma_floor_of_root(22, 58_270_477, 0x400000);
    }
    if note == Note::B1 {
        assert(twelfth_power(61_735_420)
            <= twelfth_power(16_351_600) * 0x800000
            < twelfth_power(61_735_421)) by (nonlinear_arith);
        lemma_floor_of_root(23, 61_735_420, 0x800000);
    }
}

/// The table is right for the pitches of octave 2.
proof fn lemma_octave_2(note: Note)
    requires
        24 <= note.ordinal_spec() < 36,
    ensures
        is_frequency(note.ordinal_spec() as nat, note.freq_spec() as int),
{
    lemma2_to64();
    lemma2_to64_rest();
    if note == Note::C2 {
        assert(twelfth_power(65_406_400)
            <= twelfth_power(16_351_600) * 0x1000000
            < twelfth_power(65_406_401)) by (nonlinear_arith);
        lemma_floor_of_root(24, 65_406_400, 0x1000000);
    }
    if note == Note::D2b {
        assert(twelfth_power(69_295_666)
            <= twelfth_power(16_351_600) * 0x2000000
            < twelfth_power(69_295_667)) by (nonlinear_arith);
        lemma_floor_of_root(25, 69_295_666, 0x2000000);
    }
    if note == Note::D2 {
        assert(twelfth_power(73_416_201)
            <= twelfth_power(16_351_600) * 0x4000000
            < twelfth_power(73_416_202)) by (nonlinear_arith);
        lemma_floor_of_root(26, 73_416_201, 0x4000000);
    }
    if note == Note::E2b {
        assert(twelfth_power(77_781_756)
            <= twelfth_power(16_351_600) * 0x8000000
            < twelfth_power(77_781_757)) by (nonlinear_arith);
        lemma_floor_of_root(27, 77_781_756, 0x8000000);
    }
    if note == Note::E2 {
        assert(twelfth_power(82_406_900)
            <= twelfth_power(16_351_600) * 0x10000000
            < twelfth_power(82_406_901)) by (nonlinear_arith);
        lemma_floor_of_root(28, 82_406_900, 0x10000000);
    }
    if note == Note::F2 {
        assert(twelfth_power(87_307_069)
            <= twelfth_power(16_351_600) * 0x20000000
            < twelfth_power(87_307_070)) by (nonlinear_arith);
        lemma_floor_of_root(29, 87_307_069, 0x20000000);
    }
    if note == Note::G2b {
        assert(twelfth_power(92_498_617)
            <= twelfth_power(16_351_600) * 0x40000000
            < twelfth_power(92_498_618)) by (nonlinear_arith);
        lemma_floor_of_root(30, 92_498_617, 0x40000000);
    }
    if note == Note::G2 {
        assert(twelfth_power(97_998_871)
            <= twelfth_power(16_351_600) * 0x80000000
            < twelfth_power(97_998_872)) by (nonlinear_arith);
        lemma_floor_of_root(31, 97_998_871, 0x80000000);
    }
    if note == Note::A2b {
        assert(twelfth_power(103_826_188)
            <= twelfth_power(16_351_600) * 0x100000000
            < twelfth_power(103_826_189)) by (nonlinear_arith);
        lemma_floor_of_root(32, 103_826_188, 0x100000000);
    }
    if note == Note::A2 {
        assert(twelfth_power(110_000_014)
            <= twelfth_power(16_351_600) * 0x200000000
            < twelfth_power(110_000_015)) by (nonlinear_arith);
        lemma_floor_of_root(33, 110_000_014, 0x200000000);
    }
    if note == Note::B2b {
        assert(twelfth_power(116_540_955)
            <= twelfth_power(16_351_600) * 0x400000000
            < twelfth_power(116_540_956)) by (nonlinear_arith);
        lemma_floor_of_root(34, 116_540_955, 0x400000000);
    }
    if note == Note::B2 {
        assert(twelfth_power(123_470_841)
            <= twelfth_power(16_351_600) * 0x800000000
            < twelfth_power(123_470_842)) by (nonlinear_arith);
        lemma_floor_of_root(35, 123_470_841, 0x800000000);
    }
}

/// The table is right for the pitches of octave 3.
proof fn lemma_octave_3(note: Note)
    requires
        36 <= note.ordinal_spec() < 48,
    ensures
        is_frequency(note.ordinal_spec() as nat, note.freq_spec() as int),
{
    lemma2_to64();
    lemma2_to64_rest();
    if note == Note::C3 {
        assert(twelfth_power(130_812_800)
            <= twelfth_power(16_351_600) * 0x1000000000
            < twelfth_power(130_812_801)) by (nonlinear_arith);
        lemma_floor_of_root(36, 130_812_800, 0x1000000000);
    }
    if note == Note::D3b {
        assert(twelfth_power(138_591_333)
            <= twelfth_power(16_351_600) * 0x2000000000
            < twelfth_power(138_591_334)) by (nonlinear_arith);
        lemma_floor_of_root(37, 138_591_333, 0x2000000000);
    }
    if note == Note::D3 {
        assert(twelfth_power(146_832_403)
            <= twelfth_power(16_351_600) * 0x4000000000
            < twelfth_power(146_832_404)) by (nonlinear_arith);
        lemma_floor_of_root(38, 146_832_403, 0x4000000000);
    }
    if note == Note::E3b {
        assert(twelfth_power(155_563_512)
            <= twelfth_power(16_351_600) * 0x8000000000
            < twelfth_power(155_563_513)) by (nonlinear_arith);
        lemma_floor_of_root(39, 155_563_512, 0x8000000000);
    }
    if note == Note::E3 {
        assert(twelfth_power(164_813_800)
            <= twelfth_power(16_351_600) * 0x10000000000
            < twelfth_power(164_813_801)) by (nonlinear_arith);
        lemma_floor_of_root(40, 164_813_800, 0x10000000000);
    }
    if note == Note::F3 {
        assert(twelfth_power(174_614_138)
            <= twelfth_power(16_351_600) * 0x20000000000
            < twelfth_power(174_614_139)) by (nonlinear_arith);
        lemma_floor_of_root(41, 174_614_138, 0x20000000000);
    }
    if note == Note::G3b {
        assert(twelfth_power(184_997_235)
            <= twelfth_power(16_351_600) * 0x40000000000
            < twelfth_power(184_997_236)) by (nonlinear_arith);
        lemma_floor_of_root(42, 184_997_235, 0x40000000000);
    }
    if note == Note::G3 {
        assert(twelfth_power(195_997_743)
            <= twelfth_power(16_351_600) * 0x80000000000
            < twelfth_power(195_997_744)) by (nonlinear_arith);
        lemma_floor_of_root(43, 195_997_743, 0x80000000000);
    }
    if note == Note::A3b {
        assert(twelfth_power(207_652_376)
            <= twelfth_power(16_351_600) * 0x100000000000
            < twelfth_power(207_652_377)) by (nonlinear_arith);
        lemma_floor_of_root(44, 207_652_376, 0x100000000000);
    }
    if note == Note::A3 {
        assert(twelfth_power(220_000_029)
            <= twelfth_power(16_351_600) * 0x200000000000
            < twelfth_power(220_000_030)) by (nonlinear_arith);
        lemma_floor_of_root(45, 220_000_029, 0x200000000000);
    }
    if note == Note::B3b {
        assert(twelfth_power(233_081_911)
            <= twelfth_power(16_351_600) * 0x400000000000
            < twelfth_power(233_081_912)) by (nonlinear_arith);
        lemma_floor_of_root(46, 233_081_911, 0x400000000000);
    }
    if note == Note::B3 {
        assert(twelfth_power(246_941_683)
            <= twelfth_power(16_351_600) * 0x800000000000
            < twelfth_power(246_941_684)) by (nonlinear_arith);
        lemma_floor_of_root(47, 246_941_683, 0x800000000000);
    }
}

/// The table is right for the pitches of octave 4.
proof fn lemma_octave_4(note: Note)
    requires
        48 <= note.ordinal_spec() < 60,
    ensures
        is_frequency(note.ordinal_spec() as nat, note.freq_spec() as int),
{
    lemma2_to64();
    lemma2_to64_rest();
    if note == Note::C4 {
        assert(twelfth_power(261_625_600)
            <= twelfth_power(16_351_600) * 0x1000000000000
            < twelfth_power(261_625_601)) by (nonlinear_arith);
        lemma_floor_of_root(48, 261_625_600, 0x1000000000000);
    }
    if note == Note::D4b {
        assert(twelfth_power(277_182_667)
            <= twelfth_power(16_351_600) * 0x2000000000000
            < twelfth_power(277_182_668)) by (nonlinear_arith);
        lemma_floor_of_root(49, 277_182_667, 0x2000000000000);
    }
    if note == Note::D4 {
        assert(twelfth_power(293_664_806)
            <= twelfth_power(16_351_600) * 0x4000000000000
            < twelfth_power(293_664_807)) by (nonlinear_arith);
        lemma_floor_of_root(50, 293_664_806, 0x4000000000000);
    }
    if note == Note::E4b {
        assert(twelfth_power(311_127_024)
            <= twelfth_power(16_351_600) * 0x8000000000000
            < twelfth_power(311_127_025)) by (nonlinear_arith);
        lemma_floor_of_root(51, 311_127_024, 0x8000000000000);
    }
    if note == Note::E4 {
        assert(twelfth_power(329_627_600)
            <= twelfth_power(16_351_600) * 0x10000000000000
            < twelfth_power(329_627_601)) by (nonlinear_arith);
        lemma_floor_of_root(52, 329_627_600, 0x10000000000000);
    }
    if note == Note::F4 {
        assert(twelfth_power(349_228_277)
            <= twelfth_power(16_351_600) * 0x20000000000000
            < twelfth_power(349_228_278)) by (nonlinear_arith);
        lemma_floor_of_root(53, 349_228_277, 0x20000000000000);
    }
    if note == Note::G4b {
        assert(twelfth_power(369_994_471)
            <= twelfth_power(16_351_600) * 0x40000000000000
            < twelfth_power(369_994_472)) by (nonlinear_arith);
        lemma_floor_of_root(54, 369_994_471, 0x40000000000000);
    }
    if note == Note::G4 {
        assert(twelfth_power(391_995_487)
            <= twelfth_power(16_351_600) * 0x80000000000000
            < twelfth_power(391_995_488)) by (nonlinear_arith);
        lemma_floor_of_root(55, 391_995_487, 0x80000000000000);
    }
    if note == Note::A4b {
        assert(twelfth_power(415_304_752)
            <= twelfth_power(16_351_600) * 0x100000000000000
            < twelfth_power(415_304_753)) by (nonlinear_arith);
        lemma_floor_of_root(56, 415_304_752, 0x100000000000000);
    }
    if note == Note::A4 {
        assert(twelfth_power(440_000_058)
            <= twelfth_power(16_351_600) * 0x200000000000000
            < twelfth_power(440_000_059)) by (nonlinear_arith);
        lemma_floor_of_root(57, 440_000_058, 0x200000000000000);
    }
    if note == Note::B4b {
        assert(twelfth_power(466_163_823)
            <= twelfth_power(16_351_600) * 0x400000000000000
            < twelfth_power(466_163_824)) by (nonlinear_arith);
        lemma_floor_of_root(58, 466_163_823, 0x400000000000000);
    }
    if note == Note::B4 {
        assert(twelfth_power(493_883_366)
            <= twelfth_power(16_351_600) * 0x800000000000000
            < twelfth_power(493_883_367)) by (nonlinear_arith);
        lemma_floor_of_root(59, 493_883_366, 0x800000000000000);
    }
}

/// The table is right for the pitches of octave 5.
proof fn lemma_octave_5(note: Note)
    requires
        60 <= note.ordinal_spec() < 72,
    ensures
        is_frequency(note.ordinal_spec() as nat, note.freq_spec() as int),
{
    lemma2_to64();
    lemma2_to64_rest();
    lemma_pow2_adds(64, 1);
    lemma_pow2_adds(64, 2);
    lemma_pow2_adds(64, 3);
    lemma_pow2_adds(64, 4);
    lemma_pow2_adds(64, 5);
    lemma_pow2_adds(64, 6);
    lemma_pow2_adds(64, 7);
    if note == Note::C5 {
        assert(twelfth_power(523_251_200)
            <= twelfth_power(16_351_600) * 0x1000000000000000
            < twelfth_power(523_251_201)) by (nonlinear_arith);
        lemma_floor_of_root(60, 523_251_200, 0x1000000000000000);
    }
    if note == Note::D5b {
        assert(twelfth_power(554_365_335)
            <= twelfth_power(16_351_600) * 0x2000000000000000
            < twelfth_power(554_365_336)) by (nonlinear_arith);
        lemma_floor_of_root(61, 554_365_335, 0x2000000000000000);
    }
    if note == Note::D5 {
        assert(twelfth_power(587_329_613)
            <= twelfth_power(16_351_600) * 0x4000000000000000
            < twelfth_power(587_329_614)) by (nonlinear_arith);
        lemma_floor_of_root(62, 587_329_613, 0x4000000000000000);
    }
    if note == Note::E5b {
        assert(twelfth_power(622_254_049)
            <= twelfth_power(16_351_600) * 0x8000000000000000
            < twelfth_power(622_254_050)) by (nonlinear_arith);
        lemma_floor_of_root(63, 622_254_049, 0x8000000000000000);
    }
    if note == Note::E5 {
        assert(twelfth_power(659_255_201)
            <= twelfth_power(16_351_600) * 0x10000000000000000
            < twelfth_power(659_255_202)) by (nonlinear_arith);
        lemma_floor_of_root(64, 659_255_201, 0x10000000000000000);
    }
    if note == Note::F5 {
        assert(twelfth_power(698_456_555)
            <= twelfth_power(16_351_600) * 0x20000000000000000
            < twelfth_power(698_456_556)) by (nonlinear_arith);
        lemma_floor_of_root(65, 698_456_555, 0x20000000000000000);
    }
    if note == Note::G5b {
        assert(twelfth_power(739_988_943)
            <= twelfth_power(16_351_600) * 0x40000000000000000
            < twelfth_power(739_988_944)) by (nonlinear_arith);
        lemma_floor_of_root(66, 739_988_943, 0x40000000000000000);
    }
    if note == Note::G5 {
        assert(twelfth_power(783_990_975)
            <= twelfth_power(16_351_600) * 0x80000000000000000
            < twelfth_power(783_990_976)) by (nonlinear_arith);
        lemma_floor_of_root(67, 783_990_975, 0x80000000000000000);
    }
    if note == Note::A5b {
        assert(twelfth_power(830_609_505)
            <= twelfth_power(16_351_600) * 0x100000000000000000
            < twelfth_power(830_609_506)) by (nonlinear_arith);
        lemma_floor_of_root(68, 830_609_505, 0x100000000000000000);
    }
    if note == Note::A5 {
        assert(twelfth_power(880_000_116)
            <= twelfth_power(16_351_600) * 0x200000000000000000
            < twelfth_power(880_000_117)) by (nonlinear_arith);
        lemma_floor_of_root(69, 880_000_116, 0x200000000000000000);
    }
    if note == Note::B5b {
        assert(twelfth_power(932_327_646)
            <= twelfth_power(16_351_600) * 0x400000000000000000
            < twelfth_power(932_327_647)) by (nonlinear_arith);
        lemma_floor_of_root(70, 932_327_646, 0x400000000000000000);
    }
    if note == Note::B5 {
        assert(twelfth_power(987_766_733)
            <= twelfth_power(16_351_600) * 0x800000000000000000
            < twelfth_power(987_766_734)) by (nonlinear_arith);
        lemma_floor_of_root(71, 987_766_733, 0x800000000000000000);
    }
}

/// The table is right for the pitches of octave 6.
proof fn lemma_octave_6(note: Note)
    requires
        72 <= note.ordinal_spec() < 84,
    ensures
        is_frequency(note.ordinal_spec() as nat, note.freq_spec() as int),
{
    lemma2_to64();
    lemma2_to64_rest();
    lemma_pow2_adds(64, 8);
    lemma_pow2_adds(64, 9);
    lemma_pow2_adds(64, 10);
    lemma_pow2_adds(64, 11);
    lemma_pow2_adds(64, 12);
    lemma_pow2_adds(64, 13);
    lemma_pow2_adds(64, 14);
    lemma_pow2_adds(64, 15);
    lemma_pow2_adds(64, 16);
    lemma_pow2_adds(64, 17);
    lemma_pow2_adds(64, 18);
    lemma_pow2_adds(64, 19);
    if note == Note::C6 {
        assert(twelfth_power(1_046_502_400)
            <= twelfth_power(16_351_600) * 0x1000000000000000000
            < twelfth_power(1_046_502_401)) by (nonlinear_arith);
        lemma_floor_of_root(72, 1_046_502_400, 0x1000000000000000000);
    }
    if note == Note::D6b {
        assert(twelfth_power(1_108_730_670)
            <= twelfth_power(16_351_600) * 0x2000000000000000000
            < twelfth_power(1_108_730_671)) by (nonlinear_arith);
        lemma_floor_of_root(73, 1_108_730_670, 0x2000000000000000000);
    }
    if note == Note::D6 {
        assert(twelfth_power(1_174_659_227)
            <= twelfth_power(16_351_600) * 0x4000000000000000000
            < twelfth_power(1_174_659_228)) by (nonlinear_arith);
        lemma_floor_of_root(74, 1_174_659_227, 0x4000000000000000000);
    }
    if note == Note::E6b {
        assert(twelfth_power(1_244_508_099)
            <= twelfth_power(16_351_600) * 0x8000000000000000000
            < twelfth_power(1_244_508_100)) by (nonlinear_arith);
        lemma_floor_of_root(75, 1_244_508_099, 0x8000000000000000000);
    }
    if note == Note::E6 {
        assert(twelfth_power(1_318_510_402)
            <= twelfth_power(16_351_600) * 0x10000000000000000000
            < twelfth_power(1_318_510_403)) by (nonlinear_arith);
        lemma_floor_of_root(76, 1_318_510_402, 0x10000000000000000000);
    }
    if note == Note::F6 {
        assert(twelfth_power(1_396_913_111)
            <= twelfth_power(16_351_600) * 0x20000000000000000000
            < twelfth_power(1_396_913_112)) by (nonlinear_arith);
        lemma_floor_of_root(77, 1_396_913_111, 0x20000000000000000000);
    }
    if note == Note::G6b {
        assert(twelfth_power(1_479_977_887)
            <= twelfth_power(16_351_600) * 0x40000000000000000000
            < twelfth_power(1_479_977_888)) by (nonlinear_arith);
        lemma_floor_of_root(78, 1_479_977_887, 0x40000000000000000000);
    }
    if note == Note::G6 {
        assert(twelfth_power(1_567_981_951)
            <= twelfth_power(16_351_600) * 0x80000000000000000000
            < twelfth_power(1_567_981_952)) by (nonlinear_arith);
        lemma_floor_of_root(79, 1_567_981_951, 0x80000000000000000000);
    }
    if note == Note::A6b {
        assert(twelfth_power(1_661_219_010)
            <= twelfth_power(16_351_600) * 0x100000000000000000000
            < twelfth_power(1_661_219_011)) by (nonlinear_arith);
        lemma_floor_of_root(80, 1_661_219_010, 0x100000000000000000000);
    }
    if note == Note::A6 {
        assert(twelfth_power(1_760_000_233)
            <= twelfth_power(16_351_600) * 0x200000000000000000000
            < twelfth_power(1_760_000_234)) by (nonlinear_arith);
        lemma_floor_of_root(81, 1_760_000_233, 0x200000000000000000000);
    }
    if note == Note::B6b {
        assert(twelfth_power(1_864_655_293)
            <= twelfth_power(16_351_600) * 0x400000000000000000000
            < twelfth_power(1_864_655_294)) by (nonlinear_arith);
        lemma_floor_of_root(82, 1_864_655_293, 0x400000000000000000000);
    }
    if note == Note::B6 {
        assert(twelfth_power(1_975_533_467)
            <= twelfth_power(16_351_600) * 0x800000000000000000000
            < twelfth_power(1_975_533_468)) by (nonlinear_arith);
        lemma_floor_of_root(83, 1_975_533_467, 0x800000000000000000000);
    }
}

/// The table is right for the pitches of octave 7.
proof fn lemma_octave_7(note: Note)
    requires
        84 <= note.ordinal_spec() < 96,
    ensures
        is_frequency(note.ordinal_spec() as nat, note.freq_spec() as int),
{
    lemma2_to64();
    lemma2_to64_rest();
    lemma_pow2_adds(64, 20);
    lemma_pow2_adds(64, 21);
    lemma_pow2_adds(64, 22);
    lemma_pow2_adds(64, 23);
    lemma_pow2_adds(64, 24);
    lemma_pow2_adds(64, 25);
    lemma_pow2_adds(64, 26);
    lemma_pow2_adds(64, 27);
    lemma_pow2_adds(64, 28);
    lemma_pow2_adds(64, 29);
    lemma_pow2_adds(64, 30);
    lemma_pow2_adds(64, 31);
    if note == Note::C7 {
        assert(twelfth_power(2_093_004_800)
            <= twelfth_power(16_351_600) * 0x1000000000000000000000
            < twelfth_power(2_093_004_801)) by (nonlinear_arith);
        lemma_floor_of_root(84, 2_093_004_800, 0x1000000000000000000000);
    }
    if note == Note::D7b {
        assert(twelfth_power(2_217_461_341)
            <= twelfth_power(16_351_600) * 0x2000000000000000000000
            < twelfth_power(2_217_461_342)) by (nonlinear_arith);
        lemma_floor_of_root(85, 2_217_461_341, 0x2000000000000000000000);
    }
    if note == Note::D7 {
        assert(twelfth_power(2_349_318_454)
            <= twelfth_power(16_351_600) * 0x4000000000000000000000
            < twelfth_power(2_349_318_455)) by (nonlinear_arith);
        lemma_floor_of_root(86, 2_349_318_454, 0x4000000000000000000000);
    }
    if note == Note::E7b {
        assert(twelfth_power(2_489_016_199)
            <= twelfth_power(16_351_600) * 0x8000000000000000000000
            < twelfth_power(2_489_016_200)) by (nonlinear_arith);
        lemma_floor_of_root(87, 2_489_016_199, 0x8000000000000000000000);
    }
    if note == Note::E7 {
        assert(twelfth_power(2_637_020_805)
            <= twelfth_power(16_351_600) * 0x10000000000000000000000
            < twelfth_power(2_637_020_806)) by (nonlinear_arith);
        lemma_floor_of_root(88, 2_637_020_805, 0x10000000000000000000000);
    }
    if note == Note::F7 {
        assert(twelfth_power(2_793_826_222)
            <= twelfth_power(16_351_600) * 0x20000000000000000000000
            < twelfth_power(2_793_826_223)) by (nonlinear_arith);
        lemma_floor_of_root(89, 2_793_826_222, 0x20000000000000000000000);
    }
    if note == Note::G7b {
        assert(twelfth_power(2_959_955_774)
            <= twelfth_power(16_351_600) * 0x40000000000000000000000
            < twelfth_power(2_959_955_775)) by (nonlinear_arith);
        lemma_floor_of_root(90, 2_959_955_774, 0x40000000000000000000000);
    }
    if note == Note::G7 {
        assert(twelfth_power(3_135_963_903)
            <= twelfth_power(16_351_600) * 0x80000000000000000000000
            < twelfth_power(3_135_963_904)) by (nonlinear_arith);
        lemma_floor_of_root(91, 3_135_963_903, 0x80000000000000000000000);
    }
    if note == Note::A7b {
        assert(twelfth_power(3_322_438_021)
            <= twelfth_power(16_351_600) * 0x100000000000000000000000
            < twelfth_power(3_322_438_022)) by (nonlinear_arith);
        lemma_floor_of_root(92, 3_322_438_021, 0x100000000000000000000000);
    }
    if note == Note::A7 {
        assert(twelfth_power(3_520_000_466)
            <= twelfth_power(16_351_600) * 0x200000000000000000000000
            < twelfth_power(3_520_000_467)) by (nonlinear_arith);
        lemma_floor_of_root(93, 3_520_000_466, 0x200000000000000000000000);
    }
    if note == Note::B7b {
        assert(twelfth_power(3_729_310_586)
            <= twelfth_power(16_351_600) * 0x400000000000000000000000
            < twelfth_power(3_729_310_587)) by (nonlinear_arith);
        lemma_floor_of_root(94, 3_729_310_586, 0x400000000000000000000000);
    }
    if note == Note::B7 {
        assert(twelfth_power(3_951_066_934)
            <= twelfth_power(16_351_600) * 0x800000000000000000000000
            < twelfth_power(3_951_066_935)) by (nonlinear_arith);
        lemma_floor_of_root(95, 3_951_066_934, 0x800000000000000000000000);
    }
}

/// The table is right for the pitches of octave 8.
proof fn lemma_octave_8(note: Note)
    requires
        96 <= note.ordinal_spec() < 108,
    ensures
        is_frequency(note.ordinal_spec() as nat, note.freq_spec() as int),
{
    lemma2_to64();
    lemma2_to64_rest();
    lemma_pow2_adds(64, 32);
    lemma_pow2_adds(64, 33);
    lemma_pow2_adds(64, 34);
    lemma_pow2_adds(64, 35);
    lemma_pow2_adds(64, 36);
    lemma_pow2_adds(64, 37);
    lemma_pow2_adds(64, 38);
    lemma_pow2_adds(64, 39);
    lemma_pow2_adds(64, 40);
    lemma_pow2_adds(64, 41);
    lemma_pow2_adds(64, 42);
    lemma_pow2_adds(64, 43);
    if note == Note::C8 {
        assert(twelfth_power(4_186_009_600)
            <= twelfth_power(16_351_600) * 0x1000000000000000000000000
            < twelfth_power(4_186_009_601)) by (nonlinear_arith);
        lemma_floor_of_root(96, 4_186_009_600, 0x1000000000000000000000000);
    }
    if note == Note::D8b {
        assert(twelfth_power(4_434_922_683)
            <= twelfth_power(16_351_600) * 0x2000000000000000000000000
            < twelfth_power(4_434_922_684)) by (nonlinear_arith);
        lemma_floor_of_root(97, 4_434_922_683, 0x2000000000000000000000000);
    }
    if note == Note::D8 {
        assert(twelfth_power(4_698_636_909)
            <= twelfth_power(16_351_600) * 0x4000000000000000000000000
            < twelfth_power(4_698_636_910)) by (nonlinear_arith);
        lemma_floor_of_root(98, 4_698_636_909, 0x4000000000000000000000000);
    }
    if note == Note::E8b {
        assert(twelfth_power(4_978_032_399)
            <= twelfth_power(16_351_600) * 0x8000000000000000000000000
            < twelfth_power(4_978_032_400)) by (nonlinear_arith);
        lemma_floor_of_root(99, 4_978_032_399, 0x8000000000000000000000000);
    }
    if note == Note::E8 {
        assert(twelfth_power(5_274_041_610)
            <= twelfth_power(16_351_600) * 0x10000000000000000000000000
            < twelfth_power(5_274_041_611)) by (nonlinear_arith);
        lemma_floor_of_root(100, 5_274_041_610, 0x10000000000000000000000000);
    }
    if note == Note::F8 {
        assert(twelfth_power(5_587_652_444)
            <= twelfth_power(16_351_600) * 0x20000000000000000000000000
            < twelfth_power(5_587_652_445)) by (nonlinear_arith);
        lemma_floor_of_root(101, 5_587_652_444, 0x20000000000000000000000000);
    }
    if note == Note::G8b {
        assert(twelfth_power(5_919_911_548)
            <= twelfth_power(16_351_600) * 0x40000000000000000000000000
            < twelfth_power(5_919_911_549)) by (nonlinear_arith);
        lemma_floor_of_root(102, 5_919_911_548, 0x40000000000000000000000000);
    }
    if note == Note::G8 {
        assert(twelfth_power(6_271_927_807)
            <= twelfth_power(16_351_600) * 0x80000000000000000000000000
            < twelfth_power(6_271_927_808)) by (nonlinear_arith);
        lemma_floor_of_root(103, 6_271_927_807, 0x80000000000000000000000000);
    }
    if note == Note::A8b {
        assert(twelfth_power(6_644_876_042)
            <= twelfth_power(16_351_600) * 0x100000000000000000000000000
            < twelfth_power(6_644_876_043)) by (nonlinear_arith);
        lemma_floor_of_root(104, 6_644_876_042, 0x100000000000000000000000000);
    }
    if note == Note::A8 {
        assert(twelfth_power(7_040_000_933)
            <= twelfth_power(16_351_600) * 0x200000000000000000000000000
            < twelfth_power(7_040_000_934)) by (nonlinear_arith);
        lemma_floor_of_root(105, 7_040_000_933, 0x200000000000000000000000000);
    }
    if note == Note::B8b {
        assert(twelfth_power(7_458_621_173)
            <= twelfth_power(16_351_600) * 0x400000000000000000000000000
            < twelfth_power(7_458_621_174)) by (nonlinear_arith);
        lemma_floor_of_root(106, 7_458_621_173, 0x400000000000000000000000000);
    }
    if note == Note::B8 {
        assert(twelfth_power(7_902_133_868)
            <= twelfth_power(16_351_600) * 0x800000000000000000000000000
            < twelfth_power(7_902_133_869)) by (nonlinear_arith);
        lemma_floor_of_root(107, 7_902_133_868, 0x800000000000000000000000000);
    }
}

/// Every pitch has the frequency that equal temperament gives it, to the
/// microhertz: `freq` is `C0_MICROHERTZ * 2^(ordinal/12)`, rounded down.
pub proof fn lemma_freq_is_equal_tempered(note: Note)
    ensures
        is_frequency(note.ordinal_spec() as nat, note.freq_spec() as int),
{
    let n = note.ordinal_spec();
    if n < 12 {
        lemma_octave_0(note);
    } else if n < 24 {
        lemma_octave_1(note);
    } else if n < 36 {
        lemma_octave_2(note);
    } else if n < 48 {
        lemma_octave_3(note);
    } else if n < 60 {
        lemma_octave_4(note);
    } else if n < 72 {
        lemma_octave_5(note);
    } else if n < 84 {
        lemma_octave_6(note);
    } else if n < 96 {
        lemma_octave_7(note);
    } else {
        lemma_octave_8(note);
    }
}

/// At most one integer is the frequency of a pitch: the bounds of
/// `is_frequency` pin it down.
pub proof fn lemma_frequency_is_unique(n: nat, f: int, g: int)
    requires
        is_frequency(n, f),
        is_frequency(n, g),
    ensures
        f == g,
{
    lemma_twelfth_power(f);
    lemma_twelfth_power(f + 1);
    lemma_twelfth_power(g);
    lemma_twelfth_power(g + 1);
    if f < g {
        if f + 1 < g {
            lemma_twelfth_power_increases(f + 1, g);
        }
    } else if g < f {
        if g + 1 < f {
            lemma_twelfth_power_increases(g + 1, f);
        }
    }
}

} // verus!
