//! The voice: six steps of pitch and of rate, a volume, and where each falls
//! in the range that the speech engine offers for the voice in use.

use vstd::prelude::*;
use vstd::std_specs::convert::FromSpecImpl;

verus! {

/// The six steps of pitch, by the names that the settings show. The first
/// is set at the lower end of a voice's range, the last at its upper end.
#[derive(Clone, Copy, Debug, PartialEq, Eq, PartialOrd, Structural)]
pub enum VoicePitch {
    Soprano,
    Mezzo,
    Alto,
    Tenor,
    Baritone,
    Bass,
}

/// The six steps of rate, from the slowest to the fastest.
#[derive(Clone, Copy, Debug, PartialEq, Eq, PartialOrd, Structural)]
pub enum VoiceRate {
    Slowest,
    Slow,
    Default,
    Fast,
    Fastest,
    TooFast,
}

/// The number of steps of pitch, and of rate.
pub const LEVELS: u32 = 6;

/// The largest volume that a user can set.
pub const FULL_VOLUME: u32 = 255;

impl VoicePitch {
    /// The pitch with the given number, counted from one. Every number
    /// outside `1 ..= 5` names the last pitch.
    pub open spec fn of_number(num: int) -> VoicePitch {
        if num == 1 {
            VoicePitch::Soprano
        } else if num == 2 {
            VoicePitch::Mezzo
        } else if num == 3 {
            VoicePitch::Alto
        } else if num == 4 {
            VoicePitch::Tenor
        } else if num == 5 {
            VoicePitch::Baritone
        } else {
            VoicePitch::Bass
        }
    }

    /// The number of the pitch, counted from one.
    pub open spec fn spec_number(self) -> int {
        match self {
            VoicePitch::Soprano => 1,
            VoicePitch::Mezzo => 2,
            VoicePitch::Alto => 3,
            VoicePitch::Tenor => 4,
            VoicePitch::Baritone => 5,
            VoicePitch::Bass => 6,
        }
    }

    /// The number of the pitch, counted from one.
    pub fn number(self) -> (num: u8)
        ensures
            num == self.spec_number(),
            1 <= num <= 6,
    {
        match self {
            VoicePitch::Soprano => 1,
            VoicePitch::Mezzo => 2,
            VoicePitch::Alto => 3,
            VoicePitch::Tenor => 4,
            VoicePitch::Baritone => 5,
            VoicePitch::Bass => 6,
        }
    }

    /// The pitch with the given number. It is never `None`.
    pub fn from_i64(num: i64) -> (pitch: Option<VoicePitch>)
        ensures
            pitch == Some(Self::of_number(num as int)),
    {
        Some(
            match num {
                1 => VoicePitch::Soprano,
                2 => VoicePitch::Mezzo,
                3 => VoicePitch::Alto,
                4 => VoicePitch::Tenor,
                5 => VoicePitch::Baritone,
                _ => VoicePitch::Bass,
            },
        )
    }

    /// The pitch with the given number. It is never `None`.
    pub fn from_u64(num: u64) -> (pitch: Option<VoicePitch>)
        ensures
            pitch == Some(Self::of_number(num as int)),
    {
        Some(
            match num {
                1 => VoicePitch::Soprano,
                2 => VoicePitch::Mezzo,
                3 => VoicePitch::Alto,
                4 => VoicePitch::Tenor,
                5 => VoicePitch::Baritone,
                _ => VoicePitch::Bass,
            },
        )
    }
}

impl Default for VoicePitch {
    fn default() -> (pitch: VoicePitch)
        ensures
            pitch == VoicePitch::Alto,
    {
        VoicePitch::Alto
    }
}

impl From<u8> for VoicePitch {
    fn from(num: u8) -> (pitch: VoicePitch) {
        match num {
            1 => VoicePitch::Soprano,
            2 => VoicePitch::Mezzo,
            3 => VoicePitch::Alto,
            4 => VoicePitch::Tenor,
            5 => VoicePitch::Baritone,
            _ => VoicePitch::Bass,
        }
    }
}

impl FromSpecImpl<u8> for VoicePitch {
    open spec fn obeys_from_spec() -> bool {
        true
    }

    open spec fn from_spec(num: u8) -> VoicePitch {
        VoicePitch::of_number(num as int)
    }
}

impl VoiceRate {
    /// The rate with the given number, counted from one. Every number
    /// outside `1 ..= 5` names the last rate.
    pub open spec fn of_number(num: int) -> VoiceRate {
        if num == 1 {
            VoiceRate::Slowest
        } else if num == 2 {
            VoiceRate::Slow
        } else if num == 3 {
            VoiceRate::Default
        } else if num == 4 {
            VoiceRate::Fast
        } else if num == 5 {
            VoiceRate::Fastest
        } else {
            VoiceRate::TooFast
        }
    }

    /// The number of the rate, counted from one.
    pub open spec fn spec_number(self) -> int {
        match self {
            VoiceRate::Slowest => 1,
            VoiceRate::Slow => 2,
            VoiceRate::Default => 3,
            VoiceRate::Fast => 4,
            VoiceRate::Fastest => 5,
            VoiceRate::TooFast => 6,
        }
    }

    /// The number of the rate, counted from one.
    pub fn number(self) -> (num: u8)
        ensures
            num == self.spec_number(),
            1 <= num <= 6,
    {
        match self {
            VoiceRate::Slowest => 1,
            VoiceRate::Slow => 2,
            VoiceRate::Default => 3,
            VoiceRate::Fast => 4,
            VoiceRate::Fastest => 5,
            VoiceRate::TooFast => 6,
        }
    }

    /// The rate with the given number. It is never `None`.
    pub fn from_i64(num: i64) -> (rate: Option<VoiceRate>)
        ensures
            rate == Some(Self::of_number(num as int)),
    {
        Some(
            match num {
                1 => VoiceRate::Slowest,
                2 => VoiceRate::Slow,
                3 => VoiceRate::Default,
                4 => VoiceRate::Fast,
                5 => VoiceRate::Fastest,
                _ => VoiceRate::TooFast,
            },
        )
    }

    /// The rate with the given number. It is never `None`.
    pub fn from_u64(num: u64) -> (rate: Option<VoiceRate>)
        ensures
            rate == Some(Self::of_number(num as int)),
    {
        Some(
            match num {
                1 => VoiceRate::Slowest,
                2 => VoiceRate::Slow,
                3 => VoiceRate::Default,
                4 => VoiceRate::Fast,
                5 => VoiceRate::Fastest,
                _ => VoiceRate::TooFast,
            },
        )
    }
}

impl Default for VoiceRate {
    fn default() -> (rate: VoiceRate)
        ensures
            rate == VoiceRate::Default,
    {
        VoiceRate::Default
    }
}

impl From<u8> for VoiceRate {
    fn from(num: u8) -> (rate: VoiceRate) {
        match num {
            1 => VoiceRate::Slowest,
            2 => VoiceRate::Slow,
            3 => VoiceRate::Default,
            4 => VoiceRate::Fast,
            5 => VoiceRate::Fastest,
            _ => VoiceRate::TooFast,
        }
    }
}

impl FromSpecImpl<u8> for VoiceRate {
    open spec fn obeys_from_spec() -> bool {
        true
    }

    open spec fn from_spec(num: u8) -> VoiceRate {
        VoiceRate::of_number(num as int)
    }
}

/// A step keeps its name on the way to its number and back.
pub proof fn lemma_number_names_the_step(pitch: VoicePitch, rate: VoiceRate)
    ensures
        VoicePitch::of_number(pitch.spec_number()) == pitch,
        VoiceRate::of_number(rate.spec_number()) == rate,
        1 <= pitch.spec_number() <= LEVELS,
        1 <= rate.spec_number() <= LEVELS,
{
}

/// A range of values that a speech engine offers for one parameter of a
/// voice, in whatever unit the caller counts in. No range is upside down.
#[derive(Clone, Copy, Debug, PartialEq, Eq, Structural)]
pub struct ValueRange {
    min: i32,
    max: i32,
}

impl ValueRange {
    #[verifier::type_invariant]
    spec fn inv(self) -> bool {
        self.min <= self.max
    }

    /// The lower end.
    pub closed spec fn spec_min(self) -> i32 {
        self.min
    }

    /// The upper end.
    pub closed spec fn spec_max(self) -> i32 {
        self.max
    }

    /// What holds of every range that code can hold: it is not upside down.
    pub open spec fn wf(self) -> bool {
        self.spec_min() <= self.spec_max()
    }

    /// The range from `min` to `max`, or `None` where `max` is the smaller.
    pub fn new(min: i32, max: i32) -> (range: Option<ValueRange>)
        ensures
            range is Some <==> min <= max,
            range is Some ==> {
                &&& range->0.spec_min() == min
                &&& range->0.spec_max() == max
                &&& range->0.wf()
            },
    {
        if min <= max {
            Some(ValueRange { min, max })
        } else {
            None
        }
    }

    /// The range between two values, whichever of them is the smaller.
    pub fn between(one: i32, other: i32) -> (range: ValueRange)
        ensures
            range.spec_min() == if one <= other {
                one
            } else {
                other
            },
            range.spec_max() == if one <= other {
                other
            } else {
                one
            },
            range.wf(),
    {
        if one <= other {
            ValueRange { min: one, max: other }
        } else {
            ValueRange { min: other, max: one }
        }
    }

    /// The lower end.
    pub fn min(&self) -> (min: i32)
        ensures
            min == self.spec_min(),
            self.wf(),
    {
        proof {
            use_type_invariant(self);
        }
        self.min
    }

    /// The upper end.
    pub fn max(&self) -> (max: i32)
        ensures
            max == self.spec_max(),
            self.wf(),
    {
        proof {
            use_type_invariant(self);
        }
        self.max
    }
}

/// The value that lies `index` of `steps` even steps up the range, rounded
/// down: `min + index * (max - min) / steps`.
pub open spec fn subdivided(range: ValueRange, index: int, steps: int) -> int {
    range.spec_min() + (index * (range.spec_max() - range.spec_min())) / steps
}

/// The value `index` of `steps` even steps up the range.
pub fn subdivide(range: ValueRange, index: u32, steps: u32) -> (value: i32)
    requires
        steps > 0,
        index <= steps,
    ensures
        value == subdivided(range, index as int, steps as int),
        range.spec_min() <= value <= range.spec_max(),
        index == 0 ==> value == range.spec_min(),
        index == steps ==> value == range.spec_max(),
{
    proof {
        use_type_invariant(range);
    }
    let span: i64 = range.max as i64 - range.min as i64;
    proof {
        lemma_subdivided_in_range(range, index as int, steps as int);
        assert(0 <= (index as int) * (span as int) <= 0xffff_ffff * 0xffff_ffff) by (nonlinear_arith)
            requires
                0 <= index <= 0xffff_ffff,
                0 <= span <= 0xffff_ffff,
        ;
    }
    let offset: u64 = (index as u64 * span as u64) / (steps as u64);
    (range.min as i64 + offset as i64) as i32
}

/// A subdivision never leaves the range, starts at its lower end and ends at
/// its upper end.
pub proof fn lemma_subdivided_in_range(range: ValueRange, index: int, steps: int)
    requires
        range.wf(),
        steps > 0,
        0 <= index <= steps,
    ensures
        range.spec_min() <= subdivided(range, index, steps) <= range.spec_max(),
        index == 0 ==> subdivided(range, index, steps) == range.spec_min(),
        index == steps ==> subdivided(range, index, steps) == range.spec_max(),
{
    let span = range.max - range.min;
    assert(0 <= index * span <= steps * span) by (nonlinear_arith)
        requires
            0 <= index <= steps,
            0 <= span,
    ;
    vstd::arithmetic::div_mod::lemma_div_pos_is_pos(index * span, steps);
    vstd::arithmetic::div_mod::lemma_div_is_ordered(index * span, steps * span, steps);
    vstd::arithmetic::div_mod::lemma_div_multiples_vanish(span, steps);
    assert(steps * span == span * steps) by (nonlinear_arith);
    if index == 0 {
        assert(index * span == 0) by (nonlinear_arith)
            requires
                index == 0,
        ;
    }
}

/// A higher step never gives a lower value.
pub proof fn lemma_subdivided_is_monotonic(range: ValueRange, lower: int, higher: int, steps: int)
    requires
        range.wf(),
        steps > 0,
        0 <= lower <= higher,
    ensures
        subdivided(range, lower, steps) <= subdivided(range, higher, steps),
{
    let span = range.max - range.min;
    assert(lower * span <= higher * span) by (nonlinear_arith)
        requires
            lower <= higher,
            0 <= span,
    ;
    vstd::arithmetic::div_mod::lemma_div_is_ordered(lower * span, higher * span, steps);
}

/// Where a pitch falls in the range of pitches of a voice: the first pitch
/// at its lower end, the last at its upper end, the others evenly between.
pub open spec fn pitch_in(range: ValueRange, pitch: VoicePitch) -> int {
    subdivided(range, pitch.spec_number() - 1, LEVELS - 1)
}

/// Where a rate falls in the range of rates of a voice: the first rate at
/// its lower end, the last at its upper end, the others evenly between.
pub open spec fn rate_in(range: ValueRange, rate: VoiceRate) -> int {
    subdivided(range, rate.spec_number() - 1, LEVELS - 1)
}

/// Where a volume falls in the range of volumes of a voice: 0 at its lower
/// end, 255 at its upper end.
pub open spec fn volume_in(range: ValueRange, volume: u8) -> int {
    subdivided(range, volume as int, FULL_VOLUME as int)
}

/// The pitch to set on the engine for a pitch step.
pub fn pitch_value(range: ValueRange, pitch: VoicePitch) -> (value: i32)
    ensures
        value == pitch_in(range, pitch),
        range.spec_min() <= value <= range.spec_max(),
{
    subdivide(range, (pitch.number() - 1) as u32, LEVELS - 1)
}

/// The rate to set on the engine for a rate step.
pub fn rate_value(range: ValueRange, rate: VoiceRate) -> (value: i32)
    ensures
        value == rate_in(range, rate),
        range.spec_min() <= value <= range.spec_max(),
{
    subdivide(range, (rate.number() - 1) as u32, LEVELS - 1)
}

/// The volume to set on the engine for a volume between 0 and 255.
pub fn volume_value(range: ValueRange, volume: u8) -> (value: i32)
    ensures
        value == volume_in(range, volume),
        range.spec_min() <= value <= range.spec_max(),
{
    subdivide(range, volume as u32, FULL_VOLUME)
}

/// The ranges that a speech engine offers for the voice in use.
#[derive(Clone, Copy, Debug, PartialEq, Eq, Structural)]
pub struct VoiceRanges {
    pub pitch: ValueRange,
    pub rate: ValueRange,
    pub volume: ValueRange,
}

/// What is set on a speech engine.
#[derive(Clone, Copy, Debug, PartialEq, Eq, Structural)]
pub struct VoiceValues {
    pub pitch: i32,
    pub rate: i32,
    pub volume: i32,
}

/// The values to set on the engine for the steps that a user chose, within
/// the ranges of the voice in use. They are to be worked out again whenever
/// another voice, with ranges of its own, is put to use.
pub fn voice_values(ranges: VoiceRanges, pitch: VoicePitch, rate: VoiceRate, volume: u8) -> (values:
    VoiceValues)
    ensures
        values.pitch == pitch_in(ranges.pitch, pitch),
        values.rate == rate_in(ranges.rate, rate),
        values.volume == volume_in(ranges.volume, volume),
{
    VoiceValues {
        pitch: pitch_value(ranges.pitch, pitch),
        rate: rate_value(ranges.rate, rate),
        volume: volume_value(ranges.volume, volume),
    }
}

/// `index` is the first voice with the wanted name.
pub open spec fn is_first_named(voices: Seq<String>, wanted: Seq<char>, index: int) -> bool {
    &&& 0 <= index < voices.len()
    &&& voices[index]@ == wanted
    &&& forall|j: int| 0 <= j < index ==> voices[j]@ != wanted
}

/// Picks the voice to use among those that the engine lists, by the
/// identifier that the settings hold. `None` only where the engine lists no
/// voice at all.
pub fn choose_voice(voices: &Vec<String>, wanted: &String) -> (index: Option<usize>)
    ensures
        voices.len() == 0 <==> index is None,
        index matches Some(i) ==> {
            &&& i < voices.len()
            &&& is_first_named(voices@, wanted@, i as int) || (i == 0 && forall|j: int|
                0 <= j < voices.len() ==> voices@[j]@ != wanted@)
        },
{
    if voices.len() == 0 {
        return None;
    }
    let mut i: usize = 0;
    while i < voices.len()
        invariant
            i <= voices.len(),
            forall|j: int| 0 <= j < i ==> voices@[j]@ != wanted@,
        decreases voices.len() - i,
    {
        if voices[i] == *wanted {
            return Some(i);
        }
        i += 1;
    }
    Some(0)
}

} // verus!
