use draw_read::voice::{
    choose_voice, pitch_value, rate_value, subdivide, voice_values, volume_value, ValueRange,
    VoicePitch, VoiceRanges, VoiceRate, VoiceValues, FULL_VOLUME, LEVELS,
};

const PITCHES: [VoicePitch; 6] = [
    VoicePitch::Soprano,
    VoicePitch::Mezzo,
    VoicePitch::Alto,
    VoicePitch::Tenor,
    VoicePitch::Baritone,
    VoicePitch::Bass,
];

const RATES: [VoiceRate; 6] = [
    VoiceRate::Slowest,
    VoiceRate::Slow,
    VoiceRate::Default,
    VoiceRate::Fast,
    VoiceRate::Fastest,
    VoiceRate::TooFast,
];

fn range(min: i32, max: i32) -> ValueRange {
    ValueRange::new(min, max).unwrap()
}

fn names(list: &[&str]) -> Vec<String> {
    list.iter().map(|name| name.to_string()).collect()
}

#[test]
fn there_are_six_steps_and_a_byte_of_volume() {
    assert_eq!(LEVELS, 6);
    assert_eq!(FULL_VOLUME, 255);
}

#[test]
fn the_middle_steps_are_the_defaults() {
    assert_eq!(VoicePitch::default(), VoicePitch::Alto);
    assert_eq!(VoiceRate::default(), VoiceRate::Default);
}

#[test]
fn a_pitch_has_a_number_from_one_to_six() {
    for (index, &pitch) in PITCHES.iter().enumerate() {
        assert_eq!(pitch.number() as usize, index + 1);
    }
}

#[test]
fn a_rate_has_a_number_from_one_to_six() {
    for (index, &rate) in RATES.iter().enumerate() {
        assert_eq!(rate.number() as usize, index + 1);
    }
}

#[test]
fn a_pitch_comes_back_from_its_number() {
    for &pitch in &PITCHES {
        assert_eq!(VoicePitch::from(pitch.number()), pitch);
        assert_eq!(VoicePitch::from_i64(pitch.number() as i64), Some(pitch));
        assert_eq!(VoicePitch::from_u64(pitch.number() as u64), Some(pitch));
    }
}

#[test]
fn a_rate_comes_back_from_its_number() {
    for &rate in &RATES {
        assert_eq!(VoiceRate::from(rate.number()), rate);
        assert_eq!(VoiceRate::from_i64(rate.number() as i64), Some(rate));
        assert_eq!(VoiceRate::from_u64(rate.number() as u64), Some(rate));
    }
}

#[test]
fn any_other_number_names_the_last_pitch() {
    for &num in &[0u8, 6, 7, 100, 255] {
        assert_eq!(VoicePitch::from(num), VoicePitch::Bass);
    }
    for &num in &[i64::MIN, -1, 0, 6, 7, i64::MAX] {
        assert_eq!(VoicePitch::from_i64(num), Some(VoicePitch::Bass));
    }
    for &num in &[0u64, 6, 7, u64::MAX] {
        assert_eq!(VoicePitch::from_u64(num), Some(VoicePitch::Bass));
    }
}

#[test]
fn any_other_number_names_the_last_rate() {
    for &num in &[0u8, 6, 7, 100, 255] {
        assert_eq!(VoiceRate::from(num), VoiceRate::TooFast);
    }
    for &num in &[i64::MIN, -1, 0, 6, 7, i64::MAX] {
        assert_eq!(VoiceRate::from_i64(num), Some(VoiceRate::TooFast));
    }
    for &num in &[0u64, 6, 7, u64::MAX] {
        assert_eq!(VoiceRate::from_u64(num), Some(VoiceRate::TooFast));
    }
}

#[test]
fn steps_are_ordered_as_they_are_listed() {
    assert!(VoicePitch::Soprano < VoicePitch::Mezzo);
    assert!(VoicePitch::Baritone < VoicePitch::Bass);
    assert!(VoiceRate::Slow < VoiceRate::Default);
    assert!(VoiceRate::Default < VoiceRate::Fast);
}

#[test]
fn a_range_is_not_upside_down() {
    let range = ValueRange::new(0, 2000).unwrap();
    assert_eq!((range.min(), range.max()), (0, 2000));
    let point = ValueRange::new(5, 5).unwrap();
    assert_eq!((point.min(), point.max()), (5, 5));
    assert_eq!(ValueRange::new(6, 5), None);
}

#[test]
fn a_range_lies_between_two_values_in_either_order() {
    assert_eq!(Some(ValueRange::between(0, 2000)), ValueRange::new(0, 2000));
    assert_eq!(Some(ValueRange::between(2000, 0)), ValueRange::new(0, 2000));
    assert_eq!(Some(ValueRange::between(-3, -3)), ValueRange::new(-3, -3));
}

#[test]
fn the_third_pitch_of_six_lies_two_fifths_up_the_range() {
    // The range 0.0 to 2.0 in thousandths: 0 + 2 * (2000 - 0) / 5 = 800, which is 0.8.
    let value = pitch_value(range(0, 2000), VoicePitch::Alto);
    assert_eq!(value, 800);
    assert_eq!(value as f32 / 1000.0, 0.8);
    assert_eq!(0.0 + 2.0 * (2.0 - 0.0) / 5.0, 0.8f32);
}

#[test]
fn the_pitches_divide_the_range_evenly() {
    let values: Vec<i32> = PITCHES
        .iter()
        .map(|&pitch| pitch_value(range(0, 2000), pitch))
        .collect();
    assert_eq!(values, vec![0, 400, 800, 1200, 1600, 2000]);
}

#[test]
fn the_rates_divide_the_range_evenly() {
    let values: Vec<i32> = RATES
        .iter()
        .map(|&rate| rate_value(range(500, 3000), rate))
        .collect();
    assert_eq!(values, vec![500, 1000, 1500, 2000, 2500, 3000]);
}

#[test]
fn the_first_step_is_the_lower_end_and_the_last_the_upper_end() {
    for &(min, max) in &[(0, 2000), (-10000, 10000), (7, 7), (i32::MIN, i32::MAX)] {
        assert_eq!(pitch_value(range(min, max), VoicePitch::Soprano), min);
        assert_eq!(pitch_value(range(min, max), VoicePitch::Bass), max);
        assert_eq!(rate_value(range(min, max), VoiceRate::Slowest), min);
        assert_eq!(rate_value(range(min, max), VoiceRate::TooFast), max);
        assert_eq!(volume_value(range(min, max), 0), min);
        assert_eq!(volume_value(range(min, max), 255), max);
    }
}

#[test]
fn a_step_between_two_values_is_rounded_down() {
    // 1 * 7 / 5 = 1.4, 2 * 7 / 5 = 2.8, 3 * 7 / 5 = 4.2, 4 * 7 / 5 = 5.6
    let values: Vec<i32> = PITCHES
        .iter()
        .map(|&pitch| pitch_value(range(-3, 4), pitch))
        .collect();
    assert_eq!(values, vec![-3, -2, -1, 1, 2, 4]);
}

#[test]
fn the_volume_scales_linearly() {
    assert_eq!(volume_value(range(0, 1000), 51), 200);
    assert_eq!(volume_value(range(0, 1000), 102), 400);
    // 128 * 2000 / 255 = 1003.9
    assert_eq!(volume_value(range(0, 2000), 128), 1003);
    assert_eq!(volume_value(range(-100, 155), 100), 0);
}

#[test]
fn a_subdivision_takes_the_whole_width_of_the_numbers() {
    // 3 * 4294967295 / 4294967295 steps up
    assert_eq!(
        subdivide(range(i32::MIN, i32::MAX), u32::MAX, u32::MAX),
        i32::MAX
    );
    assert_eq!(subdivide(range(i32::MIN, i32::MAX), 1, 2), -1);
    assert_eq!(subdivide(range(i32::MIN, i32::MAX), 0, 1), i32::MIN);
}

#[test]
fn a_subdivision_never_falls_as_the_step_rises() {
    let r = range(-17, 1234);
    let mut last = i32::MIN;
    for index in 0..=255u32 {
        let value = subdivide(r, index, 255);
        assert!(last <= value);
        assert!(-17 <= value && value <= 1234);
        last = value;
    }
}

#[test]
fn the_values_for_a_voice_follow_its_ranges() {
    let ranges = VoiceRanges {
        pitch: range(0, 2000),
        rate: range(500, 3000),
        volume: range(0, 1000),
    };
    assert_eq!(
        voice_values(ranges, VoicePitch::Alto, VoiceRate::Fast, 255),
        VoiceValues {
            pitch: 800,
            rate: 2000,
            volume: 1000
        }
    );
    let other = VoiceRanges {
        pitch: range(-10000, 10000),
        rate: range(0, 100),
        volume: range(0, 100),
    };
    assert_eq!(
        voice_values(other, VoicePitch::Alto, VoiceRate::Fast, 255),
        VoiceValues {
            pitch: -2000,
            rate: 60,
            volume: 100
        }
    );
}

#[test]
fn the_wanted_voice_is_chosen() {
    let voices = names(&["anna", "bert", "cleo"]);
    assert_eq!(choose_voice(&voices, &"bert".to_string()), Some(1));
    assert_eq!(choose_voice(&voices, &"cleo".to_string()), Some(2));
    assert_eq!(choose_voice(&voices, &"anna".to_string()), Some(0));
}

#[test]
fn the_first_voice_is_chosen_where_the_wanted_one_is_missing() {
    let voices = names(&["anna", "bert", "cleo"]);
    assert_eq!(choose_voice(&voices, &"dora".to_string()), Some(0));
    assert_eq!(choose_voice(&voices, &String::new()), Some(0));
    assert_eq!(choose_voice(&voices, &"Bert".to_string()), Some(0));
}

#[test]
fn the_first_of_two_voices_with_one_name_is_chosen() {
    let voices = names(&["anna", "bert", "bert"]);
    assert_eq!(choose_voice(&voices, &"bert".to_string()), Some(1));
}

#[test]
fn no_voice_is_chosen_where_there_is_none() {
    assert_eq!(choose_voice(&Vec::new(), &"bert".to_string()), None);
    assert_eq!(choose_voice(&Vec::new(), &String::new()), None);
}
