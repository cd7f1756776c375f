use facade::notice::{level_text, Notice, Reading};

#[test]
fn facade_notices_have_their_words_and_no_reading() {
    assert_eq!(Notice::TuningIn.words(), "Tuning in the airwaves...");
    assert_eq!(Notice::TuningIn.reading(), None);
    assert_eq!(Notice::ShuttingDown.words(), "Shutting down the radio...");
    assert_eq!(Notice::ShuttingDown.reading(), None);
}

#[test]
fn power_notices_name_the_device() {
    let on = Notice::PoweredOn { label: String::from("DVD") };
    let off = Notice::PoweredOff { label: String::from("DVD") };
    assert_eq!(on.words(), "DVD on");
    assert_eq!(off.words(), "DVD off");
    assert_eq!(on.reading(), None);
    assert_eq!(off.reading(), None);
    let unnamed = Notice::PoweredOn { label: String::new() };
    assert_eq!(unnamed.words(), " on");
}

#[test]
fn numbered_notices_give_words_and_reading() {
    let volume = Notice::VolumeSet { label: String::from("Amp"), level: -3 };
    assert_eq!(volume.words(), "Amp setting volume to ");
    assert_eq!(volume.reading(), Some(Reading::Level(-3)));
    let frequency = Notice::FrequencySet { label: String::from("Tuner"), bits: 42 };
    assert_eq!(frequency.words(), "Tuner setting frequency to ");
    assert_eq!(frequency.reading(), Some(Reading::FrequencyBits(42)));
}

#[test]
fn level_text_of_single_digits() {
    assert_eq!(level_text(0), "0");
    assert_eq!(level_text(5), "5");
    assert_eq!(level_text(9), "9");
}

#[test]
fn level_text_of_longer_numbers() {
    assert_eq!(level_text(10), "10");
    assert_eq!(level_text(11), "11");
    assert_eq!(level_text(100), "100");
    assert_eq!(level_text(1234567890), "1234567890");
    assert_eq!(level_text(90807), "90807");
}

#[test]
fn level_text_of_negative_numbers() {
    assert_eq!(level_text(-1), "-1");
    assert_eq!(level_text(-10), "-10");
    assert_eq!(level_text(-406), "-406");
}

#[test]
fn level_text_at_the_limits() {
    assert_eq!(level_text(i32::MAX), "2147483647");
    assert_eq!(level_text(i32::MIN), "-2147483648");
}

#[test]
fn level_text_agrees_with_the_standard_rendering() {
    let samples: Vec<i32> = vec![0, 1, -1, 7, 19, 20, 99, 101, -999, 1000, 65535, -65536, i32::MAX, i32::MIN];
    for level in samples {
        assert_eq!(level_text(level), format!("{}", level));
    }
}

#[test]
fn line_of_a_volume_notice_is_whole() {
    let volume = Notice::VolumeSet { label: String::from("Top-O-Line"), level: 5 };
    assert_eq!(volume.line(), "Top-O-Line setting volume to 5");
    let low = Notice::VolumeSet { label: String::from("Amp"), level: -12 };
    assert_eq!(low.line(), "Amp setting volume to -12");
    let top = Notice::VolumeSet { label: String::new(), level: i32::MIN };
    assert_eq!(top.line(), " setting volume to -2147483648");
}

#[test]
fn line_of_a_notice_without_a_number_is_its_words() {
    assert_eq!(Notice::TuningIn.line(), "Tuning in the airwaves...");
    assert_eq!(Notice::ShuttingDown.line(), "Shutting down the radio...");
    assert_eq!(Notice::PoweredOn { label: String::from("DVD") }.line(), "DVD on");
    assert_eq!(Notice::PoweredOff { label: String::from("DVD") }.line(), "DVD off");
}

#[test]
fn line_of_a_frequency_notice_waits_for_its_digits() {
    let frequency = Notice::FrequencySet { label: String::from("AM/FM"), bits: 101.5f64.to_bits() };
    assert_eq!(frequency.line(), "AM/FM setting frequency to ");
    assert_eq!(frequency.reading(), Some(Reading::FrequencyBits(101.5f64.to_bits())));
}
