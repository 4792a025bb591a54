use tinytask::control::mentions_power_or_video_lowered;
use tinytask::models::MacroRecording;
use tinytask::recorder::is_switch_lowered;
use tinytask::text::u64_to_decimal;

#[test]
fn decimal_text_of_numbers() {
    assert_eq!(u64_to_decimal(0), "0");
    assert_eq!(u64_to_decimal(7), "7");
    assert_eq!(u64_to_decimal(1040), "1040");
    assert_eq!(u64_to_decimal(u64::MAX), "18446744073709551615");
}

#[test]
fn switch_names_are_found_in_lowered_text() {
    assert!(is_switch_lowered("lid switch"));
    assert!(is_switch_lowered("power button"));
    assert!(is_switch_lowered("video bus"));
    assert!(!is_switch_lowered("logitech usb mouse"));
    // the text is taken as given: it must already be lower-cased
    assert!(!is_switch_lowered("Power Button"));
    assert!(mentions_power_or_video_lowered("power button"));
    assert!(mentions_power_or_video_lowered("video bus"));
    assert!(!mentions_power_or_video_lowered("lid switch"));
    assert!(!mentions_power_or_video_lowered("VIDEO bus"));
}

#[test]
fn a_new_recording_is_stamped_with_the_clock() {
    let rec = MacroRecording::new("now".to_string());
    // a reading after September 2020
    assert!(rec.created_at > 1_600_000_000);
}
