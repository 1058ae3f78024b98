use xrconnect::bhaptics_studio::tact::grammar::Field;
use xrconnect::bhaptics_studio::tact::project::{HapticFeedbackMode, PathMovingPattern};
use xrconnect::bhaptics_studio::tact::SubmitKind;
use xrconnect::enumerated::Enumerated;
use xrconnect::haptic_lib::{BodyPart, EffectInterpolation, EffectPath};
use xrconnect::json::Decimal;
use xrconnect::text::{is_number, number_key, parse_unsigned, same_text, unsigned_text};

#[test]
fn same_text_compares_characters() {
    assert!(same_text("", ""));
    assert!(same_text("Key", "Key"));
    assert!(!same_text("Key", "key"));
    assert!(!same_text("Key", "Keys"));
    assert!(!same_text("Keys", "Key"));
    assert!(same_text("gr\u{fc}n", "gr\u{fc}n"));
    assert!(!same_text("gr\u{fc}n", "grun"));
}

#[test]
fn numerals_are_read_exactly() {
    assert_eq!(parse_unsigned("0", u64::MAX), Some(0));
    assert_eq!(parse_unsigned("7", u64::MAX), Some(7));
    assert_eq!(parse_unsigned("1583739337216", u64::MAX), Some(1583739337216));
    assert_eq!(parse_unsigned("18446744073709551615", u64::MAX), Some(u64::MAX));
    assert_eq!(parse_unsigned("255", 255), Some(255));
    assert_eq!(parse_unsigned("4294967295", 4294967295), Some(4294967295));
}

#[test]
fn what_is_no_numeral_within_the_bound_is_not_read() {
    assert_eq!(parse_unsigned("18446744073709551616", u64::MAX), None);
    assert_eq!(parse_unsigned("99999999999999999999999999", u64::MAX), None);
    assert_eq!(parse_unsigned("256", 255), None);
    assert_eq!(parse_unsigned("4294967296", 4294967295), None);
    assert_eq!(parse_unsigned("1", 0), None);
    assert_eq!(parse_unsigned("0", 0), Some(0));
    for text in ["", "-1", "+1", "1.0", "1e3", "00", "007", " 1", "1 ", "0x10", "one", "1\u{665}"] {
        assert_eq!(parse_unsigned(text, u64::MAX), None, "{:?}", text);
    }
}

#[test]
fn numerals_are_written_canonically() {
    assert_eq!(unsigned_text(0), "0");
    assert_eq!(unsigned_text(9), "9");
    assert_eq!(unsigned_text(10), "10");
    assert_eq!(unsigned_text(100), "100");
    assert_eq!(unsigned_text(1583739371784), "1583739371784");
    assert_eq!(unsigned_text(u64::MAX), "18446744073709551615");
    for n in [0u64, 1, 19, 20, 99, 1000, 65535, 4294967296, u64::MAX - 1] {
        assert_eq!(unsigned_text(n), n.to_string());
        assert_eq!(parse_unsigned(&unsigned_text(n), u64::MAX), Some(n));
    }
}

#[test]
fn decimal_keeps_its_text() {
    let d = Decimal::new("0.30000000000000004").unwrap();
    assert_eq!(d.as_str(), "0.30000000000000004");
    assert_eq!(d, Decimal { text: "0.30000000000000004".to_string() });
    assert_eq!(Decimal::new("1.5x"), None);
    assert_eq!(Decimal::new(""), None);
}

#[test]
fn number_text_is_told_from_other_text() {
    for text in [
        "0", "-0", "7", "100", "-12", "0.5", "-0.25", "5.0", "100.0", "-0.0", "1e2", "1E2",
        "1e+2", "1e-7", "6.079537928711555e+61", "0.30000000000000004", "18446744073709551616",
        "0e0", "1.5E-10",
    ] {
        assert!(is_number(text), "{:?}", text);
    }
    for text in [
        "", "-", "+1", "01", "-01", "1.", ".5", "1..5", "1.5.", "1e", "1e+", "1e-", "e5", "1e5.0",
        "1 ", " 1", "0x10", "NaN", "Infinity", "1,5", "1.5x", "--1", "\u{661}",
    ] {
        assert!(!is_number(text), "{:?}", text);
    }
}

#[test]
fn number_key_drops_a_fraction_of_zero() {
    assert_eq!(number_key("5.0"), "5");
    assert_eq!(number_key("5"), "5");
    assert_eq!(number_key("100.0"), "100");
    assert_eq!(number_key("-12.0"), "-12");
    assert_eq!(number_key("0.0"), "0");
    assert_eq!(number_key("2.5"), "2.5");
    assert_eq!(number_key("5.00"), "5.00");
    assert_eq!(number_key("5.10"), "5.10");
    assert_eq!(number_key("1e-7"), "1e-7");
    assert_eq!(number_key(".0"), ".0");
    assert_eq!(number_key("x.0"), "x.0");
    assert_eq!(number_key(""), "");
}

#[test]
fn field_table_lists_canonical_name_first() {
    assert_eq!(Field::EntryKey.names(), vec!["key", "Key"]);
    assert_eq!(Field::EntryKey.name(), "key");
    assert_eq!(
        Field::ProjectMediaFileDuration.names(),
        vec!["media_file_duration", "mediaFileDuration"]
    );
    assert_eq!(Field::ModeDotMode.names(), vec!["dotMode"]);
    assert_eq!(Field::ParametersAltKey.names(), vec!["altKey"]);
    assert_eq!(Field::LayoutType.names(), vec!["type", "Type"]);
    assert_eq!(Field::SubmitType.name(), "Type");
    assert_eq!(Field::StatusStatus.name(), "Status");
}

#[test]
fn field_admits_its_names_and_no_others() {
    assert!(Field::EntryKey.admits("key"));
    assert!(Field::EntryKey.admits("Key"));
    assert!(!Field::EntryKey.admits("KEY"));
    assert!(!Field::EntryKey.admits(""));
    assert!(Field::RotationOffsetY.admits("offsetY"));
    assert!(Field::RotationOffsetY.admits("offset_y"));
    assert!(!Field::RotationOffsetAngleX.admits("offset_angle_x"));
    assert!(!Field::SubmitType.admits("type"));
}

#[test]
fn playback_curves_go_by_their_wire_names() {
    let all = [
        (EffectInterpolation::NoFade, "NONE"),
        (EffectInterpolation::FadeIn, "FADE_IN"),
        (EffectInterpolation::FadeOut, "FADE_OUT"),
        (EffectInterpolation::FadeInOut, "FADE_IN_OUT"),
    ];
    for (curve, name) in all {
        assert_eq!(curve.wire_name(), name);
        assert_eq!(EffectInterpolation::parse(name), Some(curve));
    }
    assert_eq!(EffectInterpolation::parse("None"), None);
    assert_eq!(EffectInterpolation::parse("FADE_IN "), None);
}

#[test]
fn moving_patterns_go_by_their_wire_names() {
    assert_eq!(PathMovingPattern::parse("CONST_SPEED"), Some(PathMovingPattern::ConstSpeed));
    assert_eq!(PathMovingPattern::parse("CONST_TDM"), Some(PathMovingPattern::ConstTDM));
    assert_eq!(PathMovingPattern::parse("CONST_T_D_M"), Some(PathMovingPattern::ConstTDM));
    assert_eq!(PathMovingPattern::parse("CONST"), None);
    assert_eq!(PathMovingPattern::ConstSpeed.wire_name(), "CONST_SPEED");
    assert_eq!(PathMovingPattern::ConstTDM.wire_name(), "CONST_TDM");
}

#[test]
fn feedback_modes_go_by_their_wire_names() {
    assert_eq!(HapticFeedbackMode::parse("DOT_MODE"), Some(HapticFeedbackMode::DotMode));
    assert_eq!(HapticFeedbackMode::parse("PATH_MODE"), Some(HapticFeedbackMode::PathMode));
    assert_eq!(HapticFeedbackMode::parse("dotMode"), None);
    assert_eq!(HapticFeedbackMode::DotMode.wire_name(), "DOT_MODE");
    assert_eq!(HapticFeedbackMode::PathMode.wire_name(), "PATH_MODE");
}

#[test]
fn submit_kinds_go_by_their_wire_names() {
    assert_eq!(SubmitKind::TurnOffAll.wire_name(), "turnOffAll");
    assert_eq!(SubmitKind::TurnOff.wire_name(), "turnOff");
    assert_eq!(SubmitKind::Frame.wire_name(), "frame");
    assert_eq!(SubmitKind::Registered.wire_name(), "key");
    assert_eq!(SubmitKind::parse("SubmitRegistered"), Some(SubmitKind::Registered));
    assert_eq!(SubmitKind::parse("SubmitFrame"), Some(SubmitKind::Frame));
    assert_eq!(SubmitKind::parse("turnoffall"), None);
}

#[test]
fn body_parts_have_their_codes() {
    assert_eq!(BodyPart::ChestFront.code(), 0);
    assert_eq!(BodyPart::ChestBack.code(), 1);
    assert_eq!(BodyPart::from_code(0), Some(BodyPart::ChestFront));
    assert_eq!(BodyPart::from_code(1), Some(BodyPart::ChestBack));
    assert_eq!(BodyPart::from_code(2), None);
    assert_eq!(EffectPath::Haptic(BodyPart::ChestBack).body_part(), BodyPart::ChestBack);
    assert_eq!(EffectPath::Thermal(BodyPart::ChestFront).body_part(), BodyPart::ChestFront);
}
