use xrconnect::bhaptics_studio::command::{to_haptic_commands, HapticCommand, ResolvedParameters};
use xrconnect::bhaptics_studio::tact::error::{DecodeError, DecodeReason};
use xrconnect::bhaptics_studio::tact::{
    decode_client_message, decode_request, DotPoint, PathPoint, PlayerRequest,
    PlayerSubmitRequest, RegisteredParameters, RegisteredParametersRotationOption,
    RegisteredParametersScaleOption, SubmitFrame,
};
use xrconnect::bhaptics_studio::ws::v2::model::PositionType;
use xrconnect::json::{Decimal, Json, Member};

fn decimal(text: &str) -> Decimal {
    Decimal { text: text.to_string() }
}

fn member(name: &str, value: Json) -> Member {
    Member { name: name.to_string(), value }
}

fn text(s: &str) -> Json {
    Json::Text(s.to_string())
}

fn number(s: &str) -> Json {
    Json::Number(s.to_string())
}

fn submit(ops: Vec<Json>) -> Json {
    Json::Object(vec![member("Submit", Json::Array(ops))])
}

fn error(reason: DecodeReason, fragment: &str) -> DecodeError {
    DecodeError { reason, fragment: fragment.to_string() }
}

#[test]
fn turn_off_all_maps_to_one_stop_all() {
    let message = decode_client_message(br#"{"Submit":[{"Type":"turnOffAll"}]}"#).unwrap();
    assert_eq!(message, PlayerRequest::Submit(vec![PlayerSubmitRequest::TurnOffAll]));
    let commands = to_haptic_commands(message);
    assert_eq!(commands, vec![HapticCommand::StopAll]);
}

#[test]
fn dot_frame_maps_to_one_ad_hoc_play() {
    let bytes = br#"{"Submit":[{"Type":"frame","Key":"7","Frame":{"Position":"VestFront","PathPoints":[],"DotPoints":[{"index":0,"intensity":100}],"DurationMillis":1000}}]}"#;
    let message = decode_client_message(bytes).unwrap();
    let commands = to_haptic_commands(message);
    assert_eq!(
        commands,
        vec![HapticCommand::PlayAdHoc {
            frame: SubmitFrame {
                position: PositionType::VestFront,
                path_points: vec![],
                dot_points: vec![DotPoint {
                    index: 0,
                    intensity: decimal("100"),
                    motor_count: None
                }],
                duration_millis: 1000,
            },
        }]
    );
}

#[test]
fn path_frame_keeps_coordinates_as_written() {
    let bytes = br#"{"Submit":[{"Type":"frame","Key":"key","Frame":{"Position":"VestFront","PathPoints":[{"x":0.5,"y":0.5,"intensity":100}],"DotPoints":[],"DurationMillis":1000}}]}"#;
    let message = decode_client_message(bytes).unwrap();
    assert_eq!(
        message,
        PlayerRequest::Submit(vec![PlayerSubmitRequest::SubmitFrame {
            key: "key".to_string(),
            frame: SubmitFrame {
                position: PositionType::VestFront,
                path_points: vec![PathPoint {
                    x: decimal("0.5"),
                    y: decimal("0.5"),
                    intensity: decimal("100")
                }],
                dot_points: vec![],
                duration_millis: 1000,
            },
        }])
    );
}

#[test]
fn frame_with_no_points_is_accepted() {
    let bytes = br#"{"Submit":[{"Type":"frame","Key":"k","Frame":{"Position":"Head","PathPoints":[],"DotPoints":[],"DurationMillis":0}}]}"#;
    let message = decode_client_message(bytes).unwrap();
    assert_eq!(
        message,
        PlayerRequest::Submit(vec![PlayerSubmitRequest::SubmitFrame {
            key: "k".to_string(),
            frame: SubmitFrame {
                position: PositionType::Head,
                path_points: vec![],
                dot_points: vec![],
                duration_millis: 0,
            },
        }])
    );
}

#[test]
fn number_key_and_string_key_decode_alike() {
    let by_number = decode_client_message(br#"{"Submit":[{"Type":"turnOff","Key":5}]}"#).unwrap();
    let by_string = decode_client_message(br#"{"Submit":[{"Type":"turnOff","Key":"5"}]}"#).unwrap();
    assert_eq!(by_number, by_string);
    assert_eq!(
        by_number,
        PlayerRequest::Submit(vec![PlayerSubmitRequest::TurnOff { key: "5".to_string() }])
    );
}

#[test]
fn number_key_is_its_canonical_text() {
    let cases: [(&[u8], &str); 9] = [
        (br#"{"Submit":[{"Type":"turnOff","Key":0}]}"#, "0"),
        (br#"{"Submit":[{"Type":"turnOff","Key":-12}]}"#, "-12"),
        (br#"{"Submit":[{"Type":"turnOff","Key":5.0}]}"#, "5"),
        (br#"{"Submit":[{"Type":"turnOff","Key":-12.0}]}"#, "-12"),
        (br#"{"Submit":[{"Type":"turnOff","Key":1e2}]}"#, "100"),
        (br#"{"Submit":[{"Type":"turnOff","Key":0.0}]}"#, "0"),
        (br#"{"Submit":[{"Type":"turnOff","Key":5.05}]}"#, "5.05"),
        (br#"{"Submit":[{"Type":"turnOff","Key":2.5}]}"#, "2.5"),
        (br#"{"Submit":[{"Type":"turnOff","Key":18446744073709551615}]}"#, "18446744073709551615"),
    ];
    for (bytes, key) in cases {
        assert_eq!(
            decode_client_message(bytes).unwrap(),
            PlayerRequest::Submit(vec![PlayerSubmitRequest::TurnOff { key: key.to_string() }])
        );
    }
}

#[test]
fn whole_number_names_one_key_however_written() {
    let expected =
        PlayerRequest::Submit(vec![PlayerSubmitRequest::TurnOff { key: "5".to_string() }]);
    for bytes in [
        &br#"{"Submit":[{"Type":"turnOff","Key":5}]}"#[..],
        &br#"{"Submit":[{"Type":"turnOff","Key":5.0}]}"#[..],
        &br#"{"Submit":[{"Type":"turnOff","Key":5.00}]}"#[..],
        &br#"{"Submit":[{"Type":"turnOff","Key":"5"}]}"#[..],
    ] {
        assert_eq!(decode_client_message(bytes).unwrap(), expected);
    }
    assert_eq!(
        decode_request(&submit(vec![Json::Object(vec![
            member("Type", text("turnOff")),
            member("Key", number("5.0")),
        ])])),
        Ok(expected)
    );
}

#[test]
fn string_key_keeps_its_text() {
    assert_eq!(
        decode_client_message(br#"{"Submit":[{"Type":"turnOff","Key":"5.0"}]}"#).unwrap(),
        PlayerRequest::Submit(vec![PlayerSubmitRequest::TurnOff { key: "5.0".to_string() }])
    );
}

#[test]
fn number_that_is_no_number_text_is_rejected_where_a_number_is_read() {
    let frame = |intensity: &str| {
        submit(vec![Json::Object(vec![
            member("Type", text("frame")),
            member("Key", text("k")),
            member(
                "Frame",
                Json::Object(vec![
                    member("Position", text("Vest")),
                    member("PathPoints", Json::Array(vec![])),
                    member(
                        "DotPoints",
                        Json::Array(vec![Json::Object(vec![
                            member("index", number("0")),
                            member("intensity", number(intensity)),
                        ])]),
                    ),
                    member("DurationMillis", number("1")),
                ]),
            ),
        ])])
    };
    assert!(decode_request(&frame("12.5")).is_ok());
    assert!(decode_request(&frame("1e-7")).is_ok());
    for bad in ["", "abc", "1.", ".5", "01", "1e", "--1", "1.0.0", "NaN"] {
        assert_eq!(
            decode_request(&frame(bad)),
            Err(error(DecodeReason::WrongEncoding, "intensity")),
            "{:?}",
            bad
        );
    }
}

#[test]
fn empty_string_key_is_a_key() {
    let message = decode_client_message(br#"{"Submit":[{"Type":"turnOff","Key":""}]}"#).unwrap();
    assert_eq!(
        message,
        PlayerRequest::Submit(vec![PlayerSubmitRequest::TurnOff { key: String::new() }])
    );
}

#[test]
fn key_of_another_type_is_rejected() {
    for bytes in [
        &br#"{"Submit":[{"Type":"turnOff","Key":true}]}"#[..],
        &br#"{"Submit":[{"Type":"turnOff","Key":null}]}"#[..],
        &br#"{"Submit":[{"Type":"turnOff","Key":[]}]}"#[..],
        &br#"{"Submit":[{"Type":"turnOff","Key":{}}]}"#[..],
    ] {
        assert_eq!(
            decode_client_message(bytes),
            Err(error(DecodeReason::WrongEncoding, "key"))
        );
    }
}

#[test]
fn null_alt_key_and_omitted_alt_key_decode_alike() {
    let with_null =
        decode_client_message(br#"{"Submit":[{"Type":"key","Key":"0","Parameters":{"altKey":null}}]}"#)
            .unwrap();
    let omitted =
        decode_client_message(br#"{"Submit":[{"Type":"key","Key":"0","Parameters":{}}]}"#).unwrap();
    assert_eq!(with_null, omitted);
    assert_eq!(
        omitted,
        PlayerRequest::Submit(vec![PlayerSubmitRequest::SubmitRegistered {
            key: "0".to_string(),
            parameters: RegisteredParameters {
                alt_key: None,
                start_time_millis: None,
                scale_option: None,
                rotation_option: None,
            },
        }])
    );
    assert_eq!(to_haptic_commands(with_null), to_haptic_commands(omitted));
}

#[test]
fn alt_key_is_read_from_string_or_number() {
    for bytes in [
        &br#"{"Submit":[{"Type":"key","Key":"0","Parameters":{"altKey":"9"}}]}"#[..],
        &br#"{"Submit":[{"Type":"key","Key":"0","Parameters":{"altKey":9}}]}"#[..],
        &br#"{"Submit":[{"Type":"key","Key":"0","Parameters":{"altKey":9.0}}]}"#[..],
    ] {
        assert_eq!(
            decode_client_message(bytes).unwrap(),
            PlayerRequest::Submit(vec![PlayerSubmitRequest::SubmitRegistered {
                key: "0".to_string(),
                parameters: RegisteredParameters {
                    alt_key: Some("9".to_string()),
                    start_time_millis: None,
                    scale_option: None,
                    rotation_option: None,
                },
            }])
        );
    }
    assert_eq!(
        decode_client_message(br#"{"Submit":[{"Type":"key","Key":"0","Parameters":{"altKey":false}}]}"#),
        Err(error(DecodeReason::WrongEncoding, "altKey"))
    );
}

#[test]
fn missing_parameters_mean_the_defaults() {
    let message = decode_client_message(br#"{"Submit":[{"Type":"key","Key":"0"}]}"#).unwrap();
    assert_eq!(
        to_haptic_commands(message),
        vec![HapticCommand::Play {
            key: "0".to_string(),
            parameters: ResolvedParameters {
                alt_key: None,
                start_offset_millis: 0,
                scale: None,
                rotation: None
            },
        }]
    );
}

#[test]
fn given_parameters_are_passed_on() {
    let bytes = br#"{"Submit":[{"Type":"key","Key":3,"Parameters":{"altKey":"alt","startTimeMillis":250,"scaleOption":{"intensity":0.5,"duration":2},"rotationOption":{"offsetAngleX":90,"offsetY":-0.25}}}]}"#;
    let message = decode_client_message(bytes).unwrap();
    assert_eq!(
        to_haptic_commands(message),
        vec![HapticCommand::Play {
            key: "3".to_string(),
            parameters: ResolvedParameters {
                alt_key: Some("alt".to_string()),
                start_offset_millis: 250,
                scale: Some(RegisteredParametersScaleOption {
                    intensity: decimal("0.5"),
                    duration: decimal("2")
                }),
                rotation: Some(RegisteredParametersRotationOption {
                    offset_angle_x: decimal("90"),
                    offset_y: decimal("-0.25")
                }),
            },
        }]
    );
}

#[test]
fn unknown_type_is_an_error_naming_the_tag() {
    assert_eq!(
        decode_client_message(br#"{"Submit":[{"Type":"rewind","Key":"0"}]}"#),
        Err(error(DecodeReason::UnknownTag, "rewind"))
    );
    assert_eq!(
        decode_client_message(br#"{"Submit":[{"Type":"turnOffAll"},{"Type":""}]}"#),
        Err(error(DecodeReason::UnknownTag, ""))
    );
}

#[test]
fn type_must_be_there_and_be_a_string() {
    assert_eq!(
        decode_client_message(br#"{"Submit":[{"Key":"0"}]}"#),
        Err(error(DecodeReason::MissingField, "Type"))
    );
    assert_eq!(
        decode_client_message(br#"{"Submit":[{"Type":1}]}"#),
        Err(error(DecodeReason::WrongEncoding, "Type"))
    );
    assert_eq!(
        decode_client_message(br#"{"Submit":[{"type":"turnOffAll"}]}"#),
        Err(error(DecodeReason::MissingField, "Type"))
    );
}

#[test]
fn every_spelling_of_a_type_is_read() {
    for tag in ["turnOffAll", "TurnOffAll"] {
        let bytes = format!(r#"{{"Submit":[{{"Type":"{}"}}]}}"#, tag);
        assert_eq!(
            decode_client_message(bytes.as_bytes()).unwrap(),
            PlayerRequest::Submit(vec![PlayerSubmitRequest::TurnOffAll])
        );
    }
    for tag in ["turnOff", "TurnOff"] {
        let bytes = format!(r#"{{"Submit":[{{"Type":"{}","key":"a"}}]}}"#, tag);
        assert_eq!(
            decode_client_message(bytes.as_bytes()).unwrap(),
            PlayerRequest::Submit(vec![PlayerSubmitRequest::TurnOff { key: "a".to_string() }])
        );
    }
    for tag in ["key", "Key", "SubmitRegistered"] {
        let bytes = format!(r#"{{"Submit":[{{"Type":"{}","Key":"a"}}]}}"#, tag);
        assert!(matches!(
            decode_client_message(bytes.as_bytes()).unwrap(),
            PlayerRequest::Submit(ops) if matches!(ops[0], PlayerSubmitRequest::SubmitRegistered { .. })
        ));
    }
    for tag in ["frame", "Frame", "SubmitFrame"] {
        let bytes = format!(
            r#"{{"Submit":[{{"Type":"{}","Key":"a","frame":{{"position":"Vest","path_points":[],"dot_points":[],"duration_millis":1}}}}]}}"#,
            tag
        );
        assert!(matches!(
            decode_client_message(bytes.as_bytes()).unwrap(),
            PlayerRequest::Submit(ops) if matches!(ops[0], PlayerSubmitRequest::SubmitFrame { .. })
        ));
    }
}

#[test]
fn turn_off_then_play_keeps_its_order() {
    let bytes = br#"{"Submit":[{"Type":"turnOff","Key":"k"},{"Type":"key","Key":"k"}]}"#;
    let commands = to_haptic_commands(decode_client_message(bytes).unwrap());
    assert_eq!(commands.len(), 2);
    assert_eq!(commands[0], HapticCommand::Stop { key: "k".to_string() });
    assert!(matches!(&commands[1], HapticCommand::Play { key, .. } if key == "k"));
}

#[test]
fn malformed_bytes_are_reported_as_such() {
    for bytes in [&b""[..], &b"{"[..], &b"{\"Submit\":[}"[..], &b"nul"[..], &b"{} {}"[..], &b"\xff"[..]] {
        assert_eq!(decode_client_message(bytes), Err(error(DecodeReason::Malformed, "")));
    }
}

#[test]
fn message_must_be_an_object_with_one_member() {
    for bytes in [
        &b"[]"[..],
        &b"null"[..],
        &b"\"Submit\""[..],
        &b"{}"[..],
        &br#"{"Submit":[],"Register":[]}"#[..],
        &br#"{"Submit":[],"extra":1}"#[..],
    ] {
        assert_eq!(decode_client_message(bytes), Err(error(DecodeReason::WrongEncoding, "")));
    }
}

#[test]
fn unknown_message_form_is_an_error_naming_it() {
    assert_eq!(
        decode_client_message(br#"{"Cancel":[]}"#),
        Err(error(DecodeReason::UnknownTag, "Cancel"))
    );
    assert_eq!(
        decode_client_message(br#"{"submit":[]}"#),
        Err(error(DecodeReason::UnknownTag, "submit"))
    );
}

#[test]
fn message_list_must_be_an_array_of_objects() {
    assert_eq!(
        decode_client_message(br#"{"Submit":{}}"#),
        Err(error(DecodeReason::WrongEncoding, "Submit"))
    );
    assert_eq!(
        decode_client_message(br#"{"Submit":["turnOffAll"]}"#),
        Err(error(DecodeReason::WrongEncoding, "Submit"))
    );
    assert_eq!(
        decode_client_message(br#"{"Register":7}"#),
        Err(error(DecodeReason::WrongEncoding, "Register"))
    );
    assert_eq!(
        decode_client_message(br#"{"Register":[null]}"#),
        Err(error(DecodeReason::WrongEncoding, "Register"))
    );
}

#[test]
fn empty_lists_are_empty_messages() {
    assert_eq!(
        decode_client_message(br#"{"Submit":[]}"#).unwrap(),
        PlayerRequest::Submit(vec![])
    );
    let register = decode_client_message(br#"{"Register":[]}"#).unwrap();
    assert_eq!(register, PlayerRequest::Register(vec![]));
    assert_eq!(to_haptic_commands(register), vec![]);
}

#[test]
fn unknown_position_is_rejected() {
    let bytes = br#"{"Submit":[{"Type":"frame","Key":"k","Frame":{"Position":"Elbow","PathPoints":[],"DotPoints":[],"DurationMillis":1}}]}"#;
    assert_eq!(decode_client_message(bytes), Err(error(DecodeReason::UnknownValue, "Elbow")));
    let bytes = br#"{"Submit":[{"Type":"frame","Key":"k","Frame":{"Position":"vestfront","PathPoints":[],"DotPoints":[],"DurationMillis":1}}]}"#;
    assert_eq!(decode_client_message(bytes), Err(error(DecodeReason::UnknownValue, "vestfront")));
    let bytes = br#"{"Submit":[{"Type":"frame","Key":"k","Frame":{"Position":3,"PathPoints":[],"DotPoints":[],"DurationMillis":1}}]}"#;
    assert_eq!(decode_client_message(bytes), Err(error(DecodeReason::WrongEncoding, "position")));
}

#[test]
fn frame_with_both_kinds_of_points_is_rejected() {
    let bytes = br#"{"Submit":[{"Type":"frame","Key":"k","Frame":{"Position":"Vest","PathPoints":[{"x":0,"y":0,"intensity":1}],"DotPoints":[{"index":0,"intensity":1}],"DurationMillis":1}}]}"#;
    assert_eq!(decode_client_message(bytes), Err(error(DecodeReason::WrongEncoding, "frame")));
}

#[test]
fn missing_frame_fields_are_named() {
    let bytes = br#"{"Submit":[{"Type":"frame","Key":"k"}]}"#;
    assert_eq!(decode_client_message(bytes), Err(error(DecodeReason::MissingField, "frame")));
    let bytes = br#"{"Submit":[{"Type":"frame","Frame":{}}]}"#;
    assert_eq!(decode_client_message(bytes), Err(error(DecodeReason::MissingField, "key")));
    let bytes = br#"{"Submit":[{"Type":"frame","Key":"k","Frame":{"Position":"Vest","DotPoints":[],"DurationMillis":1}}]}"#;
    assert_eq!(decode_client_message(bytes), Err(error(DecodeReason::MissingField, "path_points")));
    let bytes = br#"{"Submit":[{"Type":"frame","Key":"k","Frame":{"Position":"Vest","PathPoints":[],"DotPoints":[]}}]}"#;
    assert_eq!(
        decode_client_message(bytes),
        Err(error(DecodeReason::MissingField, "duration_millis"))
    );
    let bytes = br#"{"Submit":[{"Type":"frame","Key":"k","Frame":{"Position":"Vest","PathPoints":[],"DotPoints":[{"intensity":1}],"DurationMillis":1}}]}"#;
    assert_eq!(decode_client_message(bytes), Err(error(DecodeReason::MissingField, "index")));
}

#[test]
fn integers_out_of_form_or_range_are_rejected() {
    for duration in ["-1", "1.5", "1.0", "1e3", "4294967296", "\"10\"", "null", "true"] {
        let bytes = format!(
            r#"{{"Submit":[{{"Type":"frame","Key":"k","Frame":{{"Position":"Vest","PathPoints":[],"DotPoints":[],"DurationMillis":{}}}}}]}}"#,
            duration
        );
        assert_eq!(
            decode_client_message(bytes.as_bytes()),
            Err(error(DecodeReason::WrongEncoding, "duration_millis")),
            "{}",
            duration
        );
    }
    let bytes = br#"{"Submit":[{"Type":"frame","Key":"k","Frame":{"Position":"Vest","PathPoints":[],"DotPoints":[],"DurationMillis":4294967295}}]}"#;
    assert!(decode_client_message(bytes).is_ok());
    let bytes = br#"{"Submit":[{"Type":"frame","Key":"k","Frame":{"Position":"Vest","PathPoints":[],"DotPoints":[{"index":1,"intensity":1,"MotorCount":256}],"DurationMillis":1}}]}"#;
    assert_eq!(decode_client_message(bytes), Err(error(DecodeReason::WrongEncoding, "motor_count")));
}

#[test]
fn dot_point_reads_both_spellings_and_motor_count() {
    let bytes = br#"{"Submit":[{"Type":"frame","Key":"k","Frame":{"Position":"Vest","PathPoints":[],"DotPoints":[{"Index":3,"Intensity":12.5,"MotorCount":2},{"index":4,"intensity":0,"motor_count":null}],"DurationMillis":1}}]}"#;
    let message = decode_client_message(bytes).unwrap();
    let PlayerRequest::Submit(ops) = message else { panic!("not a submit message") };
    let PlayerSubmitRequest::SubmitFrame { frame, .. } = &ops[0] else { panic!("not a frame") };
    assert_eq!(
        frame.dot_points,
        vec![
            DotPoint { index: 3, intensity: decimal("12.5"), motor_count: Some(2) },
            DotPoint { index: 4, intensity: decimal("0"), motor_count: None },
        ]
    );
}

#[test]
fn field_given_under_two_spellings_is_rejected() {
    let j = submit(vec![Json::Object(vec![
        member("Type", text("turnOff")),
        member("key", text("a")),
        member("Key", text("a")),
    ])]);
    assert_eq!(decode_request(&j), Err(error(DecodeReason::WrongEncoding, "key")));
}

#[test]
fn unknown_fields_are_passed_over() {
    let j = submit(vec![Json::Object(vec![
        member("note", Json::Null),
        member("Type", text("turnOff")),
        member("Key", number("12")),
        member("keys", text("b")),
    ])]);
    assert_eq!(
        decode_request(&j).unwrap(),
        PlayerRequest::Submit(vec![PlayerSubmitRequest::TurnOff { key: "12".to_string() }])
    );
}

#[test]
fn first_failing_operation_decides_the_error() {
    let bytes = br#"{"Submit":[{"Type":"turnOff"},{"Type":"bogus"}]}"#;
    assert_eq!(decode_client_message(bytes), Err(error(DecodeReason::MissingField, "key")));
    let bytes = br#"{"Submit":[{"Type":"bogus"},{"Type":"turnOff"}]}"#;
    assert_eq!(decode_client_message(bytes), Err(error(DecodeReason::UnknownTag, "bogus")));
}
