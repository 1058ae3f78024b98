use xrconnect::bhaptics_studio::ws::v2::model::{
    build_status, BHapticsWebsocketV2ServerMessage, EngineStateSnapshot, PositionMotors,
    PositionStatus, PositionType, MAX_INTENSITY, MOTORS_PER_POSITION,
};
use xrconnect::enumerated::Enumerated;
use xrconnect::json::{Json, Member};

fn snapshot() -> EngineStateSnapshot {
    EngineStateSnapshot {
        registered_keys: vec!["0".to_string(), "11".to_string()],
        active_keys: vec!["key".to_string(), "0".to_string()],
        connected_device_count: 1,
        connected_positions: vec![PositionType::VestBack],
        motors: vec![
            PositionMotors { position: PositionType::VestBack, motors: vec![0, 50, 100, 101, 255] },
            PositionMotors { position: PositionType::VestFront, motors: vec![7; 25] },
            PositionMotors { position: PositionType::VestBack, motors: vec![9; 20] },
            PositionMotors { position: PositionType::Head, motors: vec![] },
        ],
    }
}

fn member(name: &str, value: Json) -> Member {
    Member { name: name.to_string(), value }
}

fn texts(items: &[&str]) -> Json {
    Json::Array(items.iter().map(|s| Json::Text(s.to_string())).collect())
}

fn numbers(items: &[u8]) -> Json {
    Json::Array(items.iter().map(|n| Json::Number(n.to_string())).collect())
}

#[test]
fn constants_are_those_of_the_protocol() {
    assert_eq!(MOTORS_PER_POSITION, 20);
    assert_eq!(MAX_INTENSITY, 100);
}

#[test]
fn status_passes_keys_and_count_on() {
    let status = build_status(snapshot());
    assert_eq!(status.registered_keys, vec!["0".to_string(), "11".to_string()]);
    assert_eq!(status.active_keys, vec!["key".to_string(), "0".to_string()]);
    assert_eq!(status.connected_device_count, 1);
    assert_eq!(status.connected_positions, vec!["VestBack".to_string()]);
}

#[test]
fn status_lines_have_fixed_length_and_range() {
    let status = build_status(snapshot());
    let mut back = vec![0, 50, 100, 100, 100];
    back.resize(20, 0);
    assert_eq!(
        status.status,
        vec![
            PositionStatus { position: "VestBack".to_string(), motors: back },
            PositionStatus { position: "VestFront".to_string(), motors: vec![7; 20] },
            PositionStatus { position: "Head".to_string(), motors: vec![0; 20] },
        ]
    );
    for line in &status.status {
        assert_eq!(line.motors.len(), MOTORS_PER_POSITION);
        assert!(line.motors.iter().all(|m| *m <= MAX_INTENSITY));
    }
}

#[test]
fn status_of_an_idle_engine_is_empty() {
    let status = build_status(EngineStateSnapshot {
        registered_keys: vec![],
        active_keys: vec![],
        connected_device_count: 0,
        connected_positions: vec![],
        motors: vec![],
    });
    assert_eq!(
        status,
        BHapticsWebsocketV2ServerMessage {
            registered_keys: vec![],
            active_keys: vec![],
            connected_device_count: 0,
            connected_positions: vec![],
            status: vec![],
        }
    );
    assert_eq!(
        status.to_json(),
        Json::Object(vec![
            member("RegisteredKeys", Json::Array(vec![])),
            member("ActiveKeys", Json::Array(vec![])),
            member("ConnectedDeviceCount", Json::Number("0".to_string())),
            member("ConnectedPositions", Json::Array(vec![])),
            member("Status", Json::Object(vec![])),
        ])
    );
}

#[test]
fn status_is_written_in_the_shape_of_the_protocol() {
    let status = BHapticsWebsocketV2ServerMessage {
        registered_keys: vec!["0".to_string(), "11".to_string()],
        active_keys: vec!["key".to_string()],
        connected_device_count: 4294967295,
        connected_positions: vec!["VestBack".to_string(), "GloveL".to_string()],
        status: vec![
            PositionStatus { position: "VestBack".to_string(), motors: vec![0, 100] },
            PositionStatus { position: "GloveL".to_string(), motors: vec![] },
        ],
    };
    assert_eq!(
        status.to_json(),
        Json::Object(vec![
            member("RegisteredKeys", texts(&["0", "11"])),
            member("ActiveKeys", texts(&["key"])),
            member("ConnectedDeviceCount", Json::Number("4294967295".to_string())),
            member("ConnectedPositions", texts(&["VestBack", "GloveL"])),
            member(
                "Status",
                Json::Object(vec![
                    member("VestBack", numbers(&[0, 100])),
                    member("GloveL", numbers(&[])),
                ])
            ),
        ])
    );
}

#[test]
fn every_position_reports_under_its_name() {
    let all = [
        (PositionType::All, "All", 0),
        (PositionType::Left, "Left", 1),
        (PositionType::Right, "Right", 2),
        (PositionType::Vest, "Vest", 3),
        (PositionType::Head, "Head", 4),
        (PositionType::Racket, "Racket", 5),
        (PositionType::HandL, "HandL", 6),
        (PositionType::HandR, "HandR", 7),
        (PositionType::FootL, "FootL", 8),
        (PositionType::FootR, "FootR", 9),
        (PositionType::ForearmL, "ForearmL", 10),
        (PositionType::ForearmR, "ForearmR", 11),
        (PositionType::VestFront, "VestFront", 201),
        (PositionType::VestBack, "VestBack", 202),
        (PositionType::GloveL, "GloveL", 203),
        (PositionType::GloveR, "GloveR", 204),
        (PositionType::Custom1, "Custom1", 251),
        (PositionType::Custom2, "Custom2", 252),
        (PositionType::Custom3, "Custom3", 253),
        (PositionType::Custom4, "Custom4", 254),
    ];
    for (position, name, code) in all {
        assert_eq!(position.wire_name(), name);
        assert_eq!(PositionType::parse(name), Some(position));
        assert_eq!(position.code(), code);
    }
    assert_eq!(PositionType::parse("all"), None);
    assert_eq!(PositionType::parse(""), None);
    assert_eq!(PositionType::parse("Custom5"), None);
    let status = build_status(EngineStateSnapshot {
        registered_keys: vec![],
        active_keys: vec![],
        connected_device_count: 20,
        connected_positions: all.iter().map(|a| a.0).collect(),
        motors: vec![],
    });
    assert_eq!(
        status.connected_positions,
        all.iter().map(|a| a.1.to_string()).collect::<Vec<String>>()
    );
}
