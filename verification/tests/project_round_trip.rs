use xrconnect::bhaptics_studio::command::{to_haptic_commands, HapticCommand};
use xrconnect::bhaptics_studio::tact::error::{DecodeError, DecodeReason};
use xrconnect::bhaptics_studio::tact::grammar::Field;
use xrconnect::bhaptics_studio::tact::project::{
    DotMode, DotModeFeedbackCollection, HapticEffect, HapticEffectMode, HapticFeedbackMode,
    NamedLayout, PathMode, PathModeFeedbackCollection, PathMovingPattern, PositionMode, Project,
    ProjectLayout, ProjectLayoutObject, ProjectTrack,
};
use xrconnect::bhaptics_studio::tact::wire::{Compose, Wire};
use xrconnect::bhaptics_studio::tact::{
    decode_client_message, decode_request, DotPoint, PathPoint, PlayerRegisterRequest,
    PlayerRequest,
};
use xrconnect::bhaptics_studio::ws::v2::model::PositionType;
use xrconnect::haptic_lib::EffectInterpolation;
use xrconnect::json::{Decimal, Json, Member};

const REGISTER: &str = r#"{
   "Register":[
      {
         "Key":0,
         "project":{
            "createdAt":1583739337216,
            "description":"",
            "layout":{
               "layouts":{
                  "ForearmL":[
                     {"index":0,"x":0,"y":0},
                     {"index":1,"x":0.5,"y":0},
                     {"index":2,"x":1,"y":0},
                     {"index":3,"x":0,"y":1},
                     {"index":4,"x":0.5,"y":1},
                     {"index":5,"x":1,"y":1}
                  ],
                  "ForearmR":[
                     {"index":0,"x":0,"y":0},
                     {"index":1,"x":0.5,"y":0}
                  ]
               },
               "name":"Tactosy2",
               "type":"Tactosy2"
            },
            "mediaFileDuration":1,
            "name":"Block_L",
            "tracks":[
               {
                  "effects":[
                     {
                        "modes":{
                           "ForearmL":{
                              "dotMode":{
                                 "dotConnected":false,
                                 "feedback":[
                                    {
                                       "endTime":117,
                                       "playbackType":"FADE_OUT",
                                       "pointList":[
                                          {"index":0,"intensity":0.5},
                                          {"index":1,"intensity":0.5},
                                          {"index":2,"intensity":0.5}
                                       ],
                                       "startTime":0
                                    }
                                 ]
                              },
                              "mode":"DOT_MODE",
                              "pathMode":{
                                 "feedback":[
                                    {
                                       "movingPattern":"CONST_SPEED",
                                       "playbackType":"NONE",
                                       "visible":true,
                                       "pointList":[]
                                    }
                                 ]
                              }
                           },
                           "ForearmR":{
                              "dotMode":{
                                 "dotConnected":false,
                                 "feedback":[
                                    {
                                       "endTime":117,
                                       "playbackType":"NONE",
                                       "startTime":0,
                                       "pointList":[]
                                    }
                                 ]
                              },
                              "mode":"PATH_MODE",
                              "pathMode":{
                                 "feedback":[
                                    {
                                       "movingPattern":"CONST_TDM",
                                       "playbackType":"FADE_IN_OUT",
                                       "visible":false,
                                       "pointList":[{"x":0.25,"y":0.75,"intensity":0.30000000000000004}]
                                    }
                                 ]
                              }
                           }
                        },
                        "name":"Effect 1",
                        "offsetTime":117,
                        "startTime":0
                     }
                  ],
                  "enable":true
               },
               {
                  "enable":true,
                  "effects":[]
               }
            ],
            "updatedAt":1583739371784,
            "id":"-M1yD7LJCGRHZBDz9k7Z"
         }
      }
   ]
}"#;

fn decimal(text: &str) -> Decimal {
    Decimal { text: text.to_string() }
}

fn point(index: u8, x: &str, y: &str) -> ProjectLayoutObject {
    ProjectLayoutObject { index, x: decimal(x), y: decimal(y) }
}

fn dot(index: u32, intensity: &str) -> DotPoint {
    DotPoint { index, intensity: decimal(intensity), motor_count: None }
}

fn authored() -> Project {
    Project {
        id: "-M1yD7LJCGRHZBDz9k7Z".to_string(),
        description: String::new(),
        name: "Block_L".to_string(),
        media_file_duration: 1,
        layout: ProjectLayout {
            device_type: "Tactosy2".to_string(),
            name: "Tactosy2".to_string(),
            layouts: vec![
                NamedLayout {
                    name: "ForearmL".to_string(),
                    points: vec![
                        point(0, "0", "0"),
                        point(1, "0.5", "0"),
                        point(2, "1", "0"),
                        point(3, "0", "1"),
                        point(4, "0.5", "1"),
                        point(5, "1", "1"),
                    ],
                },
                NamedLayout {
                    name: "ForearmR".to_string(),
                    points: vec![point(0, "0", "0"), point(1, "0.5", "0")],
                },
            ],
        },
        tracks: vec![
            ProjectTrack {
                enable: true,
                effects: vec![HapticEffect {
                    name: "Effect 1".to_string(),
                    modes: vec![
                        PositionMode {
                            position: PositionType::ForearmL,
                            mode: HapticEffectMode {
                                mode: HapticFeedbackMode::DotMode,
                                dot_mode: DotMode {
                                    dot_connected: false,
                                    feedback: vec![DotModeFeedbackCollection {
                                        start_time: 0,
                                        end_time: 117,
                                        playback_type: EffectInterpolation::FadeOut,
                                        point_list: vec![dot(0, "0.5"), dot(1, "0.5"), dot(2, "0.5")],
                                    }],
                                },
                                path_mode: PathMode {
                                    feedback: vec![PathModeFeedbackCollection {
                                        moving_pattern: PathMovingPattern::ConstSpeed,
                                        playback_type: EffectInterpolation::NoFade,
                                        visible: true,
                                        point_list: vec![],
                                    }],
                                },
                            },
                        },
                        PositionMode {
                            position: PositionType::ForearmR,
                            mode: HapticEffectMode {
                                mode: HapticFeedbackMode::PathMode,
                                dot_mode: DotMode {
                                    dot_connected: false,
                                    feedback: vec![DotModeFeedbackCollection {
                                        start_time: 0,
                                        end_time: 117,
                                        playback_type: EffectInterpolation::NoFade,
                                        point_list: vec![],
                                    }],
                                },
                                path_mode: PathMode {
                                    feedback: vec![PathModeFeedbackCollection {
                                        moving_pattern: PathMovingPattern::ConstTDM,
                                        playback_type: EffectInterpolation::FadeInOut,
                                        visible: false,
                                        point_list: vec![PathPoint {
                                            x: decimal("0.25"),
                                            y: decimal("0.75"),
                                            intensity: decimal("0.30000000000000004"),
                                        }],
                                    }],
                                },
                            },
                        },
                    ],
                    start_time: 0,
                    offset_time: 117,
                }],
            },
            ProjectTrack { enable: true, effects: vec![] },
        ],
        created_at: 1583739337216,
        updated_at: 1583739371784,
    }
}

fn member(name: &str, value: Json) -> Member {
    Member { name: name.to_string(), value }
}

fn text(s: &str) -> Json {
    Json::Text(s.to_string())
}

fn number(s: &str) -> Json {
    Json::Number(s.to_string())
}

fn error(reason: DecodeReason, fragment: &str) -> DecodeError {
    DecodeError { reason, fragment: fragment.to_string() }
}

fn replace(j: &mut Json, name: &str, value: Json) {
    let Json::Object(members) = j else { panic!("not an object") };
    let at = members.iter().position(|m| m.name == name).unwrap();
    members[at].value = value;
}

fn field<'a>(j: &'a mut Json, name: &str) -> &'a mut Json {
    let Json::Object(members) = j else { panic!("not an object") };
    let at = members.iter().position(|m| m.name == name).unwrap();
    &mut members[at].value
}

fn item(j: &mut Json, at: usize) -> &mut Json {
    let Json::Array(items) = j else { panic!("not an array") };
    &mut items[at]
}

#[test]
fn register_message_decodes_to_the_authored_project() {
    let message = decode_client_message(REGISTER.as_bytes()).unwrap();
    assert_eq!(
        message,
        PlayerRequest::Register(vec![PlayerRegisterRequest {
            key: "0".to_string(),
            project: authored()
        }])
    );
}

#[test]
fn register_message_maps_to_one_registration() {
    let message = decode_client_message(REGISTER.as_bytes()).unwrap();
    assert_eq!(
        to_haptic_commands(message),
        vec![HapticCommand::RegisterProject { key: "0".to_string(), project: authored() }]
    );
}

#[test]
fn registrations_keep_the_order_of_the_message() {
    let one = &REGISTER[REGISTER.find('[').unwrap() + 1..REGISTER.rfind(']').unwrap()];
    let other = one.replacen("\"Key\":0", "\"Key\":\"later\"", 1);
    let both = format!("{{\"Register\":[{},{}]}}", one, other);
    let commands = to_haptic_commands(decode_client_message(both.as_bytes()).unwrap());
    assert_eq!(commands.len(), 2);
    assert!(matches!(&commands[0], HapticCommand::RegisterProject { key, .. } if key == "0"));
    assert!(matches!(&commands[1], HapticCommand::RegisterProject { key, .. } if key == "later"));
}

#[test]
fn decoded_project_is_written_and_read_back_unchanged() {
    let PlayerRequest::Register(entries) = decode_client_message(REGISTER.as_bytes()).unwrap()
    else {
        panic!("not a register message")
    };
    let project = &entries[0].project;
    let written = project.encode();
    assert_eq!(Project::decode(&written, Field::EntryProject).as_ref(), Ok(project));
    assert_eq!(Project::decode(&written, Field::EntryProject).unwrap().encode(), written);
}

#[test]
fn project_is_written_under_canonical_names() {
    let written = authored().encode();
    let Json::Object(members) = &written else { panic!("not an object") };
    let names: Vec<&str> = members.iter().map(|m| m.name.as_str()).collect();
    assert_eq!(
        names,
        vec![
            "id",
            "description",
            "name",
            "media_file_duration",
            "layout",
            "tracks",
            "created_at",
            "updated_at"
        ]
    );
    assert_eq!(members[0].value, text("-M1yD7LJCGRHZBDz9k7Z"));
    assert_eq!(members[3].value, number("1"));
    assert_eq!(members[6].value, number("1583739337216"));
    assert_eq!(members[7].value, number("1583739371784"));
}

#[test]
fn intensity_keeps_every_digit() {
    let point = PathPoint {
        x: decimal("0.1"),
        y: decimal("1e-7"),
        intensity: decimal("0.30000000000000004"),
    };
    let written = point.encode();
    assert_eq!(
        written,
        Json::Object(vec![
            member("x", number("0.1")),
            member("y", number("1e-7")),
            member("intensity", number("0.30000000000000004")),
        ])
    );
    assert_eq!(PathPoint::decode(&written, Field::FramePathPoints), Ok(point));
}

#[test]
fn dot_point_writes_a_missing_motor_count_as_null() {
    let without = DotPoint { index: 4294967295, intensity: decimal("100"), motor_count: None };
    assert_eq!(
        without.encode(),
        Json::Object(vec![
            member("index", number("4294967295")),
            member("intensity", number("100")),
            member("motor_count", Json::Null),
        ])
    );
    assert_eq!(DotPoint::decode(&without.encode(), Field::FrameDotPoints), Ok(without));
    let with = DotPoint { index: 0, intensity: decimal("1"), motor_count: Some(255) };
    assert_eq!(
        with.encode(),
        Json::Object(vec![
            member("index", number("0")),
            member("intensity", number("1")),
            member("motor_count", number("255")),
        ])
    );
    assert_eq!(DotPoint::decode(&with.encode(), Field::FrameDotPoints), Ok(with));
}

#[test]
fn project_fields_are_read_under_either_spelling() {
    let snake = REGISTER
        .replace("createdAt", "created_at")
        .replace("updatedAt", "updated_at")
        .replace("mediaFileDuration", "media_file_duration")
        .replace("dotConnected", "dot_connected")
        .replace("startTime", "start_time")
        .replace("endTime", "end_time")
        .replace("offsetTime", "offset_time")
        .replace("playbackType", "playback_type")
        .replace("pointList", "point_list")
        .replace("movingPattern", "moving_pattern")
        .replace("\"enable\"", "\"Enable\"")
        .replace("\"effects\"", "\"Effects\"")
        .replace("\"type\"", "\"Type\"")
        .replace("\"project\"", "\"Project\"")
        .replace("\"Key\"", "\"key\"")
        .replace("CONST_TDM", "CONST_T_D_M");
    assert_eq!(
        decode_client_message(snake.as_bytes()),
        decode_client_message(REGISTER.as_bytes())
    );
}

#[test]
fn renamed_fields_have_one_spelling_only() {
    let bytes = REGISTER.replace("dotMode", "dot_mode");
    assert_eq!(
        decode_client_message(bytes.as_bytes()),
        Err(error(DecodeReason::MissingField, "dotMode"))
    );
    let bytes = REGISTER.replace("\"id\"", "\"Id\"");
    assert_eq!(
        decode_client_message(bytes.as_bytes()),
        Err(error(DecodeReason::MissingField, "id"))
    );
}

#[test]
fn unknown_enumerated_values_are_rejected() {
    let bytes = REGISTER.replace("FADE_OUT", "FADE");
    assert_eq!(
        decode_client_message(bytes.as_bytes()),
        Err(error(DecodeReason::UnknownValue, "FADE"))
    );
    let bytes = REGISTER.replace("CONST_SPEED", "const_speed");
    assert_eq!(
        decode_client_message(bytes.as_bytes()),
        Err(error(DecodeReason::UnknownValue, "const_speed"))
    );
    let bytes = REGISTER.replace("DOT_MODE", "BOTH");
    assert_eq!(
        decode_client_message(bytes.as_bytes()),
        Err(error(DecodeReason::UnknownValue, "BOTH"))
    );
    let bytes = REGISTER.replacen("\"ForearmR\":{", "\"Knee\":{", 1);
    assert_eq!(
        decode_client_message(bytes.as_bytes()),
        Err(error(DecodeReason::UnknownValue, "Knee"))
    );
}

#[test]
fn wrong_encodings_in_a_project_are_named() {
    let bytes = REGISTER.replace("\"createdAt\":1583739337216", "\"createdAt\":\"yesterday\"");
    assert_eq!(
        decode_client_message(bytes.as_bytes()),
        Err(error(DecodeReason::WrongEncoding, "created_at"))
    );
    let bytes = REGISTER.replace("\"visible\":true", "\"visible\":1");
    assert_eq!(
        decode_client_message(bytes.as_bytes()),
        Err(error(DecodeReason::WrongEncoding, "visible"))
    );
    let bytes = REGISTER.replace("\"description\":\"\"", "\"description\":null");
    assert_eq!(
        decode_client_message(bytes.as_bytes()),
        Err(error(DecodeReason::WrongEncoding, "description"))
    );
    let bytes = REGISTER.replace("{\"index\":5,\"x\":1,\"y\":1}", "{\"index\":256,\"x\":1,\"y\":1}");
    assert_eq!(
        decode_client_message(bytes.as_bytes()),
        Err(error(DecodeReason::WrongEncoding, "index"))
    );
    let bytes = REGISTER.replace("{\"index\":5,\"x\":1,\"y\":1}", "{\"index\":5,\"x\":\"1\",\"y\":1}");
    assert_eq!(
        decode_client_message(bytes.as_bytes()),
        Err(error(DecodeReason::WrongEncoding, "x"))
    );
    let bytes = REGISTER.replace("\"mediaFileDuration\":1", "\"mediaFileDuration\":18446744073709551616");
    assert_eq!(
        decode_client_message(bytes.as_bytes()),
        Err(error(DecodeReason::WrongEncoding, "media_file_duration"))
    );
}

#[test]
fn window_that_ends_before_it_starts_is_rejected() {
    let bytes = REGISTER.replacen("\"startTime\":0", "\"startTime\":118", 1);
    assert_eq!(
        decode_client_message(bytes.as_bytes()),
        Err(error(DecodeReason::WrongEncoding, "feedback"))
    );
    let bytes = REGISTER.replacen("\"startTime\":0", "\"startTime\":117", 1);
    assert!(decode_client_message(bytes.as_bytes()).is_ok());
}

#[test]
fn layout_named_twice_is_rejected() {
    let mut project = authored().encode();
    let layouts = field(field(&mut project, "layout"), "layouts");
    let Json::Object(members) = layouts else { panic!("not an object") };
    members[1].name = "ForearmL".to_string();
    let message = Json::Object(vec![member(
        "Register",
        Json::Array(vec![Json::Object(vec![member("key", text("k")), member("project", project)])]),
    )]);
    assert_eq!(decode_request(&message), Err(error(DecodeReason::WrongEncoding, "layouts")));
}

#[test]
fn position_given_twice_is_rejected() {
    let mut project = authored().encode();
    let track = item(field(&mut project, "tracks"), 0);
    let effect = item(field(track, "effects"), 0);
    let Json::Object(members) = field(effect, "modes") else { panic!("not an object") };
    members[1].name = "ForearmL".to_string();
    assert_eq!(
        Project::decode(&project, Field::EntryProject),
        Err(error(DecodeReason::WrongEncoding, "modes"))
    );
}

#[test]
fn project_must_be_an_object() {
    let mut project = authored().encode();
    replace(&mut project, "layout", Json::Array(vec![]));
    assert_eq!(
        Project::decode(&project, Field::EntryProject),
        Err(error(DecodeReason::WrongEncoding, "layout"))
    );
    assert_eq!(
        Project::decode(&Json::Null, Field::EntryProject),
        Err(error(DecodeReason::WrongEncoding, "project"))
    );
    assert_eq!(
        decode_client_message(br#"{"Register":[{"Key":1}]}"#),
        Err(error(DecodeReason::MissingField, "project"))
    );
    assert_eq!(
        decode_client_message(br#"{"Register":[{"project":{}}]}"#),
        Err(error(DecodeReason::MissingField, "key"))
    );
    assert_eq!(
        decode_client_message(br#"{"Register":[{"Key":1,"project":{}}]}"#),
        Err(error(DecodeReason::MissingField, "id"))
    );
}
