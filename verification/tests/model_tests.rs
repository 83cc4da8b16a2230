use tini_presence::json::{Json, Member};
use tini_presence::model::{
    field_of, has_record_shape, read_flag, read_optional_number, read_optional_text, read_text,
    read_text_list, AppConfig, ProtocolMessage, TrackStatus,
};
use tini_presence::text::{append_decimal, append_signed_decimal, same_text};

fn parse(text: &str) -> Json {
    Json::parse(text).expect("valid JSON")
}

fn some(s: &str) -> Option<String> {
    Some(s.to_string())
}

#[test]
fn parse_reads_every_kind_of_value() {
    assert_eq!(Json::parse("null"), Some(Json::Null));
    assert_eq!(Json::parse(" true "), Some(Json::Bool(true)));
    assert_eq!(Json::parse("\"a\\nb\""), Some(Json::Text("a\nb".to_string())));
    assert_eq!(Json::parse("7"), Some(Json::Number(serde_json::Number::from(7u64))));
    assert_eq!(Json::parse("-7"), Some(Json::Number(serde_json::Number::from(-7i64))));
    assert_eq!(
        Json::parse("[1, [], {}]"),
        Some(Json::Array(vec![
            Json::Number(serde_json::Number::from(1u64)),
            Json::Array(vec![]),
            Json::Object(vec![]),
        ]))
    );
    assert_eq!(
        Json::parse("{\"k\": {\"n\": null}}"),
        Some(Json::Object(vec![Member {
            key: "k".to_string(),
            value: Json::Object(vec![Member { key: "n".to_string(), value: Json::Null }]),
        }]))
    );
}

#[test]
fn parse_rejects_what_is_not_json() {
    assert_eq!(Json::parse("not json at all"), None);
    assert_eq!(Json::parse(""), None);
    assert_eq!(Json::parse("{\"a\":1} trailing"), None);
    assert_eq!(Json::parse("{\"a\":}"), None);
}

#[test]
fn print_is_compact_and_escapes_control_characters() {
    let value = Json::Object(vec![
        Member { key: "b".to_string(), value: Json::Text("x\ny\t\"z\"".to_string()) },
        Member {
            key: "a".to_string(),
            value: Json::Array(vec![Json::Null, Json::Bool(false), parse("1.5")]),
        },
    ]);
    assert_eq!(value.print(), "{\"a\":[null,false,1.5],\"b\":\"x\\ny\\t\\\"z\\\"\"}");
}

#[test]
fn print_then_parse_gives_the_value_back() {
    let value = parse("{\"a\":[1,-2,\"three\",null,true],\"b\":{\"c\":\"\\u00e9\"}}");
    assert_eq!(Json::parse(&value.print()), Some(value));
}

#[test]
fn member_finds_the_first_entry_with_the_key() {
    let members = vec![
        Member { key: "a".to_string(), value: Json::Bool(true) },
        Member { key: "b".to_string(), value: Json::Null },
        Member { key: "a".to_string(), value: Json::Bool(false) },
    ];
    assert_eq!(Json::member(&members, "a"), Some(&Json::Bool(true)));
    assert_eq!(Json::member(&members, "b"), Some(&Json::Null));
    assert_eq!(Json::member(&members, "c"), None);
    assert_eq!(Json::member(&Vec::new(), "a"), None);
}

#[test]
fn record_fields_are_found_by_name_or_position() {
    let object = parse("{\"x\":1,\"y\":true}");
    let array = parse("[false,\"s\"]");
    assert!(has_record_shape(&object, 5));
    assert!(has_record_shape(&array, 2));
    assert!(!has_record_shape(&array, 3));
    assert!(!has_record_shape(&Json::Null, 0));
    assert_eq!(field_of(&object, "y", 9), Some(&Json::Bool(true)));
    assert_eq!(field_of(&object, "z", 0), None);
    assert_eq!(field_of(&array, "y", 1), Some(&Json::Text("s".to_string())));
    assert_eq!(field_of(&array, "y", 2), None);
    assert_eq!(field_of(&Json::Bool(true), "y", 0), None);
}

#[test]
fn field_readers_follow_the_schema() {
    let flag = Json::Bool(true);
    let word = Json::Text("w".to_string());
    let number = parse("12.5");
    assert_eq!(read_flag(Some(&flag)), Some(true));
    assert_eq!(read_flag(Some(&Json::Null)), None);
    assert_eq!(read_flag(None), None);
    assert_eq!(read_text(Some(&word)), some("w"));
    assert_eq!(read_text(Some(&Json::Null)), None);
    assert_eq!(read_text(None), None);
    assert_eq!(read_optional_text(Some(&word)), Some(some("w")));
    assert_eq!(read_optional_text(Some(&Json::Null)), Some(None));
    assert_eq!(read_optional_text(None), Some(None));
    assert_eq!(read_optional_text(Some(&flag)), None);
    assert_eq!(
        read_optional_number(Some(&number)),
        Some(Some(serde_json::Number::from_f64(12.5).unwrap()))
    );
    assert_eq!(read_optional_number(Some(&Json::Null)), Some(None));
    assert_eq!(read_optional_number(None), Some(None));
    assert_eq!(read_optional_number(Some(&word)), None);
    assert_eq!(
        read_text_list(Some(&parse("[\"a\",\"b\"]"))),
        Some(vec!["a".to_string(), "b".to_string()])
    );
    assert_eq!(read_text_list(Some(&parse("[]"))), Some(vec![]));
    assert_eq!(read_text_list(Some(&parse("[\"a\",1]"))), None);
    assert_eq!(read_text_list(Some(&Json::Null)), None);
    assert_eq!(read_text_list(None), None);
}

#[test]
fn track_status_reads_every_field() {
    let payload = parse(
        "{\"playing\":true,\"reason\":null,\"title\":\"Song\",\"artist\":\"Band\",\
         \"album\":\"Record\",\"coverUrl\":\"http://c\",\"source\":\"local\",\
         \"positionMs\":1000,\"durationMs\":215000.5,\"trackId\":\"t1\",\
         \"filePath\":\"/m/s.flac\",\"somethingElse\":[1,2,3]}",
    );
    let expected = TrackStatus {
        playing: true,
        reason: None,
        title: some("Song"),
        artist: some("Band"),
        album: some("Record"),
        cover_url: some("http://c"),
        source: some("local"),
        position_ms: Some(serde_json::Number::from(1000u64)),
        duration_ms: Some(serde_json::Number::from_f64(215000.5).unwrap()),
        track_id: some("t1"),
        file_path: some("/m/s.flac"),
    };
    assert_eq!(TrackStatus::from_json(&payload), Some(expected.clone()));
    assert_eq!(expected.copy(), expected);
}

#[test]
fn track_status_needs_only_playing() {
    let status = TrackStatus::from_json(&parse("{\"playing\":false}")).unwrap();
    assert_eq!(
        status,
        TrackStatus {
            playing: false,
            reason: None,
            title: None,
            artist: None,
            album: None,
            cover_url: None,
            source: None,
            position_ms: None,
            duration_ms: None,
            track_id: None,
            file_path: None,
        }
    );
}

#[test]
fn track_status_rejects_what_does_not_fit() {
    for payload in [
        "{}",
        "{\"playing\":null}",
        "{\"playing\":\"yes\"}",
        "{\"playing\":true,\"title\":5}",
        "{\"playing\":true,\"positionMs\":\"12\"}",
        "{\"playing\":true,\"cover_url\":\"x\",\"coverUrl\":false}",
        "[true]",
        "true",
        "null",
        "\"playing\"",
    ] {
        assert_eq!(TrackStatus::from_json(&parse(payload)), None, "payload {}", payload);
    }
}

#[test]
fn track_status_reads_the_positional_form() {
    let payload = parse("[true,null,\"T\",null,null,null,null,5,null,null,\"/p\"]");
    let status = TrackStatus::from_json(&payload).unwrap();
    assert!(status.playing);
    assert_eq!(status.title, some("T"));
    assert_eq!(status.position_ms, Some(serde_json::Number::from(5u64)));
    assert_eq!(status.file_path, some("/p"));
    let short = parse("[true,null,\"T\",null,null,null,null,5,null,null]");
    assert_eq!(TrackStatus::from_json(&short), None);
}

#[test]
fn app_config_reads_every_field() {
    let payload = parse(
        "{\"musicFolders\":[\"/a\",\"/b\"],\"discordClientId\":\"id\",\
         \"copypartyApiKey\":null,\"copypartyUrl\":\"u\",\"copypartyPath\":\"p\",\
         \"theme\":\"light\"}",
    );
    assert_eq!(
        AppConfig::from_json(&payload),
        Some(AppConfig {
            music_folders: vec!["/a".to_string(), "/b".to_string()],
            discord_client_id: some("id"),
            copyparty_api_key: None,
            copyparty_url: some("u"),
            copyparty_path: some("p"),
            theme: some("light"),
        })
    );
}

#[test]
fn app_config_needs_the_folder_list() {
    assert_eq!(AppConfig::from_json(&parse("{\"theme\":\"dark\"}")), None);
    assert_eq!(AppConfig::from_json(&parse("{\"musicFolders\":null}")), None);
    assert_eq!(AppConfig::from_json(&parse("{\"musicFolders\":[1]}")), None);
    assert_eq!(AppConfig::from_json(&parse("{\"musicFolders\":[],\"theme\":1}")), None);
    assert_eq!(
        AppConfig::from_json(&parse("{\"musicFolders\":[]}")),
        Some(AppConfig {
            music_folders: vec![],
            discord_client_id: None,
            copyparty_api_key: None,
            copyparty_url: None,
            copyparty_path: None,
            theme: None,
        })
    );
}

#[test]
fn app_config_survives_the_trip_through_json() {
    let config = AppConfig {
        music_folders: vec!["/x y".to_string(), String::new()],
        discord_client_id: None,
        copyparty_api_key: some("key"),
        copyparty_url: None,
        copyparty_path: some(""),
        theme: some("dark"),
    };
    let json = config.to_json();
    assert_eq!(
        json.print(),
        "{\"copypartyApiKey\":\"key\",\"copypartyPath\":\"\",\"copypartyUrl\":null,\
         \"discordClientId\":null,\"musicFolders\":[\"/x y\",\"\"],\"theme\":\"dark\"}"
    );
    assert_eq!(AppConfig::from_json(&json), Some(config.clone()));
    assert_eq!(config.copy(), config);
}

#[test]
fn envelope_takes_type_and_payload() {
    let message = ProtocolMessage::from_json(parse("{\"type\":\"status\",\"payload\":[1]}"));
    assert_eq!(
        message,
        Some(ProtocolMessage { kind: "status".to_string(), payload: parse("[1]") })
    );
    assert_eq!(ProtocolMessage::from_json(parse("{\"type\":\"status\"}")), None);
    assert_eq!(ProtocolMessage::from_json(parse("{\"type\":null,\"payload\":1}")), None);
    assert_eq!(ProtocolMessage::from_json(parse("[\"a\",\"b\",\"c\"]")), None);
    assert_eq!(
        ProtocolMessage::from_json(parse("[\"a\",\"b\"]")),
        Some(ProtocolMessage { kind: "a".to_string(), payload: Json::Text("b".to_string()) })
    );
    assert_eq!(ProtocolMessage::from_json(Json::Null), None);
}

#[test]
fn same_text_compares_characters() {
    assert!(same_text("", ""));
    assert!(same_text("status", "status"));
    assert!(!same_text("status", "statuS"));
    assert!(!same_text("status", "statu"));
    assert!(same_text("\u{e9}t\u{e9}", "\u{e9}t\u{e9}"));
    assert!(!same_text("\u{e9}", "e"));
}

#[test]
fn decimal_forms_are_exact() {
    let mut out = String::from("n=");
    append_decimal(&mut out, 0);
    assert_eq!(out, "n=0");
    let mut out = String::new();
    append_decimal(&mut out, 9);
    append_decimal(&mut out, 10);
    append_decimal(&mut out, 4294967295);
    assert_eq!(out, "9104294967295");
    let mut out = String::new();
    append_signed_decimal(&mut out, -1);
    out.push(' ');
    append_signed_decimal(&mut out, i32::MIN);
    out.push(' ');
    append_signed_decimal(&mut out, i32::MAX);
    out.push(' ');
    append_signed_decimal(&mut out, 0);
    assert_eq!(out, "-1 -2147483648 2147483647 0");
}
