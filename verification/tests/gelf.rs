use graylog::compress::compress;
use graylog::error::ErrorKind;
use graylog::gelf::{Field, FieldValue, Gelf};
use serde_json::Value;
use std::collections::hash_map::DefaultHasher;
use std::hash::Hasher;
use std::io::Read;

fn gunzip(stream: &[u8]) -> Vec<u8> {
    let mut out = Vec::new();
    flate2::read::GzDecoder::new(stream).read_to_end(&mut out).unwrap();
    out
}

fn parse(json: &str) -> Gelf {
    let data: Value = serde_json::from_str(json).unwrap();
    let obj = data.as_object().unwrap();
    assert_eq!(obj.len(), 8);
    Gelf {
        version: obj["version"].as_str().unwrap().to_string(),
        host: obj["host"].as_str().unwrap().to_string(),
        short_message: obj["short_message"].as_str().unwrap().to_string(),
        full_message: obj["full_message"].as_str().map(|text| text.to_string()),
        timestamp: obj["timestamp"].as_i64(),
        level: obj["level"].as_u64().map(|level| level as u8),
        file: obj["_file"].as_str().unwrap().to_string(),
        line: obj["_line"].as_u64().unwrap() as u32,
    }
}

#[test]
fn test_gelf_serialization() {
    let file = "asdfasdfadsf.rs".to_string();
    let line = 123;
    let gelf = Gelf {
        version: "1.1".to_string(),
        host: "somehost".to_string(),
        short_message: "some short message".to_string(),
        full_message: Some("Full message".to_string()),
        timestamp: Some(chrono::Utc::now().timestamp()),
        level: None,
        file: file.clone(),
        line: line,
    };
    let json = gelf.to_json().unwrap();
    println!("Json\n{}", json);

    let data: Value = serde_json::from_str(&json).unwrap();
    let obj = data.as_object().unwrap();
    assert_eq!(obj.get("_file").unwrap().as_str().unwrap(), file);
    assert_eq!(obj.get("_line").unwrap().as_u64().unwrap(), line as u64);

    let deserialized_gelf: Gelf = parse(&json);
    assert_eq!(deserialized_gelf, gelf);
    println!("{:?}", obj);
}

#[test]
fn the_serialised_text_names_the_fields_in_order() {
    let gelf = Gelf {
        version: "1.1".to_string(),
        host: "web-1".to_string(),
        short_message: "disk \"full\"".to_string(),
        full_message: None,
        timestamp: Some(1_500_000_000),
        level: Some(3),
        file: "src/main.rs".to_string(),
        line: 42,
    };
    assert_eq!(
        gelf.to_json().unwrap(),
        "{\"version\":\"1.1\",\"host\":\"web-1\",\"short_message\":\"disk \\\"full\\\"\",\
         \"full_message\":null,\"timestamp\":1500000000,\"level\":3,\
         \"_file\":\"src/main.rs\",\"_line\":42}"
    );
}

#[test]
fn a_message_survives_serialising_and_parsing_whatever_is_absent() {
    for present in 0u8..8 {
        let gelf = Gelf {
            version: "1.1".to_string(),
            host: "host.example".to_string(),
            short_message: "line one\nline \u{e9}two\t{}".to_string(),
            full_message: if present & 1 != 0 {
                Some("the full\r\nstory \\ \"quoted\"".to_string())
            } else {
                None
            },
            timestamp: if present & 2 != 0 { Some(-12_345_678_901) } else { None },
            level: if present & 4 != 0 { Some(7) } else { None },
            file: "a/b.rs".to_string(),
            line: u32::MAX,
        };
        let json = gelf.to_json().unwrap();
        assert_eq!(parse(&json), gelf, "presence {}", present);
    }
}

#[test]
fn an_absent_field_is_written_as_null() {
    let gelf = Gelf::new("h", "m", None, None, None, "f", 1);
    let data: Value = serde_json::from_str(&gelf.to_json().unwrap()).unwrap();
    assert!(data["full_message"].is_null());
    assert!(data["timestamp"].is_null());
    assert!(data["level"].is_null());
    assert_eq!(data["version"], Value::from("1.1"));
}

#[test]
fn extreme_numbers_are_written_in_full() {
    let gelf = Gelf::new("h", "m", None, Some(i64::MIN), Some(u8::MAX), "f", 0);
    let json = gelf.to_json().unwrap();
    let back = parse(&json);
    assert_eq!(back.timestamp, Some(i64::MIN));
    assert_eq!(back.level, Some(255));
    assert_eq!(back.line, 0);
    let gelf = Gelf::new("h", "m", None, Some(i64::MAX), Some(0), "f", 0);
    assert_eq!(parse(&gelf.to_json().unwrap()).timestamp, Some(i64::MAX));
}

#[test]
fn new_fixes_the_version_and_keeps_the_rest() {
    let gelf = Gelf::new(
        "somehost",
        "short",
        Some("long".to_string()),
        Some(17),
        Some(4),
        "lib.rs",
        9,
    );
    assert_eq!(
        gelf,
        Gelf {
            version: "1.1".to_string(),
            host: "somehost".to_string(),
            short_message: "short".to_string(),
            full_message: Some("long".to_string()),
            timestamp: Some(17),
            level: Some(4),
            file: "lib.rs".to_string(),
            line: 9,
        }
    );
    let bare = Gelf::new("h", "m", None, None, None, "f", 1);
    assert_eq!(bare.full_message, None);
    assert_eq!(bare.timestamp, None);
    assert_eq!(bare.level, None);
}

#[test]
fn fields_lists_the_eight_members() {
    let gelf = Gelf::new("h", "m", Some("full".to_string()), None, Some(2), "f.rs", 30);
    let expected = vec![
        Field { name: "version".to_string(), value: FieldValue::Text("1.1".to_string()) },
        Field { name: "host".to_string(), value: FieldValue::Text("h".to_string()) },
        Field { name: "short_message".to_string(), value: FieldValue::Text("m".to_string()) },
        Field { name: "full_message".to_string(), value: FieldValue::Text("full".to_string()) },
        Field { name: "timestamp".to_string(), value: FieldValue::Null },
        Field { name: "level".to_string(), value: FieldValue::Number(2) },
        Field { name: "_file".to_string(), value: FieldValue::Text("f.rs".to_string()) },
        Field { name: "_line".to_string(), value: FieldValue::Number(30) },
    ];
    assert_eq!(gelf.fields(), expected);
}

#[test]
fn compress_writes_a_gzip_stream_of_the_input() {
    let data = b"some bytes, some bytes, some bytes, some bytes".to_vec();
    let stream = compress(&data).unwrap();
    assert_ne!(stream, data);
    assert_eq!(stream[..4], [0x1f, 0x8b, 8, 0]);
    assert_eq!(gunzip(&stream), data);
}

#[test]
fn compressing_and_serialising_always_succeed() {
    assert!(compress(&[]).is_ok());
    assert!(compress(&[0u8; 1]).is_ok());
    assert!(compress(&vec![0xa5u8; 300_000]).is_ok());
    let bare = Gelf::new("", "", None, None, None, "", 0);
    assert!(bare.to_json().is_ok());
    assert!(bare.compress().is_ok());
    let odd = Gelf::new(
        "\u{0}\u{1f}\"\\",
        "\u{10ffff}\u{7f}",
        Some("\n".to_string()),
        Some(i64::MIN),
        Some(255),
        "\u{2028}",
        u32::MAX,
    );
    assert!(odd.to_json().is_ok());
    assert!(odd.compress().is_ok());
}

#[test]
fn compress_depends_on_the_input_alone() {
    let data = vec![3u8; 5000];
    assert_eq!(compress(&data).unwrap(), compress(&data).unwrap());
    assert!(compress(&data).unwrap().len() < 200);
    assert_eq!(gunzip(&compress(&[]).unwrap()), Vec::<u8>::new());
}

#[test]
fn a_message_compresses_to_the_gzip_of_its_text() {
    let gelf = Gelf::new("h", "hello", None, Some(5), None, "f.rs", 1);
    let json = gelf.to_json().unwrap();
    let stream = gelf.compress().unwrap();
    assert_eq!(gunzip(&stream), json.as_bytes());
    assert_eq!(stream, compress(json.as_bytes()).unwrap());
}

#[test]
fn the_message_id_depends_on_host_timestamp_and_clock_sample() {
    let gelf = Gelf::new("h", "hello", None, Some(5), None, "f.rs", 1);
    let same = Gelf::new("h", "other text", Some("x".to_string()), Some(5), Some(1), "g.rs", 2);
    assert_eq!(gelf.message_id(1000), gelf.message_id(1000));
    assert_eq!(gelf.message_id(1000), same.message_id(1000));
    assert_ne!(gelf.message_id(1000), gelf.message_id(1001));
    let other_host = Gelf::new("i", "hello", None, Some(5), None, "f.rs", 1);
    assert_ne!(gelf.message_id(1000), other_host.message_id(1000));
    let other_time = Gelf::new("h", "hello", None, Some(6), None, "f.rs", 1);
    assert_ne!(gelf.message_id(1000), other_time.message_id(1000));
    let no_time = Gelf::new("h", "hello", None, None, None, "f.rs", 1);
    assert_ne!(gelf.message_id(1000), no_time.message_id(1000));
}

#[test]
fn the_message_id_is_the_hash_of_host_timestamp_and_sample() {
    let gelf = Gelf::new("web-1", "hello", None, Some(0x0102_0304_0506_0708), None, "f.rs", 1);
    let mut hasher = DefaultHasher::new();
    hasher.write(b"web-1");
    hasher.write(&[1, 1, 2, 3, 4, 5, 6, 7, 8]);
    hasher.write(&[0, 0, 0, 0, 0x3b, 0x9a, 0xc9, 0xff]);
    assert_eq!(gelf.message_id(999_999_999), hasher.finish());

    let undated = Gelf::new("web-1", "hello", None, None, None, "f.rs", 1);
    let mut hasher = DefaultHasher::new();
    hasher.write(b"web-1");
    hasher.write(&[0]);
    hasher.write(&[0, 0, 0, 0, 0, 0, 0, 7]);
    assert_eq!(undated.message_id(7), hasher.finish());

    let early = Gelf::new("", "hello", None, Some(-1), None, "f.rs", 1);
    let mut hasher = DefaultHasher::new();
    hasher.write(b"");
    hasher.write(&[1, 0xff, 0xff, 0xff, 0xff, 0xff, 0xff, 0xff, 0xff]);
    hasher.write(&[0, 0, 0, 0, 0xff, 0xff, 0xff, 0xff]);
    assert_eq!(early.message_id(u32::MAX), hasher.finish());
}

#[test]
fn message_ids_of_a_burst_rarely_collide() {
    let gelf = Gelf::new("burst-host", "hello", None, Some(1_700_000_000), None, "f.rs", 1);
    let mut ids: Vec<u64> = (0u32..2000).map(|nanos| gelf.message_id(nanos * 977)).collect();
    ids.sort();
    ids.dedup();
    let collisions = 2000 - ids.len();
    assert!(collisions <= 2, "{} of 2000 ids collided", collisions);
}

#[test]
fn a_failure_to_parse_is_an_encoding_error() {
    let err = serde_json::from_str::<Value>("{").unwrap_err();
    let text = err.to_string();
    let err = graylog::error::GraylogError::from(err);
    assert_eq!(err.kind(), ErrorKind::Encoding);
    assert_eq!(err.message(), text);
}
