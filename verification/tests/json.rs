use bytes::Bytes;
use conditional_s3_fetch::{Error, File, FromJson, FromSimdJson, Json, ParseResult, Response, SimdJson};
use serde::de::{Deserialize, Deserializer, IgnoredAny, MapAccess, Visitor};
use std::ops::Deref;

#[derive(Eq, PartialEq, Debug)]
struct MyStruct {
    key: String,
}

struct MyStructVisitor;

impl<'de> Visitor<'de> for MyStructVisitor {
    type Value = MyStruct;

    fn expecting(&self, formatter: &mut std::fmt::Formatter) -> std::fmt::Result {
        formatter.write_str("struct MyStruct")
    }

    fn visit_map<A: MapAccess<'de>>(self, mut map: A) -> Result<MyStruct, A::Error> {
        let mut key: Option<String> = None;
        while let Some(name) = map.next_key::<String>()? {
            if name == "key" {
                key = Some(map.next_value()?);
            } else {
                map.next_value::<IgnoredAny>()?;
            }
        }
        match key {
            Some(key) => Ok(MyStruct { key }),
            None => Err(serde::de::Error::missing_field("key")),
        }
    }
}

impl<'de> Deserialize<'de> for MyStruct {
    fn deserialize<D: Deserializer<'de>>(deserializer: D) -> Result<Self, D::Error> {
        deserializer.deserialize_struct("MyStruct", &["key"], MyStructVisitor)
    }
}

impl FromJson for MyStruct {
    fn from_json(bytes: Bytes) -> ParseResult<Self> {
        conditional_s3_fetch::json::deserialize(bytes)
    }
}

impl FromSimdJson for MyStruct {
    fn from_simd_json(bytes: Bytes) -> ParseResult<Self> {
        conditional_s3_fetch::json::deserialize_simd(bytes)
    }
}

fn object(body: &'static str) -> Response {
    Response::Object {
        body: Bytes::from(body),
        e_tag: Some("\"123\"".to_string()),
    }
}

#[test]
fn test_parsing_json() {
    let file = File::<Json<MyStruct>>::loaded(
        "test-bucket",
        "test-prefix",
        object(r#"{"key": "value"}"#),
    )
    .expect("Failed to fetch file");

    assert_eq!(
        file.as_content().map(|f| f.deref()),
        Some(&MyStruct {
            key: "value".to_string()
        })
    );
}

#[test]
fn json_test_parsing_failure() {
    let file = File::<Json<MyStruct>>::loaded("test-bucket", "test-prefix", object(r#"bad data"#));

    assert!(matches!(file, Err(Error::ParseError(_))));
}

#[test]
fn test_parsing_simd_json() {
    let file = File::<SimdJson<MyStruct>>::loaded(
        "test-bucket",
        "test-prefix",
        object(r#"{"key": "value"}"#),
    )
    .expect("Failed to fetch file");

    assert_eq!(
        file.as_content().map(|f| f.deref()),
        Some(&MyStruct {
            key: "value".to_string()
        })
    );
}

#[test]
fn simd_json_test_parsing_failure() {
    let file =
        File::<SimdJson<MyStruct>>::loaded("test-bucket", "test-prefix", object(r#"bad data"#));

    assert!(matches!(file, Err(Error::ParseError(_))));
}

#[test]
fn json_refresh_sequence() {
    let first = File::<Json<MyStruct>>::unloaded("bucket", "settings.json");
    let second = first
        .fetch(object(r#"{"key":"value"}"#))
        .expect("first fetch")
        .expect("a body was sent");
    assert_eq!(second.as_content().map(|c| c.key.as_str()), Some("value"));

    let not_modified = Response::Refused {
        status: 304,
        reason: "not modified".to_string(),
    };
    assert!(second.fetch(not_modified).expect("second fetch").is_none());

    let third = second.fetch(object("bad data"));
    assert!(matches!(third, Err(Error::ParseError(_))));
    assert_eq!(second.as_content().map(|c| c.key.as_str()), Some("value"));
    assert_eq!(second.as_content().map(|c| c.etag()), Some("\"123\""));
}

#[test]
fn json_of_another_shape_is_a_parse_error() {
    let wrong_type = File::<Json<MyStruct>>::loaded("b", "p", object(r#"{"key": 1}"#));
    assert!(matches!(wrong_type, Err(Error::ParseError(_))));

    let missing_field = File::<Json<MyStruct>>::loaded("b", "p", object(r#"{"other": "x"}"#));
    assert!(matches!(missing_field, Err(Error::ParseError(_))));

    let empty = File::<Json<MyStruct>>::loaded("b", "p", object(""));
    assert!(matches!(empty, Err(Error::ParseError(_))));
}

#[test]
fn simd_json_of_another_shape_is_a_parse_error() {
    let wrong_type = File::<SimdJson<MyStruct>>::loaded("b", "p", object(r#"{"key": 1}"#));
    assert!(matches!(wrong_type, Err(Error::ParseError(_))));

    let missing_field = File::<SimdJson<MyStruct>>::loaded("b", "p", object(r#"{"other": "x"}"#));
    assert!(matches!(missing_field, Err(Error::ParseError(_))));

    let empty = File::<SimdJson<MyStruct>>::loaded("b", "p", object(""));
    assert!(matches!(empty, Err(Error::ParseError(_))));
}

#[test]
fn deserialize_gives_the_value_or_the_deserializer_reason() {
    let value: ParseResult<Vec<u32>> =
        conditional_s3_fetch::json::deserialize(Bytes::from("[1, 2, 3]"));
    assert_eq!(value, Ok(vec![1, 2, 3]));

    let reason = conditional_s3_fetch::json::deserialize::<Vec<u32>>(Bytes::from("bad data"))
        .unwrap_err();
    assert_eq!(
        reason,
        serde_json::from_slice::<Vec<u32>>(b"bad data")
            .unwrap_err()
            .to_string()
    );

    let value: ParseResult<Vec<u32>> =
        conditional_s3_fetch::json::deserialize_simd(Bytes::from("[1, 2, 3]"));
    assert_eq!(value, Ok(vec![1, 2, 3]));
    assert!(conditional_s3_fetch::json::deserialize_simd::<Vec<u32>>(Bytes::from("bad data")).is_err());
}
