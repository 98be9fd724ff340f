use bytes::Bytes;
use conditional_s3_fetch::{Cbor, Error, File, FromCbor, ParseResult, Response};
use serde::de::{Deserialize, Deserializer, IgnoredAny, MapAccess, Visitor};
use serde::ser::{Serialize, SerializeStruct, Serializer};
use std::ops::Deref;

#[derive(Eq, PartialEq, Debug)]
struct MyStruct {
    key: String,
}

struct MyStructVisitor;

impl<'de> Visitor<'de> for MyStructVisitor {
    type Value = MyStruct;

    fn expecting(&self, formatter: &mut std::fmt::Formatter) -> std::fmt::Result {
        formatter.write_str("struct MyStruct")
    }

    fn visit_map<A: MapAccess<'de>>(self, mut map: A) -> Result<MyStruct, A::Error> {
        let mut key: Option<String> = None;
        while let Some(name) = map.next_key::<String>()? {
            if name == "key" {
                key = Some(map.next_value()?);
            } else {
                map.next_value::<IgnoredAny>()?;
            }
        }
        match key {
            Some(key) => Ok(MyStruct { key }),
            None => Err(serde::de::Error::missing_field("key")),
        }
    }
}

impl<'de> Deserialize<'de> for MyStruct {
    fn deserialize<D: Deserializer<'de>>(deserializer: D) -> Result<Self, D::Error> {
        deserializer.deserialize_struct("MyStruct", &["key"], MyStructVisitor)
    }
}

impl Serialize for MyStruct {
    fn serialize<S: Serializer>(&self, serializer: S) -> Result<S::Ok, S::Error> {
        let mut state = serializer.serialize_struct("MyStruct", 1)?;
        state.serialize_field("key", &self.key)?;
        state.end()
    }
}

impl FromCbor for MyStruct {
    fn from_cbor(bytes: Bytes) -> ParseResult<Self> {
        conditional_s3_fetch::cbor::deserialize(bytes)
    }
}

fn object(body: Bytes) -> Response {
    Response::Object {
        body,
        e_tag: Some("\"123\"".to_string()),
    }
}

#[test]
fn test_parsing_cbor() {
    let response = cbor4ii::serde::to_vec(
        vec![],
        &MyStruct {
            key: "value".to_string(),
        },
    )
    .unwrap();

    let file = File::<Cbor<MyStruct>>::loaded(
        "test-bucket",
        "test-prefix",
        object(Bytes::from(response)),
    )
    .expect("Failed to fetch file");

    assert_eq!(
        file.as_content().map(|f| f.deref()),
        Some(&MyStruct {
            key: "value".to_string()
        })
    );
}

#[test]
fn cbor_test_parsing_failure() {
    let file = File::<Cbor<MyStruct>>::loaded(
        "test-bucket",
        "test-prefix",
        object(Bytes::from(r#"bad data"#)),
    );

    assert!(matches!(file, Err(Error::ParseError(_))));
}

#[test]
fn cbor_of_another_shape_is_a_parse_error() {
    // the text "key" alone, a map that ends early, and no bytes at all
    let bodies: [&'static [u8]; 3] = [&[0x63, 0x6b, 0x65, 0x79], &[0xa1, 0x63, 0x6b, 0x65, 0x79], &[]];
    for body in bodies {
        let file = File::<Cbor<MyStruct>>::loaded("b", "p", object(Bytes::from_static(body)));
        assert!(matches!(file, Err(Error::ParseError(_))));
    }
}

#[test]
fn cbor_map_written_by_hand() {
    // a map of one pair: the text "key" to the text "value"
    let body: &'static [u8] = &[
        0xa1, 0x63, 0x6b, 0x65, 0x79, 0x65, 0x76, 0x61, 0x6c, 0x75, 0x65,
    ];
    let file = File::<Cbor<MyStruct>>::loaded("b", "p", object(Bytes::from_static(body)))
        .expect("Failed to fetch file");
    assert_eq!(file.into_inner(), Some(MyStruct { key: "value".to_string() }));
}

#[test]
fn cbor_deserialize_gives_the_value_or_the_deserializer_reason() {
    let value: ParseResult<Vec<u32>> =
        conditional_s3_fetch::cbor::deserialize(Bytes::from_static(&[0x83, 0x01, 0x02, 0x03]));
    assert_eq!(value, Ok(vec![1, 2, 3]));

    let reason =
        conditional_s3_fetch::cbor::deserialize::<Vec<u32>>(Bytes::from_static(&[0x83, 0x01]))
            .unwrap_err();
    assert_eq!(
        reason,
        cbor4ii::serde::from_slice::<Vec<u32>>(&[0x83, 0x01])
            .unwrap_err()
            .to_string()
    );
}
