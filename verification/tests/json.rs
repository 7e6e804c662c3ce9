use potency::json::{AsJson, JsonDeserialized, JsonError, JsonSerialized};
use potency::sqlite_store::SqliteError;
use potency::{DeserializeFrom, SerializeTo};

fn round_trip<T: AsJson + PartialEq + std::fmt::Debug>(value: T) -> T {
    let wrapped = JsonDeserialized(value);
    let encoded: Result<JsonSerialized, JsonError> = wrapped.try_into_store_value();
    let decoded: Result<JsonDeserialized<T>, JsonError> =
        JsonDeserialized::try_from_store_value(encoded.unwrap());
    let decoded = decoded.unwrap();
    assert_eq!(wrapped, decoded);
    decoded.0
}

#[test]
fn strings_round_trip() {
    assert_eq!("500 hello", round_trip("500 hello".to_string()));
    assert_eq!("", round_trip(String::new()));
    assert_eq!("quote \" and \\ and \n", round_trip("quote \" and \\ and \n".to_string()));
}

#[test]
fn unsigned_integers_round_trip() {
    assert_eq!(0u32, round_trip(0u32));
    assert_eq!(6u32, round_trip(6u32));
    assert_eq!(u32::MAX, round_trip(u32::MAX));
    assert_eq!(0u64, round_trip(0u64));
    assert_eq!(u64::MAX, round_trip(u64::MAX));
}

#[test]
fn signed_integers_round_trip() {
    assert_eq!(-1i32, round_trip(-1i32));
    assert_eq!(i32::MIN, round_trip(i32::MIN));
    assert_eq!(i64::MIN, round_trip(i64::MIN));
    assert_eq!(i64::MAX, round_trip(i64::MAX));
}

#[test]
fn unit_and_bool_round_trip() {
    round_trip(());
    assert!(round_trip(true));
    assert!(!round_trip(false));
}

#[test]
fn encoding_gives_the_json_value() {
    let encoded: Result<JsonSerialized, JsonError> =
        JsonDeserialized("hi".to_string()).try_into_store_value();
    assert_eq!(serde_json::Value::String("hi".to_string()), encoded.unwrap().0);
    let encoded: Result<JsonSerialized, JsonError> = JsonDeserialized(6u32).try_into_store_value();
    assert_eq!(serde_json::Value::from(6u32), encoded.unwrap().0);
    let encoded: Result<JsonSerialized, JsonError> = JsonDeserialized(()).try_into_store_value();
    assert_eq!(serde_json::Value::Null, encoded.unwrap().0);
}

#[test]
fn decoding_another_type_is_a_deserialize_error() {
    let stored = JsonSerialized(serde_json::Value::String("six".to_string()));
    let decoded: Result<JsonDeserialized<u32>, JsonError> =
        JsonDeserialized::try_from_store_value(stored);
    assert!(matches!(decoded, Err(JsonError::Deserialize { .. })));
}

#[test]
fn decoding_a_number_that_does_not_fit_is_a_deserialize_error() {
    let stored = JsonSerialized(serde_json::Value::from(u64::MAX));
    let decoded: Result<JsonDeserialized<u32>, JsonError> =
        JsonDeserialized::try_from_store_value(stored);
    assert!(matches!(decoded, Err(JsonError::Deserialize { .. })));
}

/// A value that serde refuses to write.
#[derive(Debug, PartialEq)]
struct Unwritable;

impl AsJson for Unwritable {
    fn to_json(&self) -> Result<serde_json::Value, serde_json::Error> {
        let mut keyed_by_pair = std::collections::BTreeMap::new();
        keyed_by_pair.insert((1u32, 2u32), 3u32);
        serde_json::to_value(keyed_by_pair)
    }

    fn from_json(value: serde_json::Value) -> Result<Self, serde_json::Error> {
        serde_json::from_value::<()>(value).map(|_| Unwritable)
    }
}

#[test]
fn a_value_that_cannot_be_written_is_a_serialize_error() {
    let encoded: Result<JsonSerialized, JsonError> =
        JsonDeserialized(Unwritable).try_into_store_value();
    assert!(matches!(encoded, Err(JsonError::Serialize { .. })));
}

#[test]
fn codec_errors_convert_into_the_backend_error() {
    let stored = JsonSerialized(serde_json::Value::Null);
    let decoded: Result<JsonDeserialized<u32>, SqliteError> =
        JsonDeserialized::try_from_store_value(stored);
    assert!(matches!(
        decoded,
        Err(SqliteError::Json {
            source: JsonError::Deserialize { .. }
        })
    ));
    let encoded: Result<JsonSerialized, SqliteError> =
        JsonDeserialized(Unwritable).try_into_store_value();
    assert!(matches!(
        encoded,
        Err(SqliteError::Json {
            source: JsonError::Serialize { .. }
        })
    ));
}

#[test]
fn wrappers_come_from_their_contents() {
    assert_eq!(JsonDeserialized(5u32), JsonDeserialized::from(5u32));
    assert_eq!(
        JsonSerialized(serde_json::Value::Bool(true)),
        JsonSerialized::from(serde_json::Value::Bool(true))
    );
}

#[test]
fn parse_reads_json_text() {
    let parsed = JsonSerialized::parse("{\"a\": [1, 2, null]}").unwrap();
    let mut object = serde_json::Map::new();
    object.insert(
        "a".to_string(),
        serde_json::Value::Array(vec![
            serde_json::Value::from(1u32),
            serde_json::Value::from(2u32),
            serde_json::Value::Null,
        ]),
    );
    assert_eq!(serde_json::Value::Object(object), parsed.0);
}

#[test]
fn parse_rejects_what_is_not_json() {
    assert!(matches!(JsonSerialized::parse("{"), Err(JsonError::Deserialize { .. })));
    assert!(matches!(JsonSerialized::parse(""), Err(JsonError::Deserialize { .. })));
    assert!(matches!(JsonSerialized::parse("hello"), Err(JsonError::Deserialize { .. })));
}

#[test]
fn to_text_writes_json_text() {
    assert_eq!("\"hello\"", JsonSerialized(serde_json::Value::from("hello")).to_text().unwrap());
    assert_eq!("null", JsonSerialized(serde_json::Value::Null).to_text().unwrap());
    assert_eq!("[0,1.0,\"goodbye\"]", JsonSerialized::parse("[0, 1.0, \"goodbye\"]").unwrap().to_text().unwrap());
}

#[test]
fn text_round_trips_through_parse() {
    let value = JsonSerialized::parse("{\"k\":[true,\"v\",3]}").unwrap();
    let text = value.to_text().unwrap();
    assert_eq!("{\"k\":[true,\"v\",3]}", text);
    assert_eq!(value, JsonSerialized::parse(&text).unwrap());
}

#[test]
fn copy_is_the_same_value() {
    let value = JsonSerialized::parse("{\"k\":[true,\"v\",3]}").unwrap();
    assert_eq!(value, value.copy());
}

#[test]
fn error_messages_name_what_failed_and_the_source() {
    let source = serde_json::from_str::<serde_json::Value>("{").unwrap_err();
    let expected = format!("Error deserializing: {source}");
    assert_eq!(expected, JsonSerialized::parse("{").unwrap_err().message());
    assert_eq!(
        "Error deserializing: EOF while parsing an object at line 1 column 1",
        JsonSerialized::parse("{").unwrap_err().message()
    );

    let encoded: Result<JsonSerialized, JsonError> =
        JsonDeserialized(Unwritable).try_into_store_value();
    assert_eq!("Error serialize: key must be a string", encoded.unwrap_err().message());
}
