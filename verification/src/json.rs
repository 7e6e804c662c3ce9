//! Serde JSON storage values.
//!
//! The reference codec keeps a typed value as a JSON value, and a backend may
//! keep that as JSON text. Writing and reading JSON is serde's work. The
//! calls into it stand behind small functions whose contracts are taken on
//! trust: they claim nothing of what serde makes of a type, and of a JSON
//! value's text only that it depends on the value alone.

use vstd::prelude::*;
use vstd::string::*;
use vstd::std_specs::convert::{FromSpec, FromSpecImpl};

use crate::{DeserializeFrom, SerializeTo};

verus! {

/// `serde_json::Value`, a JSON value: carried around, never looked into.
#[verifier::external_type_specification]
#[verifier::external_body]
pub struct ExValue(serde_json::Value);

/// `serde_json::Error`, what serde's JSON calls fail with.
#[verifier::external_type_specification]
#[verifier::external_body]
pub struct ExSerdeFailure(serde_json::Error);

/// What the JSON codec fails with.
#[derive(Debug)]
pub enum JsonError {
    /// A typed value could not be encoded as JSON.
    Serialize { source: serde_json::Error },
    /// A JSON value or text could not be decoded.
    Deserialize { source: serde_json::Error },
}

impl JsonError {
    /// What went wrong, in serde's words.
    pub open spec fn source(self) -> serde_json::Error {
        match self {
            JsonError::Serialize { source } => source,
            JsonError::Deserialize { source } => source,
        }
    }

    /// What introduces the source in the error's message.
    pub open spec fn preamble(self) -> Seq<char> {
        match self {
            JsonError::Serialize { .. } => "Error serialize: "@,
            JsonError::Deserialize { .. } => "Error deserializing: "@,
        }
    }

    /// The error's message: which of the two went wrong, then the source as
    /// serde displays it.
    pub fn message(&self) -> (text: String)
        ensures
            exists|shown: String| #[trigger]
                to_string_from_display_ensures(&self.source(), shown) && text@
                    == self.preamble() + shown@,
    {
        match self {
            JsonError::Serialize { source } => {
                let shown = source.to_string();
                assert(to_string_from_display_ensures(&self.source(), shown));
                String::from_str("Error serialize: ").concat(shown.as_str())
            },
            JsonError::Deserialize { source } => {
                let shown = source.to_string();
                assert(to_string_from_display_ensures(&self.source(), shown));
                String::from_str("Error deserializing: ").concat(shown.as_str())
            },
        }
    }
}

/// A wrapper around `T` that carries the JSON codec: it can be encoded as a
/// [`JsonSerialized`] and decoded from one.
#[derive(Debug, PartialEq)]
pub struct JsonDeserialized<T>(pub T);

impl<T> From<T> for JsonDeserialized<T> {
    fn from(value: T) -> (wrapped: Self) {
        JsonDeserialized(value)
    }
}

impl<T> FromSpecImpl<T> for JsonDeserialized<T> {
    open spec fn obeys_from_spec() -> bool {
        true
    }

    open spec fn from_spec(value: T) -> Self {
        JsonDeserialized(value)
    }
}

/// A wrapper around a JSON value: what a JSON backend stores.
#[derive(Debug, PartialEq)]
pub struct JsonSerialized(pub serde_json::Value);

impl From<serde_json::Value> for JsonSerialized {
    fn from(value: serde_json::Value) -> (wrapped: Self) {
        JsonSerialized(value)
    }
}

impl FromSpecImpl<serde_json::Value> for JsonSerialized {
    open spec fn obeys_from_spec() -> bool {
        true
    }

    open spec fn from_spec(value: serde_json::Value) -> Self {
        JsonSerialized(value)
    }
}

/// The JSON text that serde writes for a JSON value, or the error with which
/// it refuses to.
pub uninterp spec fn json_text(value: serde_json::Value) -> Result<Seq<char>, serde_json::Error>;

/// The JSON value that serde reads from a text, or the error with which it
/// rejects the text.
pub uninterp spec fn parsed_json(text: Seq<char>) -> Result<serde_json::Value, serde_json::Error>;

/// Calls `serde_json::to_value`, which asks the type's own `Serialize` impl
/// for a JSON value. Nothing is claimed of the answer.
#[verifier::external_body]
fn to_value<T: serde::Serialize>(value: T) -> Result<serde_json::Value, serde_json::Error> {
    serde_json::to_value(value)
}

/// Calls `serde_json::from_value`, which hands a JSON value to the type's own
/// `Deserialize` impl. Nothing is claimed of the answer.
#[verifier::external_body]
fn from_value<T: serde::de::DeserializeOwned>(value: serde_json::Value) -> Result<
    T,
    serde_json::Error,
> {
    serde_json::from_value(value)
}

/// Whether `json` is what serde answered when it was asked for the JSON value
/// of `value`. What serde answers is up to the type's own `Serialize` impl:
/// nothing more is known of it here.
pub closed spec fn serde_wrote<T: serde::Serialize>(
    value: T,
    json: Result<serde_json::Value, serde_json::Error>,
) -> bool {
    call_ensures(to_value::<T>, (value,), json)
}

/// Whether `read` is what serde answered when it was handed the JSON value
/// `value` to read a `T` from. What serde answers is up to the type's own
/// `Deserialize` impl: nothing more is known of it here.
pub closed spec fn serde_read<T: serde::de::DeserializeOwned>(
    value: serde_json::Value,
    read: Result<T, serde_json::Error>,
) -> bool {
    call_ensures(from_value::<T>, (value,), read)
}

/// Calls `serde_json::to_string` on a JSON value. The text depends on the
/// value alone; the contract only gives it its name, [`json_text`].
#[verifier::external_body]
fn to_string(value: &serde_json::Value) -> (written: Result<String, serde_json::Error>)
    ensures
        match written {
            Ok(text) => json_text(*value) == Ok::<Seq<char>, serde_json::Error>(text@),
            Err(source) => json_text(*value) == Err::<Seq<char>, serde_json::Error>(source),
        },
{
    serde_json::to_string(value)
}

/// Calls `serde_json::from_str` for a JSON value. The answer depends on the
/// text alone; the contract only gives it its name, [`parsed_json`].
#[verifier::external_body]
fn from_str(text: &str) -> (parsed: Result<serde_json::Value, serde_json::Error>)
    ensures
        parsed == parsed_json(text@),
{
    serde_json::from_str(text)
}

/// Calls `Clone::clone` of `serde_json::Value`, which is derived: the copy is
/// the same JSON value.
#[verifier::external_body]
fn clone_value(value: &serde_json::Value) -> (copy: serde_json::Value)
    ensures
        copy == *value,
{
    value.clone()
}

impl JsonSerialized {
    /// The stored value that `text` is the JSON of, or the failure to read
    /// it as JSON.
    pub open spec fn parsed(text: Seq<char>) -> Result<JsonSerialized, JsonError> {
        match parsed_json(text) {
            Ok(value) => Ok(JsonSerialized(value)),
            Err(source) => Err(JsonError::Deserialize { source }),
        }
    }

    /// The JSON text of the stored value, or the failure to write it.
    pub open spec fn text(&self) -> Result<Seq<char>, JsonError> {
        match json_text(self.0) {
            Ok(text) => Ok(text),
            Err(source) => Err(JsonError::Serialize { source }),
        }
    }

    /// Reads a stored value from its JSON text.
    pub fn parse(text: &str) -> (parsed: Result<JsonSerialized, JsonError>)
        ensures
            parsed == Self::parsed(text@),
    {
        match from_str(text) {
            Ok(value) => Ok(JsonSerialized(value)),
            Err(source) => Err(JsonError::Deserialize { source }),
        }
    }

    /// Writes the stored value as JSON text.
    pub fn to_text(&self) -> (written: Result<String, JsonError>)
        ensures
            match written {
                Ok(text) => self.text() == Ok::<Seq<char>, JsonError>(text@),
                Err(error) => self.text() == Err::<Seq<char>, JsonError>(error),
            },
    {
        match to_string(&self.0) {
            Ok(text) => Ok(text),
            Err(source) => Err(JsonError::Serialize { source }),
        }
    }

    /// A copy of the stored value.
    pub fn copy(&self) -> (copy: JsonSerialized)
        ensures
            copy == *self,
    {
        JsonSerialized(clone_value(&self.0))
    }
}

/// A type with a JSON form: what the JSON codec can cache.
///
/// The impls here hand the value to serde and return what serde answers, as
/// [`serde_wrote`] and [`serde_read`] say. An impl for a type of one's own
/// can do the same, or write the JSON value by hand.
pub trait AsJson: Sized {
    /// Encodes the value as a JSON value.
    fn to_json(&self) -> Result<serde_json::Value, serde_json::Error>;

    /// Decodes a value from a JSON value.
    fn from_json(value: serde_json::Value) -> Result<Self, serde_json::Error>;
}

impl AsJson for () {
    /// Hands the value to serde: the answer is serde's, to this value.
    fn to_json(&self) -> (json: Result<serde_json::Value, serde_json::Error>)
        ensures
            serde_wrote::<()>(*self, json),
    {
        to_value(*self)
    }

    /// Hands the JSON value to serde: the answer is serde's, to this JSON
    /// value.
    fn from_json(value: serde_json::Value) -> (read: Result<Self, serde_json::Error>)
        ensures
            serde_read::<()>(value, read),
    {
        from_value(value)
    }
}

impl AsJson for bool {
    /// Hands the value to serde: the answer is serde's, to this value.
    fn to_json(&self) -> (json: Result<serde_json::Value, serde_json::Error>)
        ensures
            serde_wrote::<bool>(*self, json),
    {
        to_value(*self)
    }

    /// Hands the JSON value to serde: the answer is serde's, to this JSON
    /// value.
    fn from_json(value: serde_json::Value) -> (read: Result<Self, serde_json::Error>)
        ensures
            serde_read::<bool>(value, read),
    {
        from_value(value)
    }
}

impl AsJson for u32 {
    /// Hands the value to serde: the answer is serde's, to this value.
    fn to_json(&self) -> (json: Result<serde_json::Value, serde_json::Error>)
        ensures
            serde_wrote::<u32>(*self, json),
    {
        to_value(*self)
    }

    /// Hands the JSON value to serde: the answer is serde's, to this JSON
    /// value.
    fn from_json(value: serde_json::Value) -> (read: Result<Self, serde_json::Error>)
        ensures
            serde_read::<u32>(value, read),
    {
        from_value(value)
    }
}

impl AsJson for u64 {
    /// Hands the value to serde: the answer is serde's, to this value.
    fn to_json(&self) -> (json: Result<serde_json::Value, serde_json::Error>)
        ensures
            serde_wrote::<u64>(*self, json),
    {
        to_value(*self)
    }

    /// Hands the JSON value to serde: the answer is serde's, to this JSON
    /// value.
    fn from_json(value: serde_json::Value) -> (read: Result<Self, serde_json::Error>)
        ensures
            serde_read::<u64>(value, read),
    {
        from_value(value)
    }
}

impl AsJson for i32 {
    /// Hands the value to serde: the answer is serde's, to this value.
    fn to_json(&self) -> (json: Result<serde_json::Value, serde_json::Error>)
        ensures
            serde_wrote::<i32>(*self, json),
    {
        to_value(*self)
    }

    /// Hands the JSON value to serde: the answer is serde's, to this JSON
    /// value.
    fn from_json(value: serde_json::Value) -> (read: Result<Self, serde_json::Error>)
        ensures
            serde_read::<i32>(value, read),
    {
        from_value(value)
    }
}

impl AsJson for i64 {
    /// Hands the value to serde: the answer is serde's, to this value.
    fn to_json(&self) -> (json: Result<serde_json::Value, serde_json::Error>)
        ensures
            serde_wrote::<i64>(*self, json),
    {
        to_value(*self)
    }

    /// Hands the JSON value to serde: the answer is serde's, to this JSON
    /// value.
    fn from_json(value: serde_json::Value) -> (read: Result<Self, serde_json::Error>)
        ensures
            serde_read::<i64>(value, read),
    {
        from_value(value)
    }
}

impl AsJson for String {
    /// Hands the string to serde: the answer is serde's, to this string.
    fn to_json(&self) -> (json: Result<serde_json::Value, serde_json::Error>)
        ensures
            serde_wrote::<&String>(self, json),
    {
        to_value(self)
    }

    /// Hands the JSON value to serde: the answer is serde's, to this JSON
    /// value.
    fn from_json(value: serde_json::Value) -> (read: Result<Self, serde_json::Error>)
        ensures
            serde_read::<String>(value, read),
    {
        from_value(value)
    }
}

impl<T: AsJson, E: From<JsonError>> DeserializeFrom<JsonSerialized, E> for JsonDeserialized<T> {
    /// Decodes a JSON value. Whether that succeeds is up to the type's JSON
    /// form; a failure comes back as [`JsonError::Deserialize`], converted
    /// into `E`.
    open spec fn decoding(stored: JsonSerialized, decoded: Result<Self, E>) -> bool {
        match decoded {
            Ok(value) => call_ensures(
                T::from_json,
                (stored.0,),
                Ok::<T, serde_json::Error>(value.0),
            ),
            Err(error) => exists|source: serde_json::Error| #[trigger]
                call_ensures(T::from_json, (stored.0,), Err::<T, serde_json::Error>(source)) && (
                <E as FromSpec<JsonError>>::obeys_from_spec() ==> error == <E as FromSpec<
                    JsonError,
                >>::from_spec(JsonError::Deserialize { source })),
        }
    }

    fn try_from_store_value(stored: JsonSerialized) -> Result<Self, E> {
        match T::from_json(stored.0) {
            Ok(value) => Ok(JsonDeserialized(value)),
            Err(source) => Err(E::from(JsonError::Deserialize { source })),
        }
    }
}

impl<T: AsJson, E: From<JsonError>> SerializeTo<JsonSerialized, E> for JsonDeserialized<T> {
    /// Encodes the value as JSON. Whether that succeeds is up to the type's
    /// JSON form; a failure comes back as [`JsonError::Serialize`], converted
    /// into `E`.
    open spec fn encoding(&self, encoded: Result<JsonSerialized, E>) -> bool {
        match encoded {
            Ok(value) => call_ensures(
                T::to_json,
                (&self.0,),
                Ok::<serde_json::Value, serde_json::Error>(value.0),
            ),
            Err(error) => exists|source: serde_json::Error| #[trigger]
                call_ensures(
                    T::to_json,
                    (&self.0,),
                    Err::<serde_json::Value, serde_json::Error>(source),
                ) && (<E as FromSpec<JsonError>>::obeys_from_spec() ==> error == <E as FromSpec<
                    JsonError,
                >>::from_spec(JsonError::Serialize { source })),
        }
    }

    fn try_into_store_value(&self) -> Result<JsonSerialized, E> {
        match self.0.to_json() {
            Ok(value) => Ok(JsonSerialized(value)),
            Err(source) => Err(E::from(JsonError::Serialize { source })),
        }
    }
}

/// Whether the JSON form of `T` round-trips: whatever JSON value a value may
/// be written as, it is read back as that value and as nothing else.
pub open spec fn json_round_trips<T: AsJson>() -> bool {
    forall|value: T, json: serde_json::Value, read: Result<T, serde_json::Error>|
        #![trigger
            call_ensures(T::to_json, (&value,), Ok::<serde_json::Value, serde_json::Error>(json)),
            call_ensures(T::from_json, (json,), read)
        ]
        call_ensures(T::to_json, (&value,), Ok::<serde_json::Value, serde_json::Error>(json))
            && call_ensures(T::from_json, (json,), read) ==> read == Ok::<T, serde_json::Error>(
            value,
        )
}

/// Round-trip, as far as it is the codec's own doing: for a type whose JSON
/// form round-trips, whatever the codec may encode a value as, it decodes to
/// that value and to nothing else.
pub proof fn lemma_codec_round_trips<T: AsJson, E: From<JsonError>>(
    value: JsonDeserialized<T>,
    encoded: JsonSerialized,
    decoded: Result<JsonDeserialized<T>, E>,
)
    requires
        json_round_trips::<T>(),
        value.encoding(Ok::<JsonSerialized, E>(encoded)),
        <JsonDeserialized<T> as DeserializeFrom<JsonSerialized, E>>::decoding(encoded, decoded),
    ensures
        decoded == Ok::<JsonDeserialized<T>, E>(value),
{
    assert(call_ensures(
        T::to_json,
        (&value.0,),
        Ok::<serde_json::Value, serde_json::Error>(encoded.0),
    ));
    match decoded {
        Ok(read) => {
            assert(call_ensures(T::from_json, (encoded.0,), Ok::<T, serde_json::Error>(read.0)));
        },
        Err(error) => {
            let source = choose|source: serde_json::Error| #[trigger]
                call_ensures(T::from_json, (encoded.0,), Err::<T, serde_json::Error>(source));
            assert(call_ensures(T::from_json, (encoded.0,), Err::<T, serde_json::Error>(source)));
        },
    }
}

} // verus!
