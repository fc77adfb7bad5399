//! The structured message and its serialised form.

use crate::compress::{compress, gzip_bytes};
use crate::error::GraylogError;
use crate::wire::{be_u64, u64_be_bytes};
use std::collections::hash_map::DefaultHasher;
use std::hash::Hasher;
use vstd::prelude::*;
use vstd::std_specs::hash::DefaultHasherAdditionalSpecFns;
use vstd::utf8::encode_utf8;

verus! {

/// What one member of the serialised message holds.
#[derive(Debug, PartialEq, Eq)]
pub enum FieldValue {
    /// The field is absent.
    Null,
    Text(String),
    Number(i64),
}

/// A `FieldValue` as a value.
pub enum FieldValueView {
    Null,
    Text(Seq<char>),
    Number(i64),
}

impl View for FieldValue {
    type V = FieldValueView;

    open spec fn view(&self) -> FieldValueView {
        match self {
            FieldValue::Null => FieldValueView::Null,
            FieldValue::Text(text) => FieldValueView::Text(text@),
            FieldValue::Number(number) => FieldValueView::Number(*number),
        }
    }
}

/// One member of the serialised message: a name and what it holds.
#[derive(Debug, PartialEq, Eq)]
pub struct Field {
    pub name: String,
    pub value: FieldValue,
}

/// A `Field` as a value.
pub struct FieldView {
    pub name: Seq<char>,
    pub value: FieldValueView,
}

impl View for Field {
    type V = FieldView;

    open spec fn view(&self) -> FieldView {
        FieldView { name: self.name@, value: self.value@ }
    }
}

/// The fields of a list, each as a value.
pub open spec fn fields_view(fields: Seq<Field>) -> Seq<FieldView> {
    fields.map_values(|field: Field| field@)
}

/// The JSON text that `serde_json` writes for an object with these members, in
/// this order.
pub uninterp spec fn json_object_text(fields: Seq<FieldView>) -> Seq<char>;

/// `serde_json::to_string` of a `serde_json::Map` into which `Map::insert` has put
/// the fields in order, each value made by `serde_json::Value::from` (`Null` as
/// `Value::Null`). The text is determined by the fields; nothing is claimed of
/// what it holds. Serialising fails only for a key that is no string, for a
/// value whose own serialising fails, or when the writer fails; the keys are
/// strings, the values are null, text or integers, and the writer is a vector,
/// so the result is always `Ok`.
#[verifier::external_body]
fn json_object(fields: &Vec<Field>) -> (res: Result<String, serde_json::Error>)
    ensures
        res is Ok,
        res matches Ok(text) ==> text@ == json_object_text(fields_view(fields@)),
{
    let mut object = serde_json::Map::new();
    for field in fields {
        let value = match &field.value {
            FieldValue::Null => serde_json::Value::Null,
            FieldValue::Text(text) => serde_json::Value::from(text.as_str()),
            FieldValue::Number(number) => serde_json::Value::from(*number),
        };
        object.insert(field.name.clone(), value);
    }
    serde_json::to_string(&object)
}

/// An optional timestamp as bytes: one byte that tells whether it is there,
/// then, if it is, its eight bytes, most significant first.
pub open spec fn timestamp_bytes(timestamp: Option<i64>) -> Seq<u8> {
    match timestamp {
        Some(seconds) => seq![1u8] + u64_be_bytes(seconds as u64),
        None => seq![0u8],
    }
}

/// A log event as the server expects it.
#[derive(Debug, PartialEq, Eq)]
pub struct Gelf {
    pub version: String,
    pub host: String,
    pub short_message: String,
    pub full_message: Option<String>,
    pub timestamp: Option<i64>,
    pub level: Option<u8>,
    pub file: String,
    pub line: u32,
}

/// A `Gelf` as a value.
pub struct GelfView {
    pub version: Seq<char>,
    pub host: Seq<char>,
    pub short_message: Seq<char>,
    pub full_message: Option<Seq<char>>,
    pub timestamp: Option<i64>,
    pub level: Option<u8>,
    pub file: Seq<char>,
    pub line: u32,
}

impl View for Gelf {
    type V = GelfView;

    open spec fn view(&self) -> GelfView {
        GelfView {
            version: self.version@,
            host: self.host@,
            short_message: self.short_message@,
            full_message: match self.full_message {
                Some(text) => Some(text@),
                None => None,
            },
            timestamp: self.timestamp,
            level: self.level,
            file: self.file@,
            line: self.line,
        }
    }
}

impl GelfView {
    /// The members of the serialised message, in the order they are written.
    /// An absent field is written as a member that holds null; the source
    /// location travels under names that begin with an underscore.
    pub open spec fn fields(self) -> Seq<FieldView> {
        seq![
            FieldView { name: "version"@, value: FieldValueView::Text(self.version) },
            FieldView { name: "host"@, value: FieldValueView::Text(self.host) },
            FieldView { name: "short_message"@, value: FieldValueView::Text(self.short_message) },
            FieldView {
                name: "full_message"@,
                value: match self.full_message {
                    Some(text) => FieldValueView::Text(text),
                    None => FieldValueView::Null,
                },
            },
            FieldView {
                name: "timestamp"@,
                value: match self.timestamp {
                    Some(seconds) => FieldValueView::Number(seconds),
                    None => FieldValueView::Null,
                },
            },
            FieldView {
                name: "level"@,
                value: match self.level {
                    Some(level) => FieldValueView::Number(level as i64),
                    None => FieldValueView::Null,
                },
            },
            FieldView { name: "_file"@, value: FieldValueView::Text(self.file) },
            FieldView { name: "_line"@, value: FieldValueView::Number(self.line as i64) },
        ]
    }

    /// What is hashed for the message id, piece by piece: the host, the
    /// timestamp and the clock sample.
    pub open spec fn id_input(self, nanos: u32) -> Seq<Seq<u8>> {
        seq![
            encode_utf8(self.host),
            timestamp_bytes(self.timestamp),
            u64_be_bytes(nanos as u64),
        ]
    }

    /// The id under which the chunks of this message travel when it is sent at
    /// a moment whose clock reads `nanos` nanoseconds into the second.
    pub open spec fn message_id(self, nanos: u32) -> u64 {
        DefaultHasher::spec_finish(self.id_input(nanos))
    }

    /// The serialised message, compressed.
    pub open spec fn compressed(self) -> Seq<u8> {
        gzip_bytes(encode_utf8(json_object_text(self.fields())))
    }
}

impl Gelf {
    /// Builds the message for one log event. The protocol version is fixed; every
    /// optional field is absent exactly when its argument is `None`.
    pub fn new(
        host: &str,
        short_message: &str,
        full_message: Option<String>,
        timestamp: Option<i64>,
        level: Option<u8>,
        file: &str,
        line: u32,
    ) -> (gelf: Gelf)
        ensures
            gelf@.version == "1.1"@,
            gelf@.host == host@,
            gelf@.short_message == short_message@,
            gelf.full_message == full_message,
            gelf@.timestamp == timestamp,
            gelf@.level == level,
            gelf@.file == file@,
            gelf@.line == line,
    {
        Gelf {
            version: "1.1".to_owned(),
            host: host.to_owned(),
            short_message: short_message.to_owned(),
            full_message,
            timestamp,
            level,
            file: file.to_owned(),
            line,
        }
    }

    /// The members of the serialised message, in the order they are written.
    pub fn fields(&self) -> (fields: Vec<Field>)
        ensures
            fields_view(fields@) == self@.fields(),
            fields@.len() == 8,
            forall|index: int|
                0 <= index < 8 ==> (#[trigger] fields@[index])@ == self@.fields()[index],
    {
        let mut fields: Vec<Field> = Vec::new();
        fields.push(
            Field { name: "version".to_owned(), value: FieldValue::Text(self.version.clone()) },
        );
        fields.push(Field { name: "host".to_owned(), value: FieldValue::Text(self.host.clone()) });
        fields.push(
            Field {
                name: "short_message".to_owned(),
                value: FieldValue::Text(self.short_message.clone()),
            },
        );
        let full_message = match &self.full_message {
            Some(text) => FieldValue::Text(text.clone()),
            None => FieldValue::Null,
        };
        fields.push(Field { name: "full_message".to_owned(), value: full_message });
        let timestamp = match self.timestamp {
            Some(seconds) => FieldValue::Number(seconds),
            None => FieldValue::Null,
        };
        fields.push(Field { name: "timestamp".to_owned(), value: timestamp });
        let level = match self.level {
            Some(level) => FieldValue::Number(level as i64),
            None => FieldValue::Null,
        };
        fields.push(Field { name: "level".to_owned(), value: level });
        fields.push(Field { name: "_file".to_owned(), value: FieldValue::Text(self.file.clone()) });
        fields.push(
            Field { name: "_line".to_owned(), value: FieldValue::Number(self.line as i64) },
        );
        assert(fields_view(fields@) =~= self@.fields());
        fields
    }

    /// Derives the id that correlates the chunks of this message: a hash of the
    /// host, the timestamp and `nanos`, a sample of a high-resolution clock taken
    /// when the message is sent. Two messages may get the same id; the sample
    /// makes that unlikely for messages sent in quick succession.
    pub fn message_id(&self, nanos: u32) -> (id: u64)
        ensures
            id == self@.message_id(nanos),
    {
        let mut timestamp: Vec<u8> = Vec::new();
        match self.timestamp {
            Some(seconds) => {
                timestamp.push(1);
                timestamp.extend_from_slice(&be_u64(#[verifier::truncate] (seconds as u64)));
            },
            None => {
                timestamp.push(0);
            },
        }
        assert(timestamp@ =~= timestamp_bytes(self.timestamp));
        let mut hasher = DefaultHasher::new();
        hasher.write(self.host.as_str().as_bytes());
        hasher.write(timestamp.as_slice());
        hasher.write(&be_u64(nanos as u64));
        assert(hasher@ =~= self@.id_input(nanos));
        hasher.finish()
    }

    /// Serialises the message as JSON text. Every message can be serialised;
    /// an error of the serialiser would come back as an encoding failure.
    pub fn to_json(&self) -> (res: Result<String, GraylogError>)
        ensures
            res matches Ok(text) && text@ == json_object_text(self@.fields()),
    {
        let fields = self.fields();
        match json_object(&fields) {
            Ok(text) => Ok(text),
            Err(err) => Err(GraylogError::JsonError(err)),
        }
    }

    /// Serialises the message and compresses the text. This always succeeds.
    pub fn compress(&self) -> (res: Result<Vec<u8>, GraylogError>)
        ensures
            res matches Ok(stream) && stream@ == self@.compressed(),
    {
        let json = match self.to_json() {
            Ok(json) => json,
            Err(err) => {
                return Err(err);
            },
        };
        compress(json.as_str().as_bytes())
    }
}

/// The serialised message has eight members, and no two of them share a name.
pub proof fn lemma_field_names_differ(gelf: GelfView, first: int, second: int)
    requires
        0 <= first < second < 8,
    ensures
        gelf.fields().len() == 8,
        gelf.fields()[first].name != gelf.fields()[second].name,
{
    reveal_strlit("version");
    reveal_strlit("host");
    reveal_strlit("short_message");
    reveal_strlit("full_message");
    reveal_strlit("timestamp");
    reveal_strlit("level");
    reveal_strlit("_file");
    reveal_strlit("_line");
    let names = gelf.fields().map_values(|field: FieldView| field.name);
    assert(names[5][0] == 'l' && names[6][0] == '_' && names[7][0] == '_');
    assert(names[6][1] == 'f' && names[7][1] == 'l');
    assert(names[first].len() != names[second].len() || names[first][0] != names[second][0]
        || names[first][1] != names[second][1]);
}

/// Two messages with the same serialised members are the same message: nothing
/// of a message is lost or merged on its way into its members, whichever of its
/// optional fields are absent.
pub proof fn lemma_fields_determine_message(a: GelfView, b: GelfView)
    requires
        a.fields() == b.fields(),
    ensures
        a == b,
{
    let (left, right) = (a.fields(), b.fields());
    assert(left[0] == right[0]);
    assert(left[1] == right[1]);
    assert(left[2] == right[2]);
    assert(left[3] == right[3]);
    assert(left[4] == right[4]);
    assert(left[5] == right[5]);
    assert(left[6] == right[6]);
    assert(left[7] == right[7]);
}

} // verus!
