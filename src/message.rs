//! The message classifier: turns a bus payload into one typed store operation.
use vstd::prelude::*;
use crate::json::{json_is_null, json_member, json_parse, json_str, json_text, member, parse, to_text};
use crate::text::{same_text, trim_quotes, trim_quotes_of};

verus! {

/// The kinds of message the bus carries.
#[derive(PartialEq, Eq, Structural, Clone, Copy, Debug)]
pub enum MessageType {
    Create,
    Edit,
    Delete,
}

/// Why a well-formed JSON message was not turned into an operation.
#[derive(PartialEq, Eq, Structural, Clone, Copy, Debug)]
pub enum ClassifyError {
    /// `type` is missing, not a string, or not one of the three kinds.
    UnknownMessageType,
    /// `data` is missing or `null`.
    MissingData,
    /// `data.feature.id` is missing or not a string.
    MalformedPayload,
}

/// Why a raw payload was dropped.
#[derive(PartialEq, Eq, Structural, Clone, Copy, Debug)]
pub enum MessageError {
    /// The payload is not well-formed JSON.
    Parse,
    /// The payload is JSON but breaks the classifier's rules.
    Classify(ClassifyError),
}

/// One store mutation, as decided by the classifier.
#[derive(Clone, Debug)]
pub enum Operation {
    /// Create or overwrite the feature `id` with `payload`.
    Put { id: String, payload: String },
    /// Delete the feature `id`.
    Remove { id: String },
}

/// An [`Operation`] over character sequences.
pub enum OperationModel {
    Put { id: Seq<char>, payload: Seq<char> },
    Remove { id: Seq<char> },
}

impl View for Operation {
    type V = OperationModel;

    open spec fn view(&self) -> OperationModel {
        match self {
            Operation::Put { id, payload } => OperationModel::Put { id: id@, payload: payload@ },
            Operation::Remove { id } => OperationModel::Remove { id: id@ },
        }
    }
}

pub open spec fn outcome_model<E>(r: Result<Operation, E>) -> Result<OperationModel, E> {
    match r {
        Ok(op) => Ok(op@),
        Err(e) => Err(e),
    }
}

pub open spec fn chars_of(o: Option<&str>) -> Option<Seq<char>> {
    match o {
        Some(s) => Some(s@),
        None => None,
    }
}

/// The kind named by a message's `type` field.
pub open spec fn type_model(kind: Option<Seq<char>>) -> Result<MessageType, ClassifyError> {
    match kind {
        Some(t) => if t == "Create"@ {
            Ok(MessageType::Create)
        } else if t == "Edit"@ {
            Ok(MessageType::Edit)
        } else if t == "Delete"@ {
            Ok(MessageType::Delete)
        } else {
            Err(ClassifyError::UnknownMessageType)
        },
        None => Err(ClassifyError::UnknownMessageType),
    }
}

/// The classifier's rules over the three things it reads: the `type` string,
/// the text of a present, non-null `data`, and the string at `data.feature.id`.
pub open spec fn classify_model(
    kind: Option<Seq<char>>,
    data: Option<Seq<char>>,
    feature_id: Option<Seq<char>>,
) -> Result<OperationModel, ClassifyError> {
    match type_model(kind) {
        Err(e) => Err(e),
        Ok(t) => match data {
            None => Err(ClassifyError::MissingData),
            Some(text) => if t == MessageType::Delete {
                Ok(OperationModel::Remove { id: trim_quotes(text) })
            } else {
                match feature_id {
                    Some(id) => Ok(OperationModel::Put { id, payload: text }),
                    None => Err(ClassifyError::MalformedPayload),
                }
            },
        },
    }
}

/// The string at `type`.
pub open spec fn type_field(m: serde_json::Value) -> Option<Seq<char>> {
    match json_member(m, "type"@) {
        Some(t) => json_str(t),
        None => None,
    }
}

/// The member `data`, unless it is absent or `null`.
pub open spec fn data_field(m: serde_json::Value) -> Option<serde_json::Value> {
    match json_member(m, "data"@) {
        Some(d) => if json_is_null(d) {
            None
        } else {
            Some(d)
        },
        None => None,
    }
}

/// The string at `feature.id` of a `data` document.
pub open spec fn feature_id_field(d: serde_json::Value) -> Option<Seq<char>> {
    match json_member(d, "feature"@) {
        Some(f) => match json_member(f, "id"@) {
            Some(i) => json_str(i),
            None => None,
        },
        None => None,
    }
}

/// What the classifier makes of a JSON message.
pub open spec fn message_model(m: serde_json::Value) -> Result<OperationModel, ClassifyError> {
    match data_field(m) {
        Some(d) => classify_model(type_field(m), Some(json_text(d)), feature_id_field(d)),
        None => classify_model(type_field(m), None, None),
    }
}

/// What becomes of a raw payload text.
pub open spec fn payload_model(s: Seq<char>) -> Result<OperationModel, MessageError> {
    match json_parse(s) {
        None => Err(MessageError::Parse),
        Some(m) => match message_model(m) {
            Ok(op) => Ok(op),
            Err(e) => Err(MessageError::Classify(e)),
        },
    }
}

/// Reads the message kind from the text of its `type` field.
pub fn get_type(kind: Option<&str>) -> (r: Result<MessageType, ClassifyError>)
    ensures
        r == type_model(chars_of(kind)),
{
    match kind {
        Some(t) => {
            if same_text(t, "Create") {
                Ok(MessageType::Create)
            } else if same_text(t, "Edit") {
                Ok(MessageType::Edit)
            } else if same_text(t, "Delete") {
                Ok(MessageType::Delete)
            } else {
                Err(ClassifyError::UnknownMessageType)
            }
        },
        None => Err(ClassifyError::UnknownMessageType),
    }
}

/// Applies the classifier's rules to the fields already read from a message:
/// `data` is the text of a present, non-null `data` member.
pub fn classify(kind: Option<&str>, data: Option<&str>, feature_id: Option<&str>) -> (r: Result<
    Operation,
    ClassifyError,
>)
    ensures
        outcome_model(r) == classify_model(chars_of(kind), chars_of(data), chars_of(feature_id)),
{
    let t = match get_type(kind) {
        Ok(t) => t,
        Err(e) => return Err(e),
    };
    let text = match data {
        Some(text) => text,
        None => return Err(ClassifyError::MissingData),
    };
    if t == MessageType::Delete {
        return Ok(Operation::Remove { id: trim_quotes_of(text) });
    }
    match feature_id {
        Some(id) => Ok(Operation::Put { id: id.to_string(), payload: text.to_string() }),
        None => Err(ClassifyError::MalformedPayload),
    }
}

/// The `data` member of a message, unless it is absent or `null`.
pub fn get_data(message: &serde_json::Value) -> (r: Result<serde_json::Value, ClassifyError>)
    ensures
        r == (match data_field(*message) {
            Some(d) => Ok(d),
            None => Err(ClassifyError::MissingData),
        }),
{
    match member(message, "data") {
        Some(d) => {
            if d.is_null() {
                Err(ClassifyError::MissingData)
            } else {
                Ok(d)
            }
        },
        None => Err(ClassifyError::MissingData),
    }
}

fn feature_id_of(data: &serde_json::Value) -> (r: Option<String>)
    ensures
        r.is_some() == feature_id_field(*data).is_some(),
        r.is_some() ==> r.unwrap()@ == feature_id_field(*data).unwrap(),
{
    let feature = match member(data, "feature") {
        Some(f) => f,
        None => return None,
    };
    let id = match member(&feature, "id") {
        Some(i) => i,
        None => return None,
    };
    match id.as_str() {
        Some(s) => Some(s.to_string()),
        None => None,
    }
}

/// Classifies a JSON message into one store operation.
pub fn read_message(message: &serde_json::Value) -> (r: Result<Operation, ClassifyError>)
    ensures
        outcome_model(r) == message_model(*message),
{
    let type_value = member(message, "type");
    let kind: Option<&str> = match &type_value {
        Some(t) => t.as_str(),
        None => None,
    };
    match get_data(message) {
        Ok(d) => {
            let text = to_text(&d);
            let fid = feature_id_of(&d);
            match &fid {
                Some(id) => classify(kind, Some(text.as_str()), Some(id.as_str())),
                None => classify(kind, Some(text.as_str()), None),
            }
        },
        Err(_) => classify(kind, None, None),
    }
}

/// Parses and classifies a raw bus payload.
pub fn read_payload(payload: &str) -> (r: Result<Operation, MessageError>)
    ensures
        outcome_model(r) == payload_model(payload@),
{
    match parse(payload) {
        None => Err(MessageError::Parse),
        Some(m) => match read_message(&m) {
            Ok(op) => Ok(op),
            Err(e) => Err(MessageError::Classify(e)),
        },
    }
}

} // verus!
