//! Decoding a raw log entry into a typed operation.
use vstd::prelude::*;
use crate::entry::RawLogEntry;

verus! {

/// The closed set of operation kinds.
#[derive(Clone, Copy, Debug, PartialEq, Eq, Structural)]
pub enum OpKind {
    Insert,
    Update,
    Delete,
    Command,
    Noop,
}

/// A field that an operation kind requires.
#[derive(Clone, Copy, Debug, PartialEq, Eq, Structural)]
pub enum Field {
    Namespace,
    Payload,
    Secondary,
}

/// Why an entry could not be decoded.
#[derive(Clone, Copy, Debug, PartialEq, Eq, Structural)]
pub enum DecodeError {
    /// The kind code is absent or not one of the known codes.
    UnrecognizedKind,
    /// The kind is known but a field it requires is absent.
    MissingField(Field),
}

/// A decoded operation. Every variant keeps the entry's timestamp.
#[derive(Debug, PartialEq)]
pub enum Operation {
    Insert { namespace: String, document: bson::Document, timestamp: Option<i64> },
    Update {
        namespace: String,
        update: bson::Document,
        selector: bson::Document,
        timestamp: Option<i64>,
    },
    Delete { namespace: String, selector: bson::Document, timestamp: Option<i64> },
    Command { namespace: String, command: bson::Document, timestamp: Option<i64> },
    Noop { message: bson::Document, timestamp: Option<i64> },
}

/// The kind that a code names, if it names one.
pub open spec fn kind_of_code(code: Seq<char>) -> Option<OpKind> {
    if code == "insert"@ {
        Some(OpKind::Insert)
    } else if code == "update"@ {
        Some(OpKind::Update)
    } else if code == "delete"@ {
        Some(OpKind::Delete)
    } else if code == "command"@ {
        Some(OpKind::Command)
    } else if code == "noop"@ {
        Some(OpKind::Noop)
    } else {
        None
    }
}

/// The kind of an entry: that of its code, if it has a known one.
pub open spec fn entry_kind(e: RawLogEntry) -> Option<OpKind> {
    match e.kind {
        Some(code) => kind_of_code(code@),
        None => None,
    }
}

pub open spec fn needs_namespace(k: OpKind) -> bool {
    k != OpKind::Noop
}

pub open spec fn needs_payload(k: OpKind) -> bool {
    k != OpKind::Delete
}

pub open spec fn needs_secondary(k: OpKind) -> bool {
    k == OpKind::Update || k == OpKind::Delete
}

/// Whether the entry carries every field that kind `k` requires.
pub open spec fn has_required_fields(k: OpKind, e: RawLogEntry) -> bool {
    &&& needs_namespace(k) ==> e.namespace is Some
    &&& needs_payload(k) ==> e.payload is Some
    &&& needs_secondary(k) ==> e.secondary is Some
}

/// The first field, in the order namespace, payload, secondary, that kind `k`
/// requires and the entry lacks.
pub open spec fn first_missing(k: OpKind, e: RawLogEntry) -> Option<Field> {
    if needs_namespace(k) && e.namespace is None {
        Some(Field::Namespace)
    } else if needs_payload(k) && e.payload is None {
        Some(Field::Payload)
    } else if needs_secondary(k) && e.secondary is None {
        Some(Field::Secondary)
    } else {
        None
    }
}

/// The operation of kind `k` built from an entry that has the fields `k` requires.
pub open spec fn operation_of(k: OpKind, e: RawLogEntry) -> Operation {
    match k {
        OpKind::Insert => Operation::Insert {
            namespace: e.namespace->Some_0,
            document: e.payload->Some_0,
            timestamp: e.timestamp,
        },
        OpKind::Update => Operation::Update {
            namespace: e.namespace->Some_0,
            update: e.payload->Some_0,
            selector: e.secondary->Some_0,
            timestamp: e.timestamp,
        },
        OpKind::Delete => Operation::Delete {
            namespace: e.namespace->Some_0,
            selector: e.secondary->Some_0,
            timestamp: e.timestamp,
        },
        OpKind::Command => Operation::Command {
            namespace: e.namespace->Some_0,
            command: e.payload->Some_0,
            timestamp: e.timestamp,
        },
        OpKind::Noop => Operation::Noop { message: e.payload->Some_0, timestamp: e.timestamp },
    }
}

/// What decoding an entry gives.
pub open spec fn decode_spec(e: RawLogEntry) -> Result<Operation, DecodeError> {
    match entry_kind(e) {
        None => Err(DecodeError::UnrecognizedKind),
        Some(k) => match first_missing(k, e) {
            Some(f) => Err(DecodeError::MissingField(f)),
            None => Ok(operation_of(k, e)),
        },
    }
}

impl Operation {
    pub open spec fn kind_spec(&self) -> OpKind {
        match self {
            Operation::Insert { .. } => OpKind::Insert,
            Operation::Update { .. } => OpKind::Update,
            Operation::Delete { .. } => OpKind::Delete,
            Operation::Command { .. } => OpKind::Command,
            Operation::Noop { .. } => OpKind::Noop,
        }
    }

    pub open spec fn timestamp_spec(&self) -> Option<i64> {
        match self {
            Operation::Insert { timestamp, .. } => *timestamp,
            Operation::Update { timestamp, .. } => *timestamp,
            Operation::Delete { timestamp, .. } => *timestamp,
            Operation::Command { timestamp, .. } => *timestamp,
            Operation::Noop { timestamp, .. } => *timestamp,
        }
    }

    /// The kind of this operation.
    pub fn kind(&self) -> (r: OpKind)
        ensures
            r == self.kind_spec(),
    {
        match self {
            Operation::Insert { .. } => OpKind::Insert,
            Operation::Update { .. } => OpKind::Update,
            Operation::Delete { .. } => OpKind::Delete,
            Operation::Command { .. } => OpKind::Command,
            Operation::Noop { .. } => OpKind::Noop,
        }
    }

    /// The logical timestamp of the entry this operation was decoded from.
    pub fn timestamp(&self) -> (r: Option<i64>)
        ensures
            r == self.timestamp_spec(),
    {
        match self {
            Operation::Insert { timestamp, .. } => *timestamp,
            Operation::Update { timestamp, .. } => *timestamp,
            Operation::Delete { timestamp, .. } => *timestamp,
            Operation::Command { timestamp, .. } => *timestamp,
            Operation::Noop { timestamp, .. } => *timestamp,
        }
    }
}

/// The kind that a code names, if it names one.
pub fn kind_from_code(code: &String) -> (r: Option<OpKind>)
    ensures
        r == kind_of_code(code@),
{
    proof {
        reveal_strlit("insert");
        reveal_strlit("update");
        reveal_strlit("delete");
        reveal_strlit("command");
        reveal_strlit("noop");
    }
    if *code == "insert".to_owned() {
        Some(OpKind::Insert)
    } else if *code == "update".to_owned() {
        Some(OpKind::Update)
    } else if *code == "delete".to_owned() {
        Some(OpKind::Delete)
    } else if *code == "command".to_owned() {
        Some(OpKind::Command)
    } else if *code == "noop".to_owned() {
        Some(OpKind::Noop)
    } else {
        None
    }
}

/// Decodes a raw entry into the operation its kind code names.
///
/// Fails with `UnrecognizedKind` when the code is absent or unknown, and with
/// `MissingField` naming the first required field (namespace, payload,
/// secondary) that the entry lacks. Nothing is filled in by default.
pub fn decode(entry: RawLogEntry) -> (r: Result<Operation, DecodeError>)
    ensures
        r == decode_spec(entry),
{
    let ghost e = entry;
    let kind = match &entry.kind {
        Some(code) => kind_from_code(code),
        None => None,
    };
    let kind = match kind {
        Some(k) => k,
        None => {
            return Err(DecodeError::UnrecognizedKind);
        },
    };
    let RawLogEntry { kind: _, namespace, payload, secondary, timestamp } = entry;
    match kind {
        OpKind::Insert => match (namespace, payload) {
            (None, _) => Err(DecodeError::MissingField(Field::Namespace)),
            (_, None) => Err(DecodeError::MissingField(Field::Payload)),
            (Some(namespace), Some(document)) => Ok(
                Operation::Insert { namespace, document, timestamp },
            ),
        },
        OpKind::Update => match (namespace, payload, secondary) {
            (None, _, _) => Err(DecodeError::MissingField(Field::Namespace)),
            (_, None, _) => Err(DecodeError::MissingField(Field::Payload)),
            (_, _, None) => Err(DecodeError::MissingField(Field::Secondary)),
            (Some(namespace), Some(update), Some(selector)) => Ok(
                Operation::Update { namespace, update, selector, timestamp },
            ),
        },
        OpKind::Delete => match (namespace, secondary) {
            (None, _) => Err(DecodeError::MissingField(Field::Namespace)),
            (_, None) => Err(DecodeError::MissingField(Field::Secondary)),
            (Some(namespace), Some(selector)) => Ok(
                Operation::Delete { namespace, selector, timestamp },
            ),
        },
        OpKind::Command => match (namespace, payload) {
            (None, _) => Err(DecodeError::MissingField(Field::Namespace)),
            (_, None) => Err(DecodeError::MissingField(Field::Payload)),
            (Some(namespace), Some(command)) => Ok(
                Operation::Command { namespace, command, timestamp },
            ),
        },
        OpKind::Noop => match payload {
            None => Err(DecodeError::MissingField(Field::Payload)),
            Some(message) => Ok(Operation::Noop { message, timestamp }),
        },
    }
}

/// An entry whose kind code is known and which carries every field that its
/// kind requires decodes, to the one operation of that kind, with the entry's
/// timestamp.
pub proof fn lemma_decode_complete(e: RawLogEntry)
    requires
        entry_kind(e) is Some,
        has_required_fields(entry_kind(e)->Some_0, e),
    ensures
        decode_spec(e) is Ok,
        decode_spec(e)->Ok_0.kind_spec() == entry_kind(e)->Some_0,
        decode_spec(e)->Ok_0.timestamp_spec() == e.timestamp,
{
}

/// An entry with no known kind code is refused as unrecognized; an entry of a
/// known kind that lacks a field the kind requires is refused as missing that
/// field, never decoded with a default in its place.
pub proof fn lemma_decode_rejects(e: RawLogEntry)
    ensures
        entry_kind(e) is None ==> decode_spec(e) == Err::<Operation, DecodeError>(
            DecodeError::UnrecognizedKind,
        ),
        entry_kind(e) is Some && !has_required_fields(entry_kind(e)->Some_0, e) ==> {
            &&& decode_spec(e) is Err
            &&& decode_spec(e)->Err_0 is MissingField
        },
{
}

} // verus!
