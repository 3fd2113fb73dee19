//! The raw entries of the operation log, as the cursor hands them over.
use vstd::prelude::*;

verus! {

/// bson's ordered document, carried through decoding without being read.
#[verifier::external_type_specification]
#[verifier::external_body]
pub struct ExDocument(bson::Document);

/// Relies on the `Clone` that `bson::Document` derives: the copy holds the
/// same fields in the same order.
pub assume_specification[ <bson::Document as Clone>::clone ](d: &bson::Document) -> (r:
    bson::Document)
    ensures
        r == *d,
;

/// One entry of the operation log: each field that decoding looks at,
/// present or absent. A field of the wrong type counts as absent.
pub struct RawLogEntry {
    /// The operation-kind code (`"insert"`, `"update"`, ...).
    pub kind: Option<String>,
    /// The namespace the operation applies to, `database.collection`.
    pub namespace: Option<String>,
    /// The primary document: what was inserted, the update, the command, the no-op message.
    pub payload: Option<bson::Document>,
    /// The secondary document: the selector of an update or a delete.
    pub secondary: Option<bson::Document>,
    /// The logical timestamp the server gave the entry.
    pub timestamp: Option<i64>,
}

/// The kind code that a marker of the server's log stands for: the server
/// writes one letter (`i`, `u`, `d`, `c`, `n`); any other marker is its own
/// code.
pub open spec fn code_of_marker(m: Seq<char>) -> Seq<char> {
    if m == "i"@ {
        "insert"@
    } else if m == "u"@ {
        "update"@
    } else if m == "d"@ {
        "delete"@
    } else if m == "c"@ {
        "command"@
    } else if m == "n"@ {
        "noop"@
    } else {
        m
    }
}

/// The kind code that a marker of the server's log stands for.
pub fn code_from_marker(marker: &str) -> (r: String)
    ensures
        r@ == code_of_marker(marker@),
{
    let m = marker.to_owned();
    if m == "i".to_owned() {
        "insert".to_owned()
    } else if m == "u".to_owned() {
        "update".to_owned()
    } else if m == "d".to_owned() {
        "delete".to_owned()
    } else if m == "c".to_owned() {
        "command".to_owned()
    } else if m == "n".to_owned() {
        "noop".to_owned()
    } else {
        m
    }
}

} // verus!
