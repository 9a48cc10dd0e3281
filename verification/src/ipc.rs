//! The UDP control surface: which datagrams are read as text, which message
//! types are recognized, and how a `Stimuli` message changes the input vector.
//!
//! Each datagram carries one JSON object whose `"type"` field selects
//! `Stimuli`, `LearningReward` or `GetNeuroState`; anything else is dropped.

use vstd::prelude::*;
use vstd::string::StringSliceAdditionalSpecFns;
use vstd::utf8::*;
use crate::text::string_chars;

verus! {

/// The message types of the control surface.
#[derive(Debug, Clone, Copy, PartialEq, Eq, Structural)]
pub enum RequestKind {
    /// Drive the network's input channels.
    Stimuli,
    /// Add reward and stress to the neuromodulators.
    LearningReward,
    /// Ask for a snapshot of the neuromodulators and the spike count.
    GetNeuroState,
}

/// The message type that a `"type"` tag selects; `None` for a missing or
/// unrecognized tag.
pub open spec fn kind_of_tag(tag: Option<Seq<char>>) -> Option<RequestKind> {
    match tag {
        Some(t) => if t == "Stimuli"@ {
            Some(RequestKind::Stimuli)
        } else if t == "LearningReward"@ {
            Some(RequestKind::LearningReward)
        } else if t == "GetNeuroState"@ {
            Some(RequestKind::GetNeuroState)
        } else {
            None
        },
        None => None,
    }
}

/// The characters of an optional string slice.
pub open spec fn tag_chars(tag: Option<&str>) -> Option<Seq<char>> {
    match tag {
        Some(t) => Some(t@),
        None => None,
    }
}

/// The input vector after a `Stimuli` message with `values`: channel `i` takes
/// `values[i]` where there is one; values beyond the channel count are ignored
/// and channels beyond the values keep their value.
pub open spec fn overwrite_prefix<T>(stimuli: Seq<T>, values: Seq<T>) -> Seq<T> {
    Seq::new(stimuli.len(), |i: int| if i < values.len() { values[i] } else { stimuli[i] })
}

/// `std::str::from_utf8`: the bytes read as text when they are valid UTF-8.
/// Claimed: the result is present exactly when the bytes are valid UTF-8, and
/// then its characters are the UTF-8 decoding of the bytes and its bytes are
/// the given ones.
#[verifier::external_body]
fn utf8_text(bytes: &[u8]) -> (text: Option<&str>)
    ensures
        text is Some <==> valid_utf8(bytes@),
        text matches Some(t) ==> t@ == decode_utf8(bytes@) && t.spec_bytes() == bytes@,
{
    std::str::from_utf8(bytes).ok()
}

/// The text of a received datagram; `None` (the datagram is dropped) when it
/// is not valid UTF-8.
pub fn datagram_text(bytes: &[u8]) -> (text: Option<&str>)
    ensures
        text is Some <==> valid_utf8(bytes@),
        text matches Some(t) ==> t@ == decode_utf8(bytes@),
{
    utf8_text(bytes)
}

/// `serde_json::Value`, the parsed document of a message, carried through to
/// the code that reads its numeric fields.
#[verifier::external_type_specification]
#[verifier::external_body]
pub struct ExJsonValue(serde_json::Value);

/// The document that a text reads as in JSON; `None` when the text is not JSON.
pub uninterp spec fn json_document(text: Seq<char>) -> Option<serde_json::Value>;

/// The string held by field `key` of a JSON document; `None` when the
/// document has no such field or its value is not a string.
pub uninterp spec fn json_str_field(doc: serde_json::Value, key: Seq<char>) -> Option<Seq<char>>;

/// `serde_json::from_str::<serde_json::Value>`. Claimed: the result is the
/// document `json_document` names for the text, present exactly when the text
/// is JSON.
#[verifier::external_body]
fn parse_json(text: &str) -> (doc: Option<serde_json::Value>)
    ensures
        doc == json_document(text@),
{
    serde_json::from_str::<serde_json::Value>(text).ok()
}

/// `serde_json::Value::as_str` on field `key` of a document (indexing gives
/// `Null` for a missing field). Claimed: the result is the string that
/// `json_str_field` names for the document and key.
#[verifier::external_body]
fn str_field(doc: &serde_json::Value, key: &str) -> (field: Option<String>)
    ensures
        string_chars(field) == json_str_field(*doc, key@),
{
    doc[key].as_str().map(|s| s.to_string())
}

/// The field of a message that names its type.
pub open spec fn type_key() -> Seq<char> {
    "type"@
}

/// A recognized message: its type and its parsed document.
pub struct Message {
    pub kind: RequestKind,
    pub document: serde_json::Value,
}

/// The document of a datagram: `None` when it is not UTF-8 or not JSON.
pub open spec fn datagram_document(bytes: Seq<u8>) -> Option<serde_json::Value> {
    if valid_utf8(bytes) {
        json_document(decode_utf8(bytes))
    } else {
        None
    }
}

/// The message type of a datagram: `None` (the datagram is dropped) when it is
/// not UTF-8, not JSON, or its `"type"` is missing, not a string, or not one of
/// the three.
pub open spec fn datagram_kind(bytes: Seq<u8>) -> Option<RequestKind> {
    match datagram_document(bytes) {
        Some(doc) => kind_of_tag(json_str_field(doc, type_key())),
        None => None,
    }
}

/// Reads a received datagram as a message; `None` when it is to be dropped.
pub fn classify_datagram(bytes: &[u8]) -> (m: Option<Message>)
    ensures
        m is Some <==> datagram_kind(bytes@) is Some,
        m matches Some(msg) ==> {
            &&& datagram_kind(bytes@) == Some(msg.kind)
            &&& datagram_document(bytes@) == Some(msg.document)
        },
{
    let text = match datagram_text(bytes) {
        Some(t) => t,
        None => {
            return None;
        },
    };
    let document = match parse_json(text) {
        Some(doc) => doc,
        None => {
            return None;
        },
    };
    proof {
        reveal_strlit("type");
    }
    let tag = str_field(&document, "type");
    let tag_text: Option<&str> = match &tag {
        Some(t) => Some(t.as_str()),
        None => None,
    };
    match RequestKind::from_tag(tag_text) {
        Some(kind) => Some(Message { kind, document }),
        None => None,
    }
}

/// Whether two string slices hold the same characters.
fn same_text(a: &str, b: &str) -> (same: bool)
    ensures
        same == (a@ == b@),
{
    let x = a.as_bytes();
    let y = b.as_bytes();
    proof {
        encode_utf8_decode_utf8(a@);
        encode_utf8_decode_utf8(b@);
    }
    if x.len() != y.len() {
        return false;
    }
    let mut i: usize = 0;
    while i < x.len()
        invariant
            x@ == a.spec_bytes(),
            y@ == b.spec_bytes(),
            x@.len() == y@.len(),
            i <= x@.len(),
            forall|k: int| 0 <= k < i ==> x@[k] == y@[k],
        decreases x@.len() - i,
    {
        if x[i] != y[i] {
            return false;
        }
        i = i + 1;
    }
    assert(x@ =~= y@);
    true
}

impl RequestKind {
    /// The message type selected by the `"type"` tag of a message, if the tag
    /// is present and names one.
    pub fn from_tag(tag: Option<&str>) -> (kind: Option<RequestKind>)
        ensures
            kind == kind_of_tag(tag_chars(tag)),
    {
        proof {
            reveal_strlit("Stimuli");
            reveal_strlit("LearningReward");
            reveal_strlit("GetNeuroState");
        }
        match tag {
            Some(t) => if same_text(t, "Stimuli") {
                Some(RequestKind::Stimuli)
            } else if same_text(t, "LearningReward") {
                Some(RequestKind::LearningReward)
            } else if same_text(t, "GetNeuroState") {
                Some(RequestKind::GetNeuroState)
            } else {
                None
            },
            None => None,
        }
    }
}

/// Applies a `Stimuli` message: `values` is the message's `"values"` array,
/// each element already turned into a channel value, or `None` when the field
/// is missing or not an array (then the message is ignored). Returns whether
/// the message was applied.
pub fn apply_stimuli<T: Copy>(stimuli: &mut Vec<T>, values: Option<&[T]>) -> (applied: bool)
    ensures
        applied == values is Some,
        final(stimuli)@ == match values {
            Some(v) => overwrite_prefix(old(stimuli)@, v@),
            None => old(stimuli)@,
        },
{
    match values {
        Some(v) => {
            let n = if v.len() < stimuli.len() { v.len() } else { stimuli.len() };
            let mut i: usize = 0;
            while i < n
                invariant
                    n <= v@.len(),
                    n <= stimuli@.len(),
                    stimuli@.len() == old(stimuli)@.len(),
                    i <= n,
                    n == v@.len() || n == stimuli@.len(),
                    forall|k: int| 0 <= k < i ==> stimuli@[k] == v@[k],
                    forall|k: int| i <= k < stimuli@.len() ==> stimuli@[k] == old(stimuli)@[k],
                decreases n - i,
            {
                stimuli.set(i, v[i]);
                i = i + 1;
            }
            assert(stimuli@ =~= overwrite_prefix(old(stimuli)@, v@));
            true
        },
        None => false,
    }
}

/// Exactly three message types are recognized, by their exact tag; a missing
/// tag or any other tag selects none.
pub proof fn lemma_recognized_tags(tag: Option<Seq<char>>)
    ensures
        kind_of_tag(tag) is Some <==> (tag == Some("Stimuli"@) || tag == Some("LearningReward"@)
            || tag == Some("GetNeuroState"@)),
        kind_of_tag(Some("Stimuli"@)) == Some(RequestKind::Stimuli),
        kind_of_tag(Some("LearningReward"@)) == Some(RequestKind::LearningReward),
        kind_of_tag(Some("GetNeuroState"@)) == Some(RequestKind::GetNeuroState),
{
    reveal_strlit("Stimuli");
    reveal_strlit("LearningReward");
    reveal_strlit("GetNeuroState");
    assert("Stimuli"@.len() == 7);
    assert("LearningReward"@.len() == 14);
    assert("GetNeuroState"@.len() == 13);
}

/// A `Stimuli` message keeps the number of channels, sets the first
/// `min(channels, values)` channels to the values in order, and leaves the
/// other channels unchanged.
pub proof fn lemma_stimuli_prefix<T>(stimuli: Seq<T>, values: Seq<T>)
    ensures
        overwrite_prefix(stimuli, values).len() == stimuli.len(),
        forall|i: int| 0 <= i < stimuli.len() && i < values.len()
            ==> overwrite_prefix(stimuli, values)[i] == values[i],
        forall|i: int| values.len() <= i < stimuli.len()
            ==> overwrite_prefix(stimuli, values)[i] == stimuli[i],
{
}

/// Applying the same `Stimuli` message twice has the effect of applying it once.
pub proof fn lemma_stimuli_idempotent<T>(stimuli: Seq<T>, values: Seq<T>)
    ensures
        overwrite_prefix(overwrite_prefix(stimuli, values), values) == overwrite_prefix(stimuli, values),
{
    assert(overwrite_prefix(overwrite_prefix(stimuli, values), values) =~= overwrite_prefix(stimuli, values));
}

/// Of two `Stimuli` messages, the later one decides every channel it covers;
/// the earlier one decides only the channels beyond the later one's values.
pub proof fn lemma_stimuli_last_writer_wins<T>(stimuli: Seq<T>, first: Seq<T>, second: Seq<T>)
    ensures
        forall|i: int| 0 <= i < stimuli.len() && i < second.len()
            ==> overwrite_prefix(overwrite_prefix(stimuli, first), second)[i] == second[i],
        forall|i: int| second.len() <= i < stimuli.len()
            ==> overwrite_prefix(overwrite_prefix(stimuli, first), second)[i] == overwrite_prefix(
                stimuli,
                first,
            )[i],
{
}

} // verus!
