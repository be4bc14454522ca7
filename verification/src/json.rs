//! JSON values as the reader sees them, and the rows it makes of them.

use crate::error::{ErrorCode, ErrorKind};
use crate::text::{lowercase, quoted, to_lowercase, to_quoted};
use vstd::prelude::*;
use vstd::string::StringExecFns;

verus! {

/// One JSON value, held as plain values so that the reader's rules can be
/// stated over it. A number is held as the text that the parser shows it as.
/// The members of an object are held in a vector, in the order in which the
/// parser's map hands them out: that map holds none but the parser's own
/// values.
#[derive(Debug, PartialEq, Eq)]
pub enum JsonValue {
    Null,
    Bool(bool),
    Number(String),
    String(String),
    Array(Vec<JsonValue>),
    Object(Vec<(String, JsonValue)>),
}

/// `serde_json::Error`, so that it can be named. Nothing is known of what it
/// holds.
#[verifier::external_type_specification]
#[verifier::external_body]
pub struct ExSerdeError(serde_json::Error);

/// `serde_json::Value`, so that it can be named. Nothing is known of what it
/// holds.
#[verifier::external_type_specification]
#[verifier::external_body]
pub struct ExSerdeValue(serde_json::Value);

/// The value that a text stands for, where the text is one JSON value with
/// nothing but white space around it.
pub uninterp spec fn json_parse(text: Seq<char>) -> Option<JsonValue>;

/// Takes a `serde_json::Value` apart into a `JsonValue`, variant by variant.
/// A number becomes the text that `serde_json::Number` shows itself as, and
/// an object its members in the order in which `serde_json::Map` hands them
/// out. Nothing is stated of it by itself: `parse_text` gives the result of
/// parsing and taking apart its name.
#[verifier::external_body]
fn from_serde(value: serde_json::Value) -> JsonValue {
    match value {
        serde_json::Value::Null => JsonValue::Null,
        serde_json::Value::Bool(b) => JsonValue::Bool(b),
        serde_json::Value::Number(n) => JsonValue::Number(n.to_string()),
        serde_json::Value::String(s) => JsonValue::String(s),
        serde_json::Value::Array(a) => JsonValue::Array(a.into_iter().map(from_serde).collect()),
        serde_json::Value::Object(o) => JsonValue::Object(
            o.into_iter().map(|(k, v)| (k, from_serde(v))).collect(),
        ),
    }
}

/// `serde_json::from_reader` on the bytes of `text`, for a
/// `serde_json::Value`. Whether the text is taken, and the value that it is
/// taken for, depend on the text alone: that is all that is claimed here, by
/// the name `json_parse`.
#[verifier::external_body]
fn parse_text(text: &str) -> (r: Result<JsonValue, serde_json::Error>)
    ensures
        r is Ok <==> json_parse(text@) is Some,
        r matches Ok(v) ==> json_parse(text@) == Some(v),
{
    serde_json::from_reader::<_, serde_json::Value>(text.as_bytes()).map(from_serde)
}

/// What a `serde_json::Error` shows itself as. Nothing is claimed of the
/// text.
#[verifier::external_body]
fn error_text(e: &serde_json::Error) -> String {
    e.to_string()
}

/// Parses one JSON value. A text that is none is refused as a malformed
/// record, with the parser's own account of what is wrong with it.
pub fn parse_json(text: &str) -> (r: Result<JsonValue, ErrorCode>)
    ensures
        r is Ok <==> json_parse(text@) is Some,
        r matches Ok(v) ==> json_parse(text@) == Some(v),
        r matches Err(e) ==> e.kind == ErrorKind::MalformedRecord,
{
    match parse_text(text) {
        Ok(v) => Ok(v),
        Err(e) => Err(ErrorCode::new(ErrorKind::MalformedRecord, error_text(&e))),
    }
}

/// The first `n` of `items` in their debug form, with `", "` between them.
pub open spec fn debug_items(items: Seq<JsonValue>, n: nat) -> Seq<char>
    decreases items, n,
{
    if n == 0 || n > items.len() {
        Seq::empty()
    } else if n == 1 {
        debug_text(items[0])
    } else {
        debug_items(items, (n - 1) as nat) + ", "@ + debug_text(items[n - 1])
    }
}

/// The first `n` of `members` in their debug form, each as its quoted key,
/// `": "` and its value, with `", "` between them.
pub open spec fn debug_members(members: Seq<(String, JsonValue)>, n: nat) -> Seq<char>
    decreases members, n,
{
    if n == 0 || n > members.len() {
        Seq::empty()
    } else if n == 1 {
        quoted(members[0].0@) + ": "@ + debug_text(members[0].1)
    } else {
        debug_members(members, (n - 1) as nat) + ", "@ + quoted(members[n - 1].0@) + ": "@
            + debug_text(members[n - 1].1)
    }
}

/// The debug form of a value: the name of its kind and what it holds, as
/// `serde_json` writes its own values for `{:?}`.
pub open spec fn debug_text(v: JsonValue) -> Seq<char>
    decreases v, 0nat,
{
    match v {
        JsonValue::Null => "Null"@,
        JsonValue::Bool(b) => if b {
            "Bool(true)"@
        } else {
            "Bool(false)"@
        },
        JsonValue::Number(n) => "Number("@ + n@ + ")"@,
        JsonValue::String(s) => "String("@ + quoted(s@) + ")"@,
        JsonValue::Array(items) => "Array ["@ + debug_items(items@, items@.len()) + "]"@,
        JsonValue::Object(members) => "Object {"@ + debug_members(members@, members@.len()) + "}"@,
    }
}

impl JsonValue {
    /// Writes the value in its debug form. The form is written out here, and
    /// not asked of the parser's own value: that would take a number made
    /// again from its text, and a number read from the text that it was shown
    /// as need not be shown as the same text again.
    pub fn debug_string(&self) -> (s: String)
        ensures
            s@ == debug_text(*self),
        decreases self,
    {
        broadcast use vstd::std_specs::vec::axiom_vec_index_decreases;

        match self {
            JsonValue::Null => "Null".to_owned(),
            JsonValue::Bool(b) => if *b {
                "Bool(true)".to_owned()
            } else {
                "Bool(false)".to_owned()
            },
            JsonValue::Number(n) => {
                let mut s = "Number(".to_owned();
                s.append(n.as_str());
                s.append(")");
                s
            },
            JsonValue::String(t) => {
                let mut s = "String(".to_owned();
                s.append(to_quoted(t.as_str()).as_str());
                s.append(")");
                s
            },
            JsonValue::Array(items) => {
                let mut s = "Array [".to_owned();
                let mut i: usize = 0;
                while i < items.len()
                    invariant
                        i <= items.len(),
                        s@ == "Array ["@ + debug_items(items@, i as nat),
                        forall|k: int| 0 <= k < items.len() ==> decreases_to!(self => items[k]),
                    decreases items.len() - i,
                {
                    if i > 0 {
                        s.append(", ");
                    }
                    let d = items[i].debug_string();
                    s.append(d.as_str());
                    i += 1;
                }
                s.append("]");
                s
            },
            JsonValue::Object(members) => {
                let mut s = "Object {".to_owned();
                let mut i: usize = 0;
                while i < members.len()
                    invariant
                        i <= members.len(),
                        s@ == "Object {"@ + debug_members(members@, i as nat),
                        forall|k: int| 0 <= k < members.len() ==> decreases_to!(self => members[k].1),
                    decreases members.len() - i,
                {
                    if i > 0 {
                        s.append(", ");
                    }
                    s.append(to_quoted(members[i].0.as_str()).as_str());
                    s.append(": ");
                    let d = members[i].1.debug_string();
                    s.append(d.as_str());
                    i += 1;
                }
                s.append("}");
                s
            },
        }
    }
}

/// The normalized form of one record: its members under the keys by which
/// its fields are looked up. Where case is not to count, these are the keys
/// in lower case, and two keys of the record may have become one: the fields
/// are then found under the member that comes last.
#[derive(Debug, PartialEq, Eq)]
pub struct JsonRow {
    pub members: Vec<(String, JsonValue)>,
}

/// `members` with every key in lower case, the values and the order as they
/// were.
pub open spec fn fold_keys(members: Seq<(String, JsonValue)>) -> Seq<(Seq<char>, JsonValue)> {
    Seq::new(members.len(), |i: int| (lowercase(members[i].0@), members[i].1))
}

/// `members` as they are.
pub open spec fn keep_keys(members: Seq<(String, JsonValue)>) -> Seq<(Seq<char>, JsonValue)> {
    Seq::new(members.len(), |i: int| (members[i].0@, members[i].1))
}

/// The row that a record gives: the members of an object, under their own
/// keys where keys are matched as they are written, under their keys in lower
/// case where they are not. A value that is no object has no members.
pub open spec fn row_of(json: JsonValue, case_sensitive: bool) -> Seq<(Seq<char>, JsonValue)> {
    match json {
        JsonValue::Object(members) => if case_sensitive {
            keep_keys(members@)
        } else {
            fold_keys(members@)
        },
        _ => Seq::empty(),
    }
}

/// The value under `key`: that of the last member with this key, and null
/// where no member has it.
pub open spec fn lookup(members: Seq<(Seq<char>, JsonValue)>, key: Seq<char>) -> JsonValue
    decreases members.len(),
{
    if members.len() == 0 {
        JsonValue::Null
    } else if members.last().0 == key {
        members.last().1
    } else {
        lookup(members.drop_last(), key)
    }
}

/// Whether some member has `key`.
pub open spec fn has_key(members: Seq<(Seq<char>, JsonValue)>, key: Seq<char>) -> bool {
    exists|i: int| 0 <= i < members.len() && (#[trigger] members[i]).0 == key
}

/// A key that no member has is looked up to null.
pub proof fn lemma_lookup_absent(members: Seq<(Seq<char>, JsonValue)>, key: Seq<char>)
    requires
        !has_key(members, key),
    ensures
        lookup(members, key) == JsonValue::Null,
    decreases members.len(),
{
    if members.len() > 0 {
        lemma_lookup_absent(members.drop_last(), key);
    }
}

/// A key that one member has, and no member after it, is looked up to the
/// value of that member.
pub proof fn lemma_lookup_last(members: Seq<(Seq<char>, JsonValue)>, key: Seq<char>, at: int)
    requires
        0 <= at < members.len(),
        members[at].0 == key,
        forall|i: int| at < i < members.len() ==> (#[trigger] members[i]).0 != key,
    ensures
        lookup(members, key) == members[at].1,
    decreases members.len(),
{
    if at < members.len() - 1 {
        lemma_lookup_last(members.drop_last(), key, at);
    }
}

impl View for JsonRow {
    type V = Seq<(Seq<char>, JsonValue)>;

    open spec fn view(&self) -> Seq<(Seq<char>, JsonValue)> {
        keep_keys(self.members@)
    }
}

impl JsonRow {
    /// Makes the row of one record.
    pub fn normalize(json: JsonValue, case_sensitive: bool) -> (row: JsonRow)
        ensures
            row@ == row_of(json, case_sensitive),
    {
        match json {
            JsonValue::Object(members) => {
                if case_sensitive {
                    JsonRow { members }
                } else {
                    let ghost old_members = members@;
                    let mut folded: Vec<(String, JsonValue)> = Vec::new();
                    for member in it: members
                        invariant
                            it.seq() == old_members,
                            folded@.len() == it.index(),
                            forall|i: int|
                                0 <= i < it.index() ==> (#[trigger] folded@[i]).0@ == lowercase(
                                    old_members[i].0@,
                                ) && folded@[i].1 == old_members[i].1,
                    {
                        let (key, value) = member;
                        folded.push((to_lowercase(key.as_str()), value));
                    }
                    JsonRow { members: folded }
                }
            },
            _ => JsonRow { members: Vec::new() },
        }
    }

    /// Looks a field up by its key: the value of the last member with this
    /// key, or nothing where no member has it.
    pub fn get(&self, key: &str) -> (found: Option<&JsonValue>)
        ensures
            found is Some <==> has_key(self@, key@),
            lookup(self@, key@) == match found {
                Some(value) => *value,
                None => JsonValue::Null,
            },
    {
        let wanted = key.to_owned();
        let mut i: usize = self.members.len();
        assert(self@.take(i as int) =~= self@);
        while i > 0
            invariant
                i <= self.members.len(),
                wanted@ == key@,
                lookup(self@, key@) == lookup(self@.take(i as int), key@),
                forall|k: int| i <= k < self.members.len() ==> (#[trigger] self@[k]).0 != key@,
            decreases i,
        {
            i = i - 1;
            assert(self@.take(i + 1).drop_last() =~= self@.take(i as int));
            if self.members[i].0 == wanted {
                return Some(&self.members[i].1);
            }
        }
        None
    }
}

} // verus!
