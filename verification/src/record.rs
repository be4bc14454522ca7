//! Records: what one line of input comes to under a schema.

use crate::column::{coerce, refusal, Scalar};
use crate::json::{
    debug_text, fold_keys, json_parse, keep_keys, lemma_lookup_absent, lemma_lookup_last, lookup,
    row_of, JsonValue,
};
use crate::schema::FieldSpec;
use crate::text::{decimal, is_blank, lowercase, truncation};
use vstd::prelude::*;

verus! {

/// The key under which a field is looked up in a row.
pub open spec fn field_key(name: Seq<char>, case_sensitive: bool) -> Seq<char> {
    if case_sensitive {
        name
    } else {
        lowercase(name)
    }
}

/// The JSON value that a row holds for a field: null where it holds none.
pub open spec fn field_value(
    row: Seq<(Seq<char>, JsonValue)>,
    field: FieldSpec,
    case_sensitive: bool,
) -> JsonValue {
    lookup(row, field_key(field.name, case_sensitive))
}

/// What the column of a field stores for a row, if it takes the row's value.
pub open spec fn field_taken(
    row: Seq<(Seq<char>, JsonValue)>,
    field: FieldSpec,
    case_sensitive: bool,
) -> Option<Scalar> {
    coerce(field.data_type, field.nullable, field_value(row, field, case_sensitive))
}

/// The first field from `from` on whose column does not take the row's value;
/// the number of fields where every column takes its value.
pub open spec fn first_refused(
    schema: Seq<FieldSpec>,
    row: Seq<(Seq<char>, JsonValue)>,
    case_sensitive: bool,
    from: int,
) -> int
    decreases schema.len() - from,
{
    if from < 0 || from >= schema.len() {
        schema.len() as int
    } else if field_taken(row, schema[from], case_sensitive) is None {
        from
    } else {
        first_refused(schema, row, case_sensitive, from + 1)
    }
}

/// The values of one row, field by field.
pub open spec fn row_values(
    schema: Seq<FieldSpec>,
    row: Seq<(Seq<char>, JsonValue)>,
    case_sensitive: bool,
) -> Seq<Scalar> {
    Seq::new(schema.len(), |j: int| field_taken(row, schema[j], case_sensitive)->0)
}

/// Where keys are matched without regard to case, the value found for a field
/// depends on the keys of the record, and on the name of the field, by their
/// forms in lower case alone: two records that differ in the case of their
/// keys, and two names that differ in case, give the same value.
pub proof fn lemma_casing_is_ignored(
    first: Seq<(String, JsonValue)>,
    second: Seq<(String, JsonValue)>,
    field: FieldSpec,
    other: FieldSpec,
)
    requires
        first.len() == second.len(),
        forall|i: int|
            0 <= i < first.len() ==> lowercase((#[trigger] first[i]).0@) == lowercase(second[i].0@)
                && first[i].1 == second[i].1,
        lowercase(field.name) == lowercase(other.name),
    ensures
        field_value(fold_keys(first), field, false) == field_value(fold_keys(second), other, false),
{
    assert(fold_keys(first) =~= fold_keys(second));
}

/// Where keys are matched without regard to case, a field is found under a
/// key that is its name in any casing: the value is that of the last member
/// whose key is the field's name once both are in lower case.
pub proof fn lemma_found_in_any_casing(members: Seq<(String, JsonValue)>, field: FieldSpec, at: int)
    requires
        0 <= at < members.len(),
        lowercase(members[at].0@) == lowercase(field.name),
        forall|i: int|
            at < i < members.len() ==> lowercase((#[trigger] members[i]).0@) != lowercase(
                field.name,
            ),
    ensures
        field_value(fold_keys(members), field, false) == members[at].1,
{
    lemma_lookup_last(fold_keys(members), lowercase(field.name), at);
}

/// Where keys are matched as they are written, a field is found under the
/// key that is its name, letter for letter.
pub proof fn lemma_found_by_exact_name(members: Seq<(String, JsonValue)>, field: FieldSpec, at: int)
    requires
        0 <= at < members.len(),
        members[at].0@ == field.name,
        forall|i: int| at < i < members.len() ==> (#[trigger] members[i]).0@ != field.name,
    ensures
        field_value(keep_keys(members), field, true) == members[at].1,
{
    lemma_lookup_last(keep_keys(members), field.name, at);
}

/// A field whose key no member of the record has is given as null, in either
/// way of matching. Where keys are matched as they are written, a key that
/// differs from the name in case alone is not the field's key.
pub proof fn lemma_missing_is_null(
    row: Seq<(Seq<char>, JsonValue)>,
    field: FieldSpec,
    case_sensitive: bool,
)
    requires
        forall|i: int|
            0 <= i < row.len() ==> (#[trigger] row[i]).0 != field_key(field.name, case_sensitive),
    ensures
        field_value(row, field, case_sensitive) == JsonValue::Null,
{
    lemma_lookup_absent(row, field_key(field.name, case_sensitive));
}

/// What one record comes to.
pub enum RecordOutcome {
    /// The column of field `column` does not take the value that the record
    /// holds for it, which is `value`. The columns of the fields before it
    /// take theirs.
    Refused { column: int, value: JsonValue },
    /// The record is a row with these values.
    Row(Seq<Scalar>),
}

/// What one line of input comes to.
pub enum LineOutcome {
    /// The line holds nothing but white space: it is passed over.
    Blank,
    /// The line is not a JSON value.
    Malformed,
    /// The line is a record.
    Record(RecordOutcome),
}

/// What a record comes to under a schema: its fields are looked up in the
/// order of the schema, and the first value that its column does not take
/// refuses the record.
pub open spec fn decode_record(schema: Seq<FieldSpec>, case_sensitive: bool, json: JsonValue) -> RecordOutcome {
    let row = row_of(json, case_sensitive);
    let column = first_refused(schema, row, case_sensitive, 0);
    if column < schema.len() {
        RecordOutcome::Refused { column, value: field_value(row, schema[column], case_sensitive) }
    } else {
        RecordOutcome::Row(row_values(schema, row, case_sensitive))
    }
}

/// What a line of input comes to under a schema.
pub open spec fn decode_line(schema: Seq<FieldSpec>, case_sensitive: bool, line: Seq<char>) -> LineOutcome {
    if is_blank(line) {
        LineOutcome::Blank
    } else {
        match json_parse(line) {
            None => LineOutcome::Malformed,
            Some(json) => LineOutcome::Record(decode_record(schema, case_sensitive, json)),
        }
    }
}

/// The greatest number of bytes of a refused value that a message shows.
pub const VALUE_LIMIT: usize = 1024;

/// The message for a value that a column does not take: the row, counted from
/// the reader's first row on, the column and its type, what the column says
/// of the value, and the value itself, cut short where it is long.
pub open spec fn refusal_message(row: nat, field: FieldSpec, value: JsonValue) -> Seq<char> {
    "error at row "@ + decimal(row) + " column "@ + field.name + ": type="@
        + field.data_type.name_spec() + ", err="@ + refusal(field.data_type) + ", value="@
        + truncation(debug_text(value), VALUE_LIMIT as nat)
}

/// The message for a line that could not be read: the number of rows read
/// before it, and what the reader said.
pub open spec fn read_failure_message(rows: nat, cause: Seq<char>) -> Seq<char> {
    "Parse NDJson error at line "@ + decimal(rows) + ", cause: "@ + cause
}

/// The columns of a block with one more row.
pub open spec fn with_row(columns: Seq<Seq<Scalar>>, values: Seq<Scalar>) -> Seq<Seq<Scalar>> {
    Seq::new(columns.len(), |j: int| columns[j].push(values[j]))
}

} // verus!
