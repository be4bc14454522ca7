//! Calls: how one call of a reader ends, from the lines before it and the
//! rows counted so far, and what holds of every call.

use crate::block::DataBlock;
use crate::column::Scalar;
use crate::error::{ErrorCode, ErrorKind};
use crate::format::FormatSettings;
use crate::json::JsonValue;
use crate::record::{decode_line, refusal_message, with_row, LineOutcome, RecordOutcome};
use crate::schema::FieldSpec;
use crate::text::is_blank;
use vstd::prelude::*;

verus! {

/// What a reader works under, as contracts speak of it.
pub struct Config {
    /// The fields of the rows.
    pub schema: Seq<FieldSpec>,
    /// The greatest number of rows in one block.
    pub block_size: nat,
    /// The greatest number of rows in all.
    pub size_limit: nat,
    /// The format that every column builder is handed with each value.
    pub format: FormatSettings,
    /// Whether the keys of a record are matched as they are written.
    pub case_sensitive: bool,
}

/// How one call ends.
pub enum ReadOutcome {
    /// There is nothing to give: the reader has given all the rows that it
    /// may, or the input ended before any row.
    Exhausted,
    /// A block of `rows` rows, with these values column by column.
    Block { columns: Seq<Seq<Scalar>>, rows: nat },
    /// A line that is not blank is not a JSON value.
    Malformed,
    /// A column does not take the value that a line holds for it. `row` is
    /// the number of rows that the reader had counted before the line.
    Refused { row: nat, column: int, value: JsonValue },
}

/// One call from its end: how it ends, how many lines of the input are used
/// up by then, and how many rows the reader has counted.
pub struct ReadEnd {
    pub outcome: ReadOutcome,
    pub position: nat,
    pub total: nat,
}

/// The columns of a block under `schema` that holds no row.
pub open spec fn no_rows(schema: Seq<FieldSpec>) -> Seq<Seq<Scalar>> {
    Seq::new(schema.len(), |j: int| Seq::<Scalar>::empty())
}

/// The rest of a call that stands before line `position` with `total` rows
/// counted by the reader, `rows` of them in the block of this call, whose
/// columns hold `columns`.
pub open spec fn scan(
    config: Config,
    lines: Seq<Seq<char>>,
    position: nat,
    total: nat,
    columns: Seq<Seq<Scalar>>,
    rows: nat,
) -> ReadEnd
    decreases lines.len() - position,
{
    if position >= lines.len() {
        ReadEnd {
            outcome: if rows == 0 {
                ReadOutcome::Exhausted
            } else {
                ReadOutcome::Block { columns, rows }
            },
            position,
            total,
        }
    } else {
        match decode_line(config.schema, config.case_sensitive, lines[position as int]) {
            LineOutcome::Blank => scan(config, lines, position + 1, total, columns, rows),
            LineOutcome::Malformed => ReadEnd {
                outcome: ReadOutcome::Malformed,
                position: position + 1,
                total,
            },
            LineOutcome::Record(RecordOutcome::Refused { column, value }) => ReadEnd {
                outcome: ReadOutcome::Refused { row: total, column, value },
                position: position + 1,
                total,
            },
            LineOutcome::Record(RecordOutcome::Row(values)) => if total + 1 >= config.size_limit || rows + 1
                >= config.block_size {
                ReadEnd {
                    outcome: ReadOutcome::Block {
                        columns: with_row(columns, values),
                        rows: rows + 1,
                    },
                    position: position + 1,
                    total: total + 1,
                }
            } else {
                scan(config, lines, position + 1, total + 1, with_row(columns, values), rows + 1)
            },
        }
    }
}

/// One call of a reader that stands before line `position` and has counted
/// `total` rows.
pub open spec fn read_end(config: Config, lines: Seq<Seq<char>>, position: nat, total: nat) -> ReadEnd {
    if total >= config.size_limit {
        ReadEnd { outcome: ReadOutcome::Exhausted, position, total }
    } else {
        scan(config, lines, position, total, no_rows(config.schema), 0)
    }
}

/// Whether what a call returned is what `outcome` says.
pub open spec fn returned(
    r: Result<Option<DataBlock>, ErrorCode>,
    outcome: ReadOutcome,
    schema: Seq<FieldSpec>,
) -> bool {
    match outcome {
        ReadOutcome::Exhausted => r matches Ok(None),
        ReadOutcome::Block { columns, rows } => {
            &&& r matches Ok(Some(block))
            &&& block@ == columns
            &&& block.rows_spec() == rows
            &&& block.schema_spec() == schema
        },
        ReadOutcome::Malformed => r matches Err(e) && e.kind == ErrorKind::MalformedRecord,
        ReadOutcome::Refused { row, column, value } => {
            &&& r matches Err(e)
            &&& e.kind == ErrorKind::FieldCoercion
            &&& e.message@ == refusal_message(row, schema[column], value)
        },
    }
}

/// Whether every one of `columns` holds `rows` values, one column for each
/// field of `schema`.
pub open spec fn even_columns(schema: Seq<FieldSpec>, columns: Seq<Seq<Scalar>>, rows: nat) -> bool {
    &&& columns.len() == schema.len()
    &&& forall|j: int| 0 <= j < columns.len() ==> (#[trigger] columns[j]).len() == rows
}

/// A call that goes on from a block of fewer rows than one block may hold
/// ends with a block only if the block holds at least one row and at most as
/// many as one block may, and in every column one value for each row. The
/// rows of that block are those that it held before and those that the
/// reader has counted since. The reader never counts beyond its limit.
proof fn lemma_scan_within_limits(
    config: Config,
    lines: Seq<Seq<char>>,
    position: nat,
    total: nat,
    columns: Seq<Seq<Scalar>>,
    rows: nat,
)
    requires
        even_columns(config.schema, columns, rows),
        rows < config.block_size,
        total < config.size_limit,
    ensures
        ({
            let end = scan(config, lines, position, total, columns, rows);
            &&& total <= end.total <= config.size_limit
            &&& position <= end.position
            &&& position <= lines.len() ==> end.position <= lines.len()
            &&& end.outcome matches ReadOutcome::Block { columns: held, rows: count } ==> {
                &&& 1 <= count <= config.block_size
                &&& count == rows + (end.total - total)
                &&& even_columns(config.schema, held, count)
            }
        }),
    decreases lines.len() - position,
{
    if position < lines.len() {
        match decode_line(config.schema, config.case_sensitive, lines[position as int]) {
            LineOutcome::Blank => {
                lemma_scan_within_limits(config, lines, position + 1, total, columns, rows);
            },
            LineOutcome::Record(RecordOutcome::Row(values)) => {
                if !(total + 1 >= config.size_limit || rows + 1 >= config.block_size) {
                    lemma_scan_within_limits(
                        config,
                        lines,
                        position + 1,
                        total + 1,
                        with_row(columns, values),
                        rows + 1,
                    );
                }
            },
            _ => {},
        }
    }
}

/// Every block that a call gives holds at least one row and at most as many
/// as one block may, and each of its columns holds one value for each row. A
/// call never makes the reader count beyond its limit, and the rows of the
/// block that it gives are the rows that the reader has counted in it.
pub proof fn lemma_block_within_limits(
    config: Config,
    lines: Seq<Seq<char>>,
    position: nat,
    total: nat,
)
    requires
        config.block_size > 0,
    ensures
        ({
            let end = read_end(config, lines, position, total);
            &&& total <= end.total
            &&& total <= config.size_limit ==> end.total <= config.size_limit
            &&& position <= end.position
            &&& position <= lines.len() ==> end.position <= lines.len()
            &&& end.outcome matches ReadOutcome::Block { columns, rows } ==> {
                &&& 1 <= rows <= config.block_size
                &&& rows == end.total - total
                &&& even_columns(config.schema, columns, rows)
            }
        }),
{
    if total < config.size_limit {
        lemma_scan_within_limits(config, lines, position, total, no_rows(config.schema), 0);
    }
}

/// A reader that has counted as many rows as it may gives no block, whatever
/// is left of the input.
pub proof fn lemma_no_block_beyond_limit(
    config: Config,
    lines: Seq<Seq<char>>,
    position: nat,
    total: nat,
)
    requires
        total >= config.size_limit,
    ensures
        read_end(config, lines, position, total) == (ReadEnd {
            outcome: ReadOutcome::Exhausted,
            position,
            total,
        }),
{
}

/// The number of rows in the blocks that up to `calls` calls give one after
/// another, from a reader before line `position` with `total` rows counted.
/// The calls stop at the first that gives no block.
pub open spec fn emitted(
    config: Config,
    lines: Seq<Seq<char>>,
    position: nat,
    total: nat,
    calls: nat,
) -> nat
    decreases calls,
{
    if calls == 0 {
        0
    } else {
        let end = read_end(config, lines, position, total);
        match end.outcome {
            ReadOutcome::Block { columns, rows } => rows + emitted(
                config,
                lines,
                end.position,
                end.total,
                (calls - 1) as nat,
            ),
            _ => 0,
        }
    }
}

/// However many calls are made, the rows of all their blocks, together with
/// the rows that the reader had counted before, are no more than the reader's
/// limit. A reader at or beyond its limit gives no row at all.
pub proof fn lemma_emitted_within_limit(
    config: Config,
    lines: Seq<Seq<char>>,
    position: nat,
    total: nat,
    calls: nat,
)
    requires
        config.block_size > 0,
    ensures
        total < config.size_limit ==> total + emitted(config, lines, position, total, calls)
            <= config.size_limit,
        total >= config.size_limit ==> emitted(config, lines, position, total, calls) == 0,
    decreases calls,
{
    if calls > 0 && total < config.size_limit {
        let end = read_end(config, lines, position, total);
        lemma_block_within_limits(config, lines, position, total);
        if end.outcome is Block {
            lemma_emitted_within_limit(config, lines, end.position, end.total, (calls - 1) as nat);
        }
    }
}

/// From line `from` on, `later` holds the lines of `lines` one place earlier.
spec fn shifted(lines: Seq<Seq<char>>, later: Seq<Seq<char>>, from: nat) -> bool {
    &&& later.len() + 1 == lines.len()
    &&& forall|k: int| from <= k < later.len() ==> #[trigger] later[k] == lines[k + 1]
}

proof fn lemma_scan_shifted(
    config: Config,
    lines: Seq<Seq<char>>,
    later: Seq<Seq<char>>,
    position: nat,
    total: nat,
    columns: Seq<Seq<Scalar>>,
    rows: nat,
)
    requires
        shifted(lines, later, position),
    ensures
        ({
            let end = scan(config, lines, position + 1, total, columns, rows);
            let other = scan(config, later, position, total, columns, rows);
            &&& other.outcome == end.outcome
            &&& other.total == end.total
            &&& other.position + 1 == end.position
        }),
    decreases later.len() - position,
{
    if position < later.len() {
        match decode_line(config.schema, config.case_sensitive, later[position as int]) {
            LineOutcome::Blank => {
                lemma_scan_shifted(config, lines, later, position + 1, total, columns, rows);
            },
            LineOutcome::Record(RecordOutcome::Row(values)) => {
                if !(total + 1 >= config.size_limit || rows + 1 >= config.block_size) {
                    lemma_scan_shifted(
                        config,
                        lines,
                        later,
                        position + 1,
                        total + 1,
                        with_row(columns, values),
                        rows + 1,
                    );
                }
            },
            _ => {},
        }
    }
}

/// A call uses up lines, it gives none back.
proof fn lemma_scan_moves_on(
    config: Config,
    lines: Seq<Seq<char>>,
    position: nat,
    total: nat,
    columns: Seq<Seq<Scalar>>,
    rows: nat,
)
    ensures
        position <= scan(config, lines, position, total, columns, rows).position,
    decreases lines.len() - position,
{
    if position < lines.len() {
        match decode_line(config.schema, config.case_sensitive, lines[position as int]) {
            LineOutcome::Blank => {
                lemma_scan_moves_on(config, lines, position + 1, total, columns, rows);
            },
            LineOutcome::Record(RecordOutcome::Row(values)) => {
                if !(total + 1 >= config.size_limit || rows + 1 >= config.block_size) {
                    lemma_scan_moves_on(
                        config,
                        lines,
                        position + 1,
                        total + 1,
                        with_row(columns, values),
                        rows + 1,
                    );
                }
            },
            _ => {},
        }
    }
}

/// Without one of its blank lines, the rest of a call ends in the same way.
proof fn lemma_scan_without_blank(
    config: Config,
    lines: Seq<Seq<char>>,
    blank: int,
    position: nat,
    total: nat,
    columns: Seq<Seq<Scalar>>,
    rows: nat,
)
    requires
        position <= blank < lines.len(),
        is_blank(lines[blank]),
    ensures
        ({
            let end = scan(config, lines, position, total, columns, rows);
            let other = scan(config, lines.remove(blank), position, total, columns, rows);
            &&& other.outcome == end.outcome
            &&& other.total == end.total
            &&& other.position == if end.position > blank {
                end.position - 1
            } else {
                end.position as int
            }
        }),
    decreases blank - position,
{
    let later = lines.remove(blank);
    if position == blank {
        lemma_scan_shifted(config, lines, later, position, total, columns, rows);
        lemma_scan_moves_on(config, lines, position + 1, total, columns, rows);
    } else {
        match decode_line(config.schema, config.case_sensitive, lines[position as int]) {
            LineOutcome::Blank => {
                lemma_scan_without_blank(
                    config,
                    lines,
                    blank,
                    position + 1,
                    total,
                    columns,
                    rows,
                );
            },
            LineOutcome::Record(RecordOutcome::Row(values)) => {
                if !(total + 1 >= config.size_limit || rows + 1 >= config.block_size) {
                    lemma_scan_without_blank(
                        config,
                        lines,
                        blank,
                        position + 1,
                        total + 1,
                        with_row(columns, values),
                        rows + 1,
                    );
                }
            },
            _ => {},
        }
    }
}

/// A blank line changes nothing but the count of the lines: without it, a
/// call ends in the same way, with the same block or the same error, and the
/// reader has counted the same rows. So a blank line is no row of any block,
/// and no error comes of it.
pub proof fn lemma_blank_line_changes_nothing(
    config: Config,
    lines: Seq<Seq<char>>,
    blank: int,
    position: nat,
    total: nat,
)
    requires
        position <= blank < lines.len(),
        is_blank(lines[blank]),
    ensures
        ({
            let end = read_end(config, lines, position, total);
            let other = read_end(config, lines.remove(blank), position, total);
            &&& other.outcome == end.outcome
            &&& other.total == end.total
            &&& other.position == if end.position > blank {
                end.position - 1
            } else {
                end.position as int
            }
        }),
{
    if total < config.size_limit {
        lemma_scan_without_blank(
            config,
            lines,
            blank,
            position,
            total,
            no_rows(config.schema),
            0,
        );
    }
}

} // verus!
