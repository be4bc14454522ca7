//! The reader of newline-delimited JSON: it takes lines of text and gives
//! blocks of rows, under a schema and within two limits.

use crate::block::DataBlock;
use crate::call::{even_columns, lemma_block_within_limits, no_rows, read_end, returned, scan, Config};
use crate::column::{Column, Scalar, TypeDeserializer};
use crate::cursor::LineCursor;
use crate::error::{ErrorCode, ErrorKind};
use crate::format::FormatSettings;
use crate::json::{parse_json, row_of, JsonRow, JsonValue};
use crate::record::{
    decode_line, decode_record, field_taken, first_refused, read_failure_message, refusal_message,
    row_values, with_row, LineOutcome, RecordOutcome, VALUE_LIMIT,
};
use crate::schema::{share, DataSchemaRef, FieldSpec};
use crate::text::{decimal_text, maybe_truncated, text_is_blank, to_lowercase};
use std::borrow::Cow;
use vstd::prelude::*;
use vstd::string::StringExecFns;

verus! {

/// The settings from which readers are built: the schema, the greatest number
/// of rows in one block, the greatest number of rows that a reader gives in
/// all, and the format.
#[derive(Debug)]
pub struct NDJsonSourceBuilder {
    schema: DataSchemaRef,
    block_size: usize,
    size_limit: usize,
    format: FormatSettings,
}

impl View for NDJsonSourceBuilder {
    type V = Config;

    closed spec fn view(&self) -> Config {
        Config {
            schema: self.schema@,
            block_size: self.block_size as nat,
            size_limit: self.size_limit as nat,
            format: self.format,
            case_sensitive: self.format.ident_case_sensitive,
        }
    }
}

impl Clone for NDJsonSourceBuilder {
    fn clone(&self) -> (b: NDJsonSourceBuilder)
        ensures
            b@ == self@,
    {
        proof {
            use_type_invariant(self);
        }
        NDJsonSourceBuilder {
            schema: share(&self.schema),
            block_size: self.block_size,
            size_limit: self.size_limit,
            format: self.format,
        }
    }
}

impl NDJsonSourceBuilder {
    #[verifier::type_invariant]
    spec fn positive_block_size(&self) -> bool {
        self.block_size > 0
    }

    /// Settings with blocks of 10000 rows and no limit on the rows in all.
    pub fn create(schema: DataSchemaRef, format: FormatSettings) -> (b: NDJsonSourceBuilder)
        ensures
            b@ == (Config {
                schema: schema@,
                block_size: 10000,
                size_limit: usize::MAX as nat,
                format,
                case_sensitive: format.ident_case_sensitive,
            }),
    {
        NDJsonSourceBuilder { schema, block_size: 10000, size_limit: usize::MAX, format }
    }

    /// Sets the greatest number of rows in one block. A block holds at least
    /// one row: zero is refused, and the settings stay as they were.
    pub fn block_size(&mut self, block_size: usize) -> (r: Result<
        &mut NDJsonSourceBuilder,
        ErrorCode,
    >)
        ensures
            r is Err <==> block_size == 0,
            r matches Err(e) ==> {
                &&& e.kind == ErrorKind::BadArguments
                &&& e.message@ == "block size must be positive"@
                &&& final(self)@ == old(self)@
            },
            r matches Ok(b) ==> {
                &&& b@ == (Config { block_size: block_size as nat, ..old(self)@ })
                &&& *final(self) == *final(b)
            },
    {
        if block_size == 0 {
            return Err(
                ErrorCode::new(ErrorKind::BadArguments, "block size must be positive".to_owned()),
            );
        }
        self.block_size = block_size;
        Ok(self)
    }

    /// Sets the greatest number of rows that a reader gives in all.
    pub fn size_limit(&mut self, size_limit: usize) -> (b: &mut NDJsonSourceBuilder)
        ensures
            b@ == (Config { size_limit: size_limit as nat, ..old(self)@ }),
            *final(self) == *final(b),
    {
        proof {
            use_type_invariant(&*self);
        }
        self.size_limit = size_limit;
        self
    }
}

/// The block that one call is filling: the builders of its columns and the
/// number of rows that they have taken.
#[derive(Debug)]
pub struct PendingBlock {
    packs: Vec<TypeDeserializer>,
    rows: usize,
}

impl View for PendingBlock {
    type V = Seq<Seq<Scalar>>;

    /// The values taken so far, column by column.
    closed spec fn view(&self) -> Seq<Seq<Scalar>> {
        Seq::new(self.packs@.len(), |j: int| self.packs@[j]@)
    }
}

impl PendingBlock {
    #[verifier::type_invariant]
    spec fn even(&self) -> bool {
        forall|j: int|
            0 <= j < self.packs@.len() ==> (#[trigger] self.packs@[j]).wf() && self.packs@[j]@.len()
                == self.rows
    }

    /// The number of rows taken so far.
    pub closed spec fn rows_spec(&self) -> nat {
        self.rows as nat
    }

    /// Whether the block has one builder for each field of `schema`, of the
    /// field's type.
    pub closed spec fn built_for(&self, schema: Seq<FieldSpec>) -> bool {
        &&& self.packs@.len() == schema.len()
        &&& forall|j: int|
            0 <= j < schema.len() ==> (#[trigger] self.packs@[j]).type_spec() == schema[j].data_type
                && self.packs@[j].nullable_spec() == schema[j].nullable
    }

    pub fn num_rows(&self) -> (n: usize)
        ensures
            n == self.rows_spec(),
    {
        self.rows
    }

    /// Every column of a pending block holds one value for each of its rows.
    pub fn num_columns(&self) -> (n: usize)
        ensures
            n == self@.len(),
            forall|j: int| 0 <= j < self@.len() ==> (#[trigger] self@[j]).len() == self.rows_spec(),
    {
        proof {
            use_type_invariant(self);
        }
        self.packs.len()
    }
}

/// Where a call stands after one more line.
#[derive(Debug)]
pub enum Step {
    /// The block takes more rows: the next line is wanted.
    More(PendingBlock),
    /// The block is complete.
    Done(DataBlock),
}

/// A reader of newline-delimited JSON over the input `R`. Each call gives the
/// next block of rows; the reader counts the rows of all its calls.
#[derive(Debug)]
pub struct NDJsonSource<R> {
    builder: NDJsonSourceBuilder,
    reader: R,
    rows: usize,
    ident_case_sensitive: bool,
}

impl<R> NDJsonSource<R> {
    /// What the reader works under: the settings that it was built with, and
    /// the way of matching keys that it took from their format when it was
    /// built.
    pub closed spec fn config(&self) -> Config {
        Config { case_sensitive: self.ident_case_sensitive, ..self.builder@ }
    }

    /// The rows that the reader has counted so far.
    pub closed spec fn rows_spec(&self) -> nat {
        self.rows as nat
    }

    /// The input that the reader draws on.
    pub closed spec fn reader_spec(&self) -> R {
        self.reader
    }

    /// Whether `pending` is a block that this reader can put one more row in:
    /// it fits the reader's schema, and neither limit is reached.
    pub open spec fn admits(&self, pending: PendingBlock) -> bool {
        &&& pending.built_for(self.config().schema)
        &&& self.rows_spec() < self.config().size_limit
        &&& pending.rows_spec() < self.config().block_size
    }

    fn try_create(builder: NDJsonSourceBuilder, reader: R, ident_case_sensitive: bool) -> (r: Result<
        NDJsonSource<R>,
        ErrorCode,
    >)
        ensures
            r matches Ok(source) && source.config() == (Config {
                case_sensitive: ident_case_sensitive,
                ..builder@
            }) && source.rows_spec() == 0 && source.reader_spec() == reader,
    {
        Ok(NDJsonSource { builder, reader, rows: 0, ident_case_sensitive })
    }

    /// The rows counted so far.
    pub fn rows(&self) -> (n: usize)
        ensures
            n == self.rows_spec(),
    {
        self.rows
    }

    /// The schema of the blocks that the reader gives.
    pub fn schema(&self) -> (schema: DataSchemaRef)
        ensures
            schema@ == self.config().schema,
    {
        share(&self.builder.schema)
    }

    /// The greatest number of rows in one block. It is never zero.
    pub fn block_size(&self) -> (n: usize)
        ensures
            n == self.config().block_size,
            n > 0,
    {
        proof {
            use_type_invariant(&self.builder);
        }
        self.builder.block_size
    }

    /// The greatest number of rows that the reader gives in all.
    pub fn size_limit(&self) -> (n: usize)
        ensures
            n == self.config().size_limit,
    {
        self.builder.size_limit
    }

    /// Whether keys are matched as they are written.
    pub fn ident_case_sensitive(&self) -> (b: bool)
        ensures
            b == self.config().case_sensitive,
    {
        self.ident_case_sensitive
    }

    /// The format that the column builders are handed.
    pub fn format(&self) -> (format: FormatSettings)
        ensures
            format == self.config().format,
    {
        self.builder.format
    }

    /// The input, for the caller to read the next line from.
    pub fn reader_mut(&mut self) -> (reader: &mut R)
        ensures
            *reader == old(self).reader_spec(),
            final(self).reader_spec() == *final(reader),
            final(self).config() == old(self).config(),
            final(self).rows_spec() == old(self).rows_spec(),
    {
        &mut self.reader
    }
}

/// Finishes the builders of a block into the block.
fn finish_block(schema: DataSchemaRef, packs: Vec<TypeDeserializer>, rows: usize) -> (block:
    DataBlock)
    requires
        packs@.len() == schema@.len(),
        forall|j: int|
            0 <= j < packs@.len() ==> {
                &&& (#[trigger] packs@[j]).wf()
                &&& packs@[j]@.len() == rows
                &&& packs@[j].type_spec() == schema@[j].data_type
                &&& packs@[j].nullable_spec() == schema@[j].nullable
            },
    ensures
        block@ == Seq::new(packs@.len(), |j: int| packs@[j]@),
        block.rows_spec() == rows,
        block.schema_spec() == schema@,
{
    let ghost builders = packs@;
    let mut columns: Vec<Column> = Vec::new();
    for pack in it: packs
        invariant
            it.seq() == builders,
            columns@.len() == it.index(),
            builders.len() == schema@.len(),
            forall|j: int|
                0 <= j < builders.len() ==> {
                    &&& (#[trigger] builders[j]).wf()
                    &&& builders[j]@.len() == rows
                    &&& builders[j].type_spec() == schema@[j].data_type
                    &&& builders[j].nullable_spec() == schema@[j].nullable
                },
            forall|j: int|
                0 <= j < it.index() ==> {
                    &&& (#[trigger] columns@[j])@ == builders[j]@
                    &&& columns@[j].type_spec() == schema@[j].data_type
                    &&& columns@[j].nullable_spec() == schema@[j].nullable
                },
    {
        columns.push(pack.finish_to_column());
    }
    DataBlock::create(schema, columns, rows)
}

impl<R> NDJsonSource<R> {
    /// Starts one call: a block to fill, or nothing where the reader has
    /// given all the rows that it may.
    pub fn begin(&self) -> (pending: Option<PendingBlock>)
        ensures
            pending is Some <==> self.rows_spec() < self.config().size_limit,
            pending matches Some(block) ==> {
                &&& self.admits(block)
                &&& block.rows_spec() == 0
                &&& block@ == no_rows(self.config().schema)
            },
    {
        proof {
            use_type_invariant(&self.builder);
        }
        if self.rows >= self.builder.size_limit {
            return None;
        }
        let fields = &self.builder.schema.fields;
        let mut packs: Vec<TypeDeserializer> = Vec::new();
        let mut j: usize = 0;
        while j < fields.len()
            invariant
                j <= fields.len(),
                packs@.len() == j,
                *fields == self.builder.schema.fields,
                forall|k: int|
                    0 <= k < j ==> {
                        &&& (#[trigger] packs@[k]).wf()
                        &&& packs@[k]@ == Seq::<Scalar>::empty()
                        &&& packs@[k].type_spec() == fields@[k].data_type
                        &&& packs@[k].nullable_spec() == fields@[k].nullable
                    },
            decreases fields.len() - j,
        {
            packs.push(
                TypeDeserializer::create(
                    fields[j].data_type,
                    fields[j].nullable,
                    self.builder.block_size,
                ),
            );
            j += 1;
        }
        let block = PendingBlock { packs, rows: 0 };
        Some(block)
    }

    /// Tests whether this reader can put one more row in `pending`.
    pub fn can_accept(&self, pending: &PendingBlock) -> (b: bool)
        ensures
            b == self.admits(*pending),
    {
        let fields = &self.builder.schema.fields;
        if self.rows >= self.builder.size_limit || pending.rows >= self.builder.block_size
            || pending.packs.len() != fields.len() {
            return false;
        }
        let mut j: usize = 0;
        while j < fields.len()
            invariant
                j <= fields.len(),
                *fields == self.builder.schema.fields,
                pending.packs@.len() == fields.len(),
                forall|k: int|
                    0 <= k < j ==> (#[trigger] pending.packs@[k]).type_spec()
                        == fields@[k].data_type && pending.packs@[k].nullable_spec()
                        == fields@[k].nullable,
            decreases fields.len() - j,
        {
            if pending.packs[j].data_type() != fields[j].data_type || pending.packs[j].is_nullable()
                != fields[j].nullable {
                return false;
            }
            j += 1;
        }
        true
    }

    /// Whether the result `r` and the reader `after` are what comes of a
    /// record with this outcome that the reader takes into `pending`. A
    /// refused record gives the error that names its row, counted from the
    /// reader's first row on, its column and its value, and is not counted. A
    /// row is counted, and gives the finished block as soon as either limit
    /// is reached, else the block with the row in it.
    pub open spec fn record_taken(
        &self,
        after: NDJsonSource<R>,
        pending: PendingBlock,
        outcome: RecordOutcome,
        r: Result<Step, ErrorCode>,
    ) -> bool {
        match outcome {
            RecordOutcome::Refused { column, value } => {
                &&& r matches Err(e)
                &&& e.kind == ErrorKind::FieldCoercion
                &&& e.message@ == refusal_message(
                    self.rows_spec(),
                    self.config().schema[column],
                    value,
                )
                &&& after.rows_spec() == self.rows_spec()
            },
            RecordOutcome::Row(values) => {
                &&& after.rows_spec() == self.rows_spec() + 1
                &&& if self.rows_spec() + 1 >= self.config().size_limit || pending.rows_spec() + 1
                    >= self.config().block_size {
                    &&& r matches Ok(Step::Done(block))
                    &&& block@ == with_row(pending@, values)
                    &&& block.rows_spec() == pending.rows_spec() + 1
                    &&& block.schema_spec() == self.config().schema
                } else {
                    &&& r matches Ok(Step::More(next))
                    &&& after.admits(next)
                    &&& next@ == with_row(pending@, values)
                    &&& next.rows_spec() == pending.rows_spec() + 1
                }
            },
        }
    }

    /// Takes one record into the block of the call. Each field of the schema,
    /// in order, is looked up in the record, under its name or, where case is
    /// not to count, under its name in lower case among the keys in lower
    /// case, and is handed to the builder of its column with the format. The
    /// row is counted, and the block is complete as soon as either limit is
    /// reached. A value that its column does not take ends the call with an
    /// error.
    pub fn accept_record(&mut self, pending: PendingBlock, json: JsonValue) -> (r: Result<
        Step,
        ErrorCode,
    >)
        requires
            old(self).admits(pending),
        ensures
            final(self).config() == old(self).config(),
            final(self).reader_spec() == old(self).reader_spec(),
            old(self).record_taken(
                *final(self),
                pending,
                decode_record(old(self).config().schema, old(self).config().case_sensitive, json),
                r,
            ),
    {
        let case_sensitive = self.ident_case_sensitive;
        let row = JsonRow::normalize(json, case_sensitive);
        proof {
            use_type_invariant(&pending);
        }
        let ghost before = pending@;
        let ghost schema = self.config().schema;
        let PendingBlock { packs, rows } = pending;
        let mut packs = packs;
        let fields = &self.builder.schema.fields;
        let null = JsonValue::Null;
        let mut j: usize = 0;
        while j < fields.len()
            invariant
                j <= fields.len(),
                *self == *old(self),
                row@ == row_of(json, case_sensitive),
                *fields == self.builder.schema.fields,
                schema == self.config().schema,
                schema.len() == fields.len(),
                case_sensitive == self.config().case_sensitive,
                null == JsonValue::Null,
                packs@.len() == fields.len(),
                before.len() == fields.len(),
                first_refused(schema, row@, case_sensitive, 0) == first_refused(
                    schema,
                    row@,
                    case_sensitive,
                    j as int,
                ),
                forall|k: int|
                    0 <= k < packs@.len() ==> {
                        &&& (#[trigger] packs@[k]).wf()
                        &&& packs@[k].type_spec() == schema[k].data_type
                        &&& packs@[k].nullable_spec() == schema[k].nullable
                    },
                forall|k: int|
                    0 <= k < j ==> (#[trigger] packs@[k])@ == before[k].push(
                        field_taken(row@, schema[k], case_sensitive)->0,
                    ),
                forall|k: int| j <= k < packs@.len() ==> (#[trigger] packs@[k])@ == before[k],
            decreases fields.len() - j,
        {
            let field = &fields[j];
            let found = if case_sensitive {
                row.get(field.name.as_str())
            } else {
                row.get(to_lowercase(field.name.as_str()).as_str())
            };
            let value: &JsonValue = match found {
                Some(value) => value,
                None => &null,
            };
            match packs[j].de_json(value, &self.builder.format) {
                Ok(()) => {},
                Err(cause) => {
                    let shown = value.debug_string();
                    let mut message = "error at row ".to_owned();
                    message.append(decimal_text(self.rows).as_str());
                    message.append(" column ");
                    message.append(field.name.as_str());
                    message.append(": type=");
                    message.append(field.data_type.name());
                    message.append(", err=");
                    message.append(cause.message());
                    message.append(", value=");
                    match maybe_truncated(shown.as_str(), VALUE_LIMIT) {
                        Cow::Borrowed(whole) => message.append(whole),
                        Cow::Owned(cut) => message.append(cut.as_str()),
                    }
                    return Err(ErrorCode::new(ErrorKind::FieldCoercion, message));
                },
            }
            j += 1;
        }
        let rows = rows + 1;
        self.rows = self.rows + 1;
        let ghost values = row_values(schema, row@, case_sensitive);
        assert forall|k: int| 0 <= k < packs@.len() implies (#[trigger] packs@[k])@ == with_row(
            before,
            values,
        )[k] by {}
        if self.rows >= self.builder.size_limit || rows >= self.builder.block_size {
            let block = finish_block(share(&self.builder.schema), packs, rows);
            assert(block@ =~= with_row(before, values));
            Ok(Step::Done(block))
        } else {
            let next = PendingBlock { packs, rows };
            assert(next@ =~= with_row(before, values));
            Ok(Step::More(next))
        }
    }

    /// Takes one line of input into the block of the call. A blank line is
    /// passed over. Any other line is parsed, and the record that it holds is
    /// taken as `accept_record` takes it. A line that is no JSON value ends
    /// the call with an error.
    pub fn accept_line(&mut self, pending: PendingBlock, line: &str) -> (r: Result<Step, ErrorCode>)
        requires
            old(self).admits(pending),
        ensures
            final(self).config() == old(self).config(),
            final(self).reader_spec() == old(self).reader_spec(),
            match decode_line(old(self).config().schema, old(self).config().case_sensitive, line@) {
                LineOutcome::Blank => {
                    &&& r == Ok::<Step, ErrorCode>(Step::More(pending))
                    &&& final(self).rows_spec() == old(self).rows_spec()
                },
                LineOutcome::Malformed => {
                    &&& r matches Err(e)
                    &&& e.kind == ErrorKind::MalformedRecord
                    &&& final(self).rows_spec() == old(self).rows_spec()
                },
                LineOutcome::Record(outcome) => old(self).record_taken(
                    *final(self),
                    pending,
                    outcome,
                    r,
                ),
            },
    {
        if text_is_blank(line) {
            return Ok(Step::More(pending));
        }
        match parse_json(line) {
            Ok(json) => self.accept_record(pending, json),
            Err(e) => Err(e),
        }
    }

    /// Ends one call at the end of the input: the block of the rows taken, or
    /// nothing where no row was taken.
    pub fn finish(&self, pending: PendingBlock) -> (block: Option<DataBlock>)
        requires
            pending.built_for(self.config().schema),
        ensures
            block is Some <==> pending.rows_spec() > 0,
            block matches Some(b) ==> {
                &&& b@ == pending@
                &&& b.rows_spec() == pending.rows_spec()
                &&& b.schema_spec() == self.config().schema
            },
    {
        proof {
            use_type_invariant(&pending);
        }
        if pending.rows == 0 {
            return None;
        }
        let PendingBlock { packs, rows } = pending;
        Some(finish_block(share(&self.builder.schema), packs, rows))
    }

    /// The error for a line that the input failed to give.
    pub fn read_failed(&self, cause: &str) -> (e: ErrorCode)
        ensures
            e.kind == ErrorKind::ReadFailure,
            e.message@ == read_failure_message(self.rows_spec(), cause@),
    {
        let mut message = "Parse NDJson error at line ".to_owned();
        message.append(decimal_text(self.rows).as_str());
        message.append(", cause: ");
        message.append(cause);
        ErrorCode::new(ErrorKind::ReadFailure, message)
    }
}

impl NDJsonSource<LineCursor> {
    /// Reads the next block from the lines of the cursor: the rows of the
    /// lines from the cursor on, blank lines passed over, until the block
    /// holds as many rows as one block may, the reader has given as many
    /// rows as it may in all, or the lines end. It returns nothing where
    /// there is no row to give, and the error of the first line that is no
    /// record of the schema. The cursor never lies behind the end of its
    /// lines, before the call or after it.
    pub fn read(&mut self) -> (r: Result<Option<DataBlock>, ErrorCode>)
        ensures
            final(self).config() == old(self).config(),
            final(self).reader_spec().lines() == old(self).reader_spec().lines(),
            ({
                let end = read_end(
                    old(self).config(),
                    old(self).reader_spec().lines(),
                    old(self).reader_spec().position(),
                    old(self).rows_spec(),
                );
                &&& returned(r, end.outcome, old(self).config().schema)
                &&& final(self).reader_spec().position() == end.position
                &&& final(self).rows_spec() == end.total
            }),
            r matches Ok(Some(block)) ==> {
                &&& 1 <= block.rows_spec() <= old(self).config().block_size
                &&& block.rows_spec() == final(self).rows_spec() - old(self).rows_spec()
                &&& even_columns(old(self).config().schema, block@, block.rows_spec())
            },
            old(self).rows_spec() <= final(self).rows_spec(),
            old(self).rows_spec() <= old(self).config().size_limit ==> final(self).rows_spec()
                <= old(self).config().size_limit,
            old(self).rows_spec() >= old(self).config().size_limit ==> r matches Ok(None),
            old(self).reader_spec().position() <= final(self).reader_spec().position()
                <= old(self).reader_spec().lines().len(),
    {
        let ghost config = self.config();
        let _ = self.reader.consumed();
        proof {
            use_type_invariant(&self.builder);
        }
        let ghost lines = self.reader.lines();
        let ghost start = self.reader.position();
        let ghost total = self.rows_spec();
        let mut pending = match self.begin() {
            Some(pending) => pending,
            None => {
                return Ok(None);
            },
        };
        loop
            invariant
                config == old(self).config(),
                lines == old(self).reader_spec().lines(),
                start == old(self).reader_spec().position(),
                total == old(self).rows_spec(),
                total < config.size_limit,
                config.block_size > 0,
                self.config() == config,
                self.reader.lines() == lines,
                start <= lines.len(),
                self.admits(pending),
                scan(config, lines, start, total, no_rows(config.schema), 0) == scan(
                    config,
                    lines,
                    self.reader.position(),
                    self.rows_spec(),
                    pending@,
                    pending.rows_spec(),
                ),
            decreases lines.len() - self.reader.position(),
        {
            proof {
                lemma_block_within_limits(config, lines, start, total);
            }
            let line = match self.reader.next_line() {
                Some(line) => line,
                None => {
                    return Ok(self.finish(pending));
                },
            };
            match self.accept_line(pending, line.as_str()) {
                Ok(Step::More(next)) => {
                    pending = next;
                },
                Ok(Step::Done(block)) => {
                    return Ok(Some(block));
                },
                Err(e) => {
                    return Err(e);
                },
            }
        }
    }
}

impl NDJsonSourceBuilder {
    /// Builds a reader over `reader` that has read no row yet. It works under
    /// a copy of these settings.
    pub fn build<R>(&self, reader: R) -> (r: Result<NDJsonSource<R>, ErrorCode>)
        ensures
            r matches Ok(source) && source.config() == self@ && source.rows_spec() == 0
                && source.reader_spec() == reader,
            self@.block_size > 0,
    {
        proof {
            use_type_invariant(self);
        }
        NDJsonSource::try_create(self.clone(), reader, self.format.ident_case_sensitive)
    }
}

} // verus!
