//! Blocks: the rows of one batch, held column by column.

use crate::column::{Column, Scalar};
use crate::schema::{share, DataSchemaRef, FieldSpec};
use vstd::prelude::*;

verus! {

/// Whether `columns` are the columns of a block of `rows` rows under `schema`:
/// one column for each field, of the field's type, and every column with one
/// value for each row.
pub open spec fn block_shape(schema: Seq<FieldSpec>, columns: Seq<Column>, rows: nat) -> bool {
    &&& columns.len() == schema.len()
    &&& forall|j: int|
        0 <= j < columns.len() ==> {
            &&& (#[trigger] columns[j])@.len() == rows
            &&& columns[j].type_spec() == schema[j].data_type
            &&& columns[j].nullable_spec() == schema[j].nullable
        }
}

/// One batch of rows in columns. It cannot be changed once it is made.
#[derive(Debug)]
pub struct DataBlock {
    schema: DataSchemaRef,
    columns: Vec<Column>,
    rows: usize,
}

impl View for DataBlock {
    type V = Seq<Seq<Scalar>>;

    /// The values of the block, column by column.
    closed spec fn view(&self) -> Seq<Seq<Scalar>> {
        Seq::new(self.columns@.len(), |j: int| self.columns@[j]@)
    }
}

impl DataBlock {
    #[verifier::type_invariant]
    spec fn well_shaped(&self) -> bool {
        block_shape(self.schema@, self.columns@, self.rows as nat)
    }

    /// The schema that the block was made under.
    pub closed spec fn schema_spec(&self) -> Seq<FieldSpec> {
        self.schema@
    }

    /// The number of rows.
    pub closed spec fn rows_spec(&self) -> nat {
        self.rows as nat
    }

    /// The columns themselves.
    pub closed spec fn columns_spec(&self) -> Seq<Column> {
        self.columns@
    }

    /// Makes a block of columns that have the shape that the schema asks for.
    pub fn create(schema: DataSchemaRef, columns: Vec<Column>, rows: usize) -> (block: DataBlock)
        requires
            block_shape(schema@, columns@, rows as nat),
        ensures
            block.schema_spec() == schema@,
            block.rows_spec() == rows,
            block.columns_spec() == columns@,
            block@ == Seq::new(columns@.len(), |j: int| columns@[j]@),
    {
        DataBlock { schema, columns, rows }
    }

    /// A block has one column for each field of its schema, and each column
    /// has one value for each row of the block.
    pub fn shape(&self) -> (shape: (usize, usize))
        ensures
            shape.0 == self.rows_spec(),
            shape.1 == self@.len(),
            self@.len() == self.schema_spec().len(),
            forall|j: int| 0 <= j < self@.len() ==> (#[trigger] self@[j]).len() == self.rows_spec(),
    {
        proof {
            use_type_invariant(self);
        }
        (self.rows, self.columns.len())
    }

    pub fn schema(&self) -> (s: DataSchemaRef)
        ensures
            s@ == self.schema_spec(),
    {
        share(&self.schema)
    }

    pub fn num_rows(&self) -> (n: usize)
        ensures
            n == self.rows_spec(),
    {
        self.rows
    }

    pub fn num_columns(&self) -> (n: usize)
        ensures
            n == self@.len(),
            n == self.schema_spec().len(),
    {
        proof {
            use_type_invariant(self);
        }
        self.columns.len()
    }

    /// Column `j`, which holds the values of field `j` of the schema.
    pub fn column(&self, j: usize) -> (c: &Column)
        requires
            j < self@.len(),
        ensures
            c@ == self@[j as int],
            c@.len() == self.rows_spec(),
            c.type_spec() == self.schema_spec()[j as int].data_type,
            c.nullable_spec() == self.schema_spec()[j as int].nullable,
    {
        proof {
            use_type_invariant(self);
        }
        &self.columns[j]
    }
}

} // verus!
