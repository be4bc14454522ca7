//! The shape of a table: its columns, in order, each with a name and a type.

use std::sync::Arc;
use vstd::prelude::*;

verus! {

/// The type of the values that a column holds.
#[derive(Clone, Copy, Debug, PartialEq, Eq, Structural)]
pub enum DataType {
    Boolean,
    Int64,
    String,
}

impl DataType {
    /// The name under which the type is shown.
    pub open spec fn name_spec(self) -> Seq<char> {
        match self {
            DataType::Boolean => "Boolean"@,
            DataType::Int64 => "Int64"@,
            DataType::String => "String"@,
        }
    }

    pub fn name(&self) -> (s: &'static str)
        ensures
            s@ == self.name_spec(),
    {
        match self {
            DataType::Boolean => "Boolean",
            DataType::Int64 => "Int64",
            DataType::String => "String",
        }
    }
}

/// A column of a schema as contracts speak of it.
pub struct FieldSpec {
    pub name: Seq<char>,
    pub data_type: DataType,
    pub nullable: bool,
}

/// One column of a schema.
#[derive(Debug, PartialEq, Eq)]
pub struct DataField {
    pub name: String,
    pub data_type: DataType,
    pub nullable: bool,
}

impl View for DataField {
    type V = FieldSpec;

    open spec fn view(&self) -> FieldSpec {
        FieldSpec { name: self.name@, data_type: self.data_type, nullable: self.nullable }
    }
}

impl DataField {
    pub fn new(name: &str, data_type: DataType, nullable: bool) -> (f: DataField)
        ensures
            f@ == (FieldSpec { name: name@, data_type, nullable }),
    {
        DataField { name: name.to_owned(), data_type, nullable }
    }

    pub fn name(&self) -> (s: &str)
        ensures
            s@ == self@.name,
    {
        self.name.as_str()
    }

    pub fn data_type(&self) -> (t: DataType)
        ensures
            t == self@.data_type,
    {
        self.data_type
    }

    pub fn is_nullable(&self) -> (b: bool)
        ensures
            b == self@.nullable,
    {
        self.nullable
    }
}

impl Clone for DataField {
    fn clone(&self) -> (f: DataField)
        ensures
            f@ == self@,
    {
        DataField { name: self.name.clone(), data_type: self.data_type, nullable: self.nullable }
    }
}

/// The columns of a table, in the order in which every block holds them.
#[derive(Debug, PartialEq, Eq)]
pub struct DataSchema {
    pub fields: Vec<DataField>,
}

impl View for DataSchema {
    type V = Seq<FieldSpec>;

    open spec fn view(&self) -> Seq<FieldSpec> {
        Seq::new(self.fields@.len(), |i: int| self.fields@[i]@)
    }
}

impl DataSchema {
    pub fn new(fields: Vec<DataField>) -> (s: DataSchema)
        ensures
            s.fields == fields,
    {
        DataSchema { fields }
    }

    pub fn fields(&self) -> (f: &Vec<DataField>)
        ensures
            *f == self.fields,
    {
        &self.fields
    }
}

/// A schema that its readers share.
pub type DataSchemaRef = Arc<DataSchema>;

/// `Arc::clone`: one more handle on the value that `a` points to. The handle
/// is claimed to point to that same value.
#[verifier::external_body]
pub(crate) fn share<T>(a: &Arc<T>) -> (r: Arc<T>)
    ensures
        r == *a,
{
    Arc::clone(a)
}

} // verus!
