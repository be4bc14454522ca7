//! Columns: the values of one type that a block holds, and the builders that
//! fill them from JSON values.

use crate::error::{ErrorCode, ErrorKind};
use crate::format::FormatSettings;
use crate::json::JsonValue;
use crate::schema::DataType;
use vstd::prelude::*;

verus! {

/// One value of a column.
#[derive(Debug, PartialEq, Eq)]
pub enum DataValue {
    Null,
    Boolean(bool),
    Int64(i64),
    String(String),
}

/// A value of a column as contracts speak of it.
pub enum Scalar {
    Null,
    Boolean(bool),
    Int64(int),
    Text(Seq<char>),
}

impl View for DataValue {
    type V = Scalar;

    open spec fn view(&self) -> Scalar {
        match self {
            DataValue::Null => Scalar::Null,
            DataValue::Boolean(b) => Scalar::Boolean(*b),
            DataValue::Int64(i) => Scalar::Int64(*i as int),
            DataValue::String(s) => Scalar::Text(s@),
        }
    }
}

impl Clone for DataValue {
    fn clone(&self) -> (v: DataValue)
        ensures
            v@ == self@,
    {
        match self {
            DataValue::Null => DataValue::Null,
            DataValue::Boolean(b) => DataValue::Boolean(*b),
            DataValue::Int64(i) => DataValue::Int64(*i),
            DataValue::String(s) => DataValue::String(s.clone()),
        }
    }
}

/// Whether a value may stand in a column of the given type.
pub open spec fn fits(value: Scalar, data_type: DataType, nullable: bool) -> bool {
    match value {
        Scalar::Null => nullable,
        Scalar::Boolean(_) => data_type == DataType::Boolean,
        Scalar::Int64(i) => data_type == DataType::Int64 && i64::MIN <= i <= i64::MAX,
        Scalar::Text(_) => data_type == DataType::String,
    }
}

/// Whether `c` is one of the ten decimal digits.
pub open spec fn is_digit(c: char) -> bool {
    48 <= c as u32 <= 57
}

/// The number that a row of decimal digits stands for.
pub open spec fn digits_value(s: Seq<char>) -> int
    decreases s.len(),
{
    if s.len() == 0 {
        0
    } else {
        digits_value(s.drop_last()) * 10 + (s.last() as u32 - 48)
    }
}

/// Whether `s` holds decimal digits and nothing else.
pub open spec fn all_digits(s: Seq<char>) -> bool {
    forall|i: int| 0 <= i < s.len() ==> is_digit(#[trigger] s[i])
}

/// The whole number that a text stands for: at least one decimal digit, with
/// a minus sign before them for a number below zero. A text of any other form
/// stands for none.
pub open spec fn parse_int(s: Seq<char>) -> Option<int> {
    if s.len() > 0 && s[0] == '-' {
        if s.len() > 1 && all_digits(s.skip(1)) {
            Some(-digits_value(s.skip(1)))
        } else {
            None
        }
    } else if s.len() > 0 && all_digits(s) {
        Some(digits_value(s))
    } else {
        None
    }
}

/// What a column of the given type stores for a JSON value, if it takes the
/// value at all. Null is taken by a nullable column of any type; a boolean, a
/// whole number within 64 bits and a string are taken by the column of their
/// own type.
pub open spec fn coerce(data_type: DataType, nullable: bool, json: JsonValue) -> Option<Scalar> {
    match json {
        JsonValue::Null => if nullable {
            Some(Scalar::Null)
        } else {
            None
        },
        JsonValue::Bool(b) => if data_type == DataType::Boolean {
            Some(Scalar::Boolean(b))
        } else {
            None
        },
        JsonValue::Number(n) => match parse_int(n@) {
            Some(i) => if data_type == DataType::Int64 && i64::MIN <= i <= i64::MAX {
                Some(Scalar::Int64(i))
            } else {
                None
            },
            None => None,
        },
        JsonValue::String(s) => if data_type == DataType::String {
            Some(Scalar::Text(s@))
        } else {
            None
        },
        _ => None,
    }
}

/// What a column of the given type says of a value that it does not take.
pub open spec fn refusal(data_type: DataType) -> Seq<char> {
    match data_type {
        DataType::Boolean => "Incorrect json value, must be boolean"@,
        DataType::Int64 => "Incorrect json value, must be a 64-bit integer"@,
        DataType::String => "Incorrect json value, must be string"@,
    }
}

/// The digits of a longer row stand for no less than the digits it starts
/// with.
proof fn lemma_digits_value_grows(s: Seq<char>, k: int)
    requires
        all_digits(s),
        0 <= k <= s.len(),
    ensures
        0 <= digits_value(s.take(k)) <= digits_value(s),
    decreases s.len() - k,
{
    if k == s.len() {
        assert(s.take(k) =~= s);
        lemma_digits_value_nonnegative(s);
    } else {
        lemma_digits_value_grows(s, k + 1);
        assert(s.take(k + 1).drop_last() =~= s.take(k));
        lemma_digits_value_nonnegative(s.take(k));
    }
}

proof fn lemma_digits_value_nonnegative(s: Seq<char>)
    requires
        all_digits(s),
    ensures
        0 <= digits_value(s),
    decreases s.len(),
{
    if s.len() > 0 {
        lemma_digits_value_nonnegative(s.drop_last());
    }
}

/// Reads a whole number of 64 bits from its decimal text.
pub fn parse_int_text(s: &str) -> (r: Option<i64>)
    ensures
        r == match parse_int(s@) {
            Some(i) => if i64::MIN <= i <= i64::MAX {
                Some(i as i64)
            } else {
                None
            },
            None => None::<i64>,
        },
{
    broadcast use vstd::string::group_string_axioms;

    let mut negative = false;
    let mut first = true;
    let mut any = false;
    let ghost mut digits: int = 0;
    let mut acc: u64 = 0;
    for c in it: s.chars()
        invariant
            it.seq() == s@,
            first == (it.index() == 0),
            negative ==> it.index() >= 1 && s@[0] == '-',
            !negative && it.index() >= 1 ==> s@[0] != '-',
            any == (digits > 0),
            0 <= digits <= it.index(),
            digits == it.index() - (if negative {
                1int
            } else {
                0int
            }),
            all_digits(s@.subrange(it.index() - digits, it.index() as int)),
            acc == digits_value(s@.subrange(it.index() - digits, it.index() as int)),
            acc <= 0x8000_0000_0000_0000,
    {
        let ghost idx = it.index() as int;
        let ghost start = idx - digits;
        let u: u32 = c as u32;
        if first && c == '-' {
            negative = true;
        } else if 48 <= u && u <= 57 {
            let d: u64 = (u - 48) as u64;
            proof {
                let body = s@.subrange(start, idx + 1);
                assert(body.drop_last() =~= s@.subrange(start, idx));
            }
            if acc > 922337203685477580 || acc * 10 + d > 0x8000_0000_0000_0000 {
                proof {
                    let body = s@.subrange(start, idx + 1);
                    let rest = s@.skip(start);
                    if all_digits(rest) {
                        assert(rest.take(idx + 1 - start) =~= body);
                        lemma_digits_value_grows(rest, idx + 1 - start);
                    }
                    assert(s@.skip(0) =~= s@);
                }
                return None;
            }
            acc = acc * 10 + d;
            any = true;
            proof {
                digits = digits + 1;
            }
        } else {
            proof {
                let rest = s@.skip(start);
                assert(rest[idx - start] == c);
            }
            return None;
        }
        first = false;
    }
    assert(s@.skip(0) =~= s@);
    if !any {
        None
    } else if negative {
        if acc == 0x8000_0000_0000_0000 {
            Some(i64::MIN)
        } else {
            Some(-(acc as i64))
        }
    } else if acc > 0x7fff_ffff_ffff_ffff {
        None
    } else {
        Some(acc as i64)
    }
}

/// The views of the values of a vector, in its order.
pub open spec fn scalars(values: Seq<DataValue>) -> Seq<Scalar> {
    Seq::new(values.len(), |i: int| values[i]@)
}

/// A finished column: values of one type, one for each row.
#[derive(Debug)]
pub struct Column {
    data_type: DataType,
    nullable: bool,
    values: Vec<DataValue>,
}

impl View for Column {
    type V = Seq<Scalar>;

    closed spec fn view(&self) -> Seq<Scalar> {
        scalars(self.values@)
    }
}

impl Column {
    #[verifier::type_invariant]
    spec fn holds_its_type(&self) -> bool {
        forall|i: int|
            0 <= i < self.values@.len() ==> fits(
                (#[trigger] self.values@[i])@,
                self.data_type,
                self.nullable,
            )
    }

    /// The type of the column's values.
    pub closed spec fn type_spec(&self) -> DataType {
        self.data_type
    }

    /// Whether the column may hold null.
    pub closed spec fn nullable_spec(&self) -> bool {
        self.nullable
    }

    pub fn data_type(&self) -> (t: DataType)
        ensures
            t == self.type_spec(),
    {
        self.data_type
    }

    pub fn is_nullable(&self) -> (b: bool)
        ensures
            b == self.nullable_spec(),
    {
        self.nullable
    }

    /// The number of rows.
    pub fn len(&self) -> (n: usize)
        ensures
            n == self@.len(),
    {
        self.values.len()
    }

    /// The value of row `i`. It fits the column's type.
    pub fn value(&self, i: usize) -> (v: &DataValue)
        requires
            i < self@.len(),
        ensures
            v@ == self@[i as int],
            fits(v@, self.type_spec(), self.nullable_spec()),
    {
        proof {
            use_type_invariant(self);
        }
        &self.values[i]
    }
}

/// The builder of one column: it takes the JSON values of the column's
/// fields, row after row, and is finished into the column.
#[derive(Debug)]
pub struct TypeDeserializer {
    data_type: DataType,
    nullable: bool,
    values: Vec<DataValue>,
}

impl View for TypeDeserializer {
    type V = Seq<Scalar>;

    /// The values taken so far.
    closed spec fn view(&self) -> Seq<Scalar> {
        scalars(self.values@)
    }
}

impl TypeDeserializer {
    /// Every value taken so far fits the type of the column that is built.
    pub closed spec fn wf(&self) -> bool {
        forall|i: int|
            0 <= i < self.values@.len() ==> fits(
                (#[trigger] self.values@[i])@,
                self.data_type,
                self.nullable,
            )
    }

    /// The type of the column that is built.
    pub closed spec fn type_spec(&self) -> DataType {
        self.data_type
    }

    /// Whether the column that is built may hold null.
    pub closed spec fn nullable_spec(&self) -> bool {
        self.nullable
    }

    /// A builder that holds nothing yet. Room for `capacity` values is set
    /// aside where there is so much room to be had; where there is not, the
    /// builder grows as it takes values.
    pub fn create(data_type: DataType, nullable: bool, capacity: usize) -> (d: TypeDeserializer)
        ensures
            d.wf(),
            d@ == Seq::<Scalar>::empty(),
            d.type_spec() == data_type,
            d.nullable_spec() == nullable,
    {
        let mut values: Vec<DataValue> = Vec::new();
        let _ = values.try_reserve(capacity);
        let d = TypeDeserializer { data_type, nullable, values };
        d
    }

    pub fn data_type(&self) -> (t: DataType)
        ensures
            t == self.type_spec(),
    {
        self.data_type
    }

    pub fn is_nullable(&self) -> (b: bool)
        ensures
            b == self.nullable_spec(),
    {
        self.nullable
    }

    /// The number of values taken so far.
    pub fn len(&self) -> (n: usize)
        ensures
            n == self@.len(),
    {
        self.values.len()
    }

    /// Takes the value of one more row. A value that the column's type does
    /// not take is refused, and the builder stays as it was.
    pub fn de_json(&mut self, value: &JsonValue, format: &FormatSettings) -> (r: Result<
        (),
        ErrorCode,
    >)
        requires
            old(self).wf(),
        ensures
            final(self).wf(),
            final(self).type_spec() == old(self).type_spec(),
            final(self).nullable_spec() == old(self).nullable_spec(),
            match r {
                Ok(()) => coerce(old(self).type_spec(), old(self).nullable_spec(), *value)
                    matches Some(taken) && final(self)@ == old(self)@.push(taken),
                Err(e) => coerce(old(self).type_spec(), old(self).nullable_spec(), *value)
                    is None && final(self)@ == old(self)@ && e.kind == ErrorKind::FieldCoercion
                    && e.message@ == refusal(old(self).type_spec()),
            },
    {
        let taken: Option<DataValue> = match value {
            JsonValue::Null => if self.nullable {
                Some(DataValue::Null)
            } else {
                None
            },
            JsonValue::Bool(b) => match self.data_type {
                DataType::Boolean => Some(DataValue::Boolean(*b)),
                _ => None,
            },
            JsonValue::Number(n) => match self.data_type {
                DataType::Int64 => match parse_int_text(n.as_str()) {
                    Some(i) => Some(DataValue::Int64(i)),
                    None => None,
                },
                _ => None,
            },
            JsonValue::String(s) => match self.data_type {
                DataType::String => Some(DataValue::String(s.clone())),
                _ => None,
            },
            _ => None,
        };
        match taken {
            Some(v) => {
                self.values.push(v);
                Ok(())
            },
            None => {
                let message = match self.data_type {
                    DataType::Boolean => "Incorrect json value, must be boolean",
                    DataType::Int64 => "Incorrect json value, must be a 64-bit integer",
                    DataType::String => "Incorrect json value, must be string",
                };
                Err(ErrorCode::new(ErrorKind::FieldCoercion, message.to_owned()))
            },
        }
    }

    /// Finishes the builder into its column.
    pub fn finish_to_column(self) -> (c: Column)
        requires
            self.wf(),
        ensures
            c@ == self@,
            c.type_spec() == self.type_spec(),
            c.nullable_spec() == self.nullable_spec(),
    {
        Column { data_type: self.data_type, nullable: self.nullable, values: self.values }
    }
}

} // verus!
