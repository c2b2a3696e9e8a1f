//! Immutable, type-erased columns: one concrete representation per primitive
//! column type, a shared capability interface, and no mutation after
//! construction. Columns are created only by finishing a builder.

use crate::data_type::ConcreteDataType;
use crate::value::{clone_bytes, Date, DateTime, Timestamp, Value, ValueModel, ValueRef};
use vstd::prelude::*;

verus! {

/// The models of boolean rows: absent payloads are the column's nulls.
pub open spec fn rows_boolean(s: Seq<Option<bool>>) -> Seq<ValueModel> {
    s.map(
        |i: int, o: Option<bool>|
            match o {
                Option::Some(x) => ValueModel::Boolean(x),
                Option::None => ValueModel::Null,
            },
    )
}

/// The models of unsigned 8-bit rows.
pub open spec fn rows_uint8(s: Seq<Option<u8>>) -> Seq<ValueModel> {
    s.map(
        |i: int, o: Option<u8>|
            match o {
                Option::Some(x) => ValueModel::UInt8(x),
                Option::None => ValueModel::Null,
            },
    )
}

/// The models of unsigned 16-bit rows.
pub open spec fn rows_uint16(s: Seq<Option<u16>>) -> Seq<ValueModel> {
    s.map(
        |i: int, o: Option<u16>|
            match o {
                Option::Some(x) => ValueModel::UInt16(x),
                Option::None => ValueModel::Null,
            },
    )
}

/// The models of unsigned 32-bit rows.
pub open spec fn rows_uint32(s: Seq<Option<u32>>) -> Seq<ValueModel> {
    s.map(
        |i: int, o: Option<u32>|
            match o {
                Option::Some(x) => ValueModel::UInt32(x),
                Option::None => ValueModel::Null,
            },
    )
}

/// The models of unsigned 64-bit rows.
pub open spec fn rows_uint64(s: Seq<Option<u64>>) -> Seq<ValueModel> {
    s.map(
        |i: int, o: Option<u64>|
            match o {
                Option::Some(x) => ValueModel::UInt64(x),
                Option::None => ValueModel::Null,
            },
    )
}

/// The models of signed 8-bit rows.
pub open spec fn rows_int8(s: Seq<Option<i8>>) -> Seq<ValueModel> {
    s.map(
        |i: int, o: Option<i8>|
            match o {
                Option::Some(x) => ValueModel::Int8(x),
                Option::None => ValueModel::Null,
            },
    )
}

/// The models of signed 16-bit rows.
pub open spec fn rows_int16(s: Seq<Option<i16>>) -> Seq<ValueModel> {
    s.map(
        |i: int, o: Option<i16>|
            match o {
                Option::Some(x) => ValueModel::Int16(x),
                Option::None => ValueModel::Null,
            },
    )
}

/// The models of signed 32-bit rows.
pub open spec fn rows_int32(s: Seq<Option<i32>>) -> Seq<ValueModel> {
    s.map(
        |i: int, o: Option<i32>|
            match o {
                Option::Some(x) => ValueModel::Int32(x),
                Option::None => ValueModel::Null,
            },
    )
}

/// The models of signed 64-bit rows.
pub open spec fn rows_int64(s: Seq<Option<i64>>) -> Seq<ValueModel> {
    s.map(
        |i: int, o: Option<i64>|
            match o {
                Option::Some(x) => ValueModel::Int64(x),
                Option::None => ValueModel::Null,
            },
    )
}

/// The models of 32-bit float rows carried as bit patterns.
pub open spec fn rows_float32(s: Seq<Option<u32>>) -> Seq<ValueModel> {
    s.map(
        |i: int, o: Option<u32>|
            match o {
                Option::Some(x) => ValueModel::Float32(x),
                Option::None => ValueModel::Null,
            },
    )
}

/// The models of 64-bit float rows carried as bit patterns.
pub open spec fn rows_float64(s: Seq<Option<u64>>) -> Seq<ValueModel> {
    s.map(
        |i: int, o: Option<u64>|
            match o {
                Option::Some(x) => ValueModel::Float64(x),
                Option::None => ValueModel::Null,
            },
    )
}

/// The models of string rows.
pub open spec fn rows_string(s: Seq<Option<String>>) -> Seq<ValueModel> {
    s.map(
        |i: int, o: Option<String>|
            match o {
                Option::Some(x) => ValueModel::String(x@),
                Option::None => ValueModel::Null,
            },
    )
}

/// The models of binary rows.
pub open spec fn rows_binary(s: Seq<Option<Vec<u8>>>) -> Seq<ValueModel> {
    s.map(
        |i: int, o: Option<Vec<u8>>|
            match o {
                Option::Some(x) => ValueModel::Binary(x@),
                Option::None => ValueModel::Null,
            },
    )
}

/// The models of date rows.
pub open spec fn rows_date(s: Seq<Option<Date>>) -> Seq<ValueModel> {
    s.map(
        |i: int, o: Option<Date>|
            match o {
                Option::Some(x) => ValueModel::Date(x.val),
                Option::None => ValueModel::Null,
            },
    )
}

/// The models of datetime rows.
pub open spec fn rows_datetime(s: Seq<Option<DateTime>>) -> Seq<ValueModel> {
    s.map(
        |i: int, o: Option<DateTime>|
            match o {
                Option::Some(x) => ValueModel::DateTime(x.val),
                Option::None => ValueModel::Null,
            },
    )
}

/// The models of timestamp rows.
pub open spec fn rows_timestamp(s: Seq<Option<Timestamp>>) -> Seq<ValueModel> {
    s.map(
        |i: int, o: Option<Timestamp>|
            match o {
                Option::Some(x) => ValueModel::Timestamp(x.millis),
                Option::None => ValueModel::Null,
            },
    )
}

/// The models of a null column of `n` rows.
pub open spec fn rows_null(n: nat) -> Seq<ValueModel> {
    Seq::new(n, |i: int| ValueModel::Null)
}

/// An immutable column of one logical type. The null column carries only a
/// length; every other representation stores per-row optional payloads, the
/// absent ones being the column's nulls.
pub enum Vector {
    Null(usize),
    Boolean(Vec<Option<bool>>),
    UInt8(Vec<Option<u8>>),
    UInt16(Vec<Option<u16>>),
    UInt32(Vec<Option<u32>>),
    UInt64(Vec<Option<u64>>),
    Int8(Vec<Option<i8>>),
    Int16(Vec<Option<i16>>),
    Int32(Vec<Option<i32>>),
    Int64(Vec<Option<i64>>),
    /// Rows are IEEE 754 bit patterns of 32-bit floats.
    Float32(Vec<Option<u32>>),
    /// Rows are IEEE 754 bit patterns of 64-bit floats.
    Float64(Vec<Option<u64>>),
    String(Vec<Option<String>>),
    Binary(Vec<Option<Vec<u8>>>),
    Date(Vec<Option<Date>>),
    DateTime(Vec<Option<DateTime>>),
    Timestamp(Vec<Option<Timestamp>>),
}

impl Vector {
    /// The logical type of this column.
    pub open spec fn data_type_spec(&self) -> ConcreteDataType {
        match *self {
            Vector::Null(_) => ConcreteDataType::Null,
            Vector::Boolean(_) => ConcreteDataType::Boolean,
            Vector::UInt8(_) => ConcreteDataType::UInt8,
            Vector::UInt16(_) => ConcreteDataType::UInt16,
            Vector::UInt32(_) => ConcreteDataType::UInt32,
            Vector::UInt64(_) => ConcreteDataType::UInt64,
            Vector::Int8(_) => ConcreteDataType::Int8,
            Vector::Int16(_) => ConcreteDataType::Int16,
            Vector::Int32(_) => ConcreteDataType::Int32,
            Vector::Int64(_) => ConcreteDataType::Int64,
            Vector::Float32(_) => ConcreteDataType::Float32,
            Vector::Float64(_) => ConcreteDataType::Float64,
            Vector::String(_) => ConcreteDataType::String,
            Vector::Binary(_) => ConcreteDataType::Binary,
            Vector::Date(_) => ConcreteDataType::Date,
            Vector::DateTime(_) => ConcreteDataType::DateTime,
            Vector::Timestamp(_) => ConcreteDataType::Timestamp,
        }
    }

    /// The per-row scalar models of this column, nulls included.
    pub open spec fn model(&self) -> Seq<ValueModel> {
        match *self {
            Vector::Null(n) => rows_null(n as nat),
            Vector::Boolean(v) => rows_boolean(v@),
            Vector::UInt8(v) => rows_uint8(v@),
            Vector::UInt16(v) => rows_uint16(v@),
            Vector::UInt32(v) => rows_uint32(v@),
            Vector::UInt64(v) => rows_uint64(v@),
            Vector::Int8(v) => rows_int8(v@),
            Vector::Int16(v) => rows_int16(v@),
            Vector::Int32(v) => rows_int32(v@),
            Vector::Int64(v) => rows_int64(v@),
            Vector::Float32(v) => rows_float32(v@),
            Vector::Float64(v) => rows_float64(v@),
            Vector::String(v) => rows_string(v@),
            Vector::Binary(v) => rows_binary(v@),
            Vector::Date(v) => rows_date(v@),
            Vector::DateTime(v) => rows_datetime(v@),
            Vector::Timestamp(v) => rows_timestamp(v@),
        }
    }

    /// The logical type of this column.
    pub fn data_type(&self) -> (t: ConcreteDataType)
        ensures
            t == self.data_type_spec(),
    {
        match self {
            Vector::Null(_) => ConcreteDataType::Null,
            Vector::Boolean(_) => ConcreteDataType::Boolean,
            Vector::UInt8(_) => ConcreteDataType::UInt8,
            Vector::UInt16(_) => ConcreteDataType::UInt16,
            Vector::UInt32(_) => ConcreteDataType::UInt32,
            Vector::UInt64(_) => ConcreteDataType::UInt64,
            Vector::Int8(_) => ConcreteDataType::Int8,
            Vector::Int16(_) => ConcreteDataType::Int16,
            Vector::Int32(_) => ConcreteDataType::Int32,
            Vector::Int64(_) => ConcreteDataType::Int64,
            Vector::Float32(_) => ConcreteDataType::Float32,
            Vector::Float64(_) => ConcreteDataType::Float64,
            Vector::String(_) => ConcreteDataType::String,
            Vector::Binary(_) => ConcreteDataType::Binary,
            Vector::Date(_) => ConcreteDataType::Date,
            Vector::DateTime(_) => ConcreteDataType::DateTime,
            Vector::Timestamp(_) => ConcreteDataType::Timestamp,
        }
    }

    /// The number of rows.
    pub fn len(&self) -> (n: usize)
        ensures
            n == self.model().len(),
    {
        match self {
            Vector::Null(n) => *n,
            Vector::Boolean(v) => v.len(),
            Vector::UInt8(v) => v.len(),
            Vector::UInt16(v) => v.len(),
            Vector::UInt32(v) => v.len(),
            Vector::UInt64(v) => v.len(),
            Vector::Int8(v) => v.len(),
            Vector::Int16(v) => v.len(),
            Vector::Int32(v) => v.len(),
            Vector::Int64(v) => v.len(),
            Vector::Float32(v) => v.len(),
            Vector::Float64(v) => v.len(),
            Vector::String(v) => v.len(),
            Vector::Binary(v) => v.len(),
            Vector::Date(v) => v.len(),
            Vector::DateTime(v) => v.len(),
            Vector::Timestamp(v) => v.len(),
        }
    }

    /// Whether the column has no rows.
    pub fn is_empty(&self) -> (b: bool)
        ensures
            b == (self.model().len() == 0),
    {
        self.len() == 0
    }

    /// Whether row `i` is null.
    pub fn is_null(&self, i: usize) -> (b: bool)
        requires
            i < self.model().len(),
        ensures
            b == (self.model()[i as int] is Null),
    {
        match self {
            Vector::Null(_) => true,
            Vector::Boolean(v) => v[i].is_none(),
            Vector::UInt8(v) => v[i].is_none(),
            Vector::UInt16(v) => v[i].is_none(),
            Vector::UInt32(v) => v[i].is_none(),
            Vector::UInt64(v) => v[i].is_none(),
            Vector::Int8(v) => v[i].is_none(),
            Vector::Int16(v) => v[i].is_none(),
            Vector::Int32(v) => v[i].is_none(),
            Vector::Int64(v) => v[i].is_none(),
            Vector::Float32(v) => v[i].is_none(),
            Vector::Float64(v) => v[i].is_none(),
            Vector::String(v) => v[i].is_none(),
            Vector::Binary(v) => v[i].is_none(),
            Vector::Date(v) => v[i].is_none(),
            Vector::DateTime(v) => v[i].is_none(),
            Vector::Timestamp(v) => v[i].is_none(),
        }
    }

    /// Row `i` as an owned scalar; null rows come back as the null scalar.
    pub fn get(&self, i: usize) -> (r: Value)
        requires
            i < self.model().len(),
        ensures
            r@ == self.model()[i as int],
    {
        match self {
            Vector::Null(_) => Value::Null,
            Vector::Boolean(v) => match &v[i] {
                Option::Some(x) => Value::Boolean(*x),
                Option::None => Value::Null,
            },
            Vector::UInt8(v) => match &v[i] {
                Option::Some(x) => Value::UInt8(*x),
                Option::None => Value::Null,
            },
            Vector::UInt16(v) => match &v[i] {
                Option::Some(x) => Value::UInt16(*x),
                Option::None => Value::Null,
            },
            Vector::UInt32(v) => match &v[i] {
                Option::Some(x) => Value::UInt32(*x),
                Option::None => Value::Null,
            },
            Vector::UInt64(v) => match &v[i] {
                Option::Some(x) => Value::UInt64(*x),
                Option::None => Value::Null,
            },
            Vector::Int8(v) => match &v[i] {
                Option::Some(x) => Value::Int8(*x),
                Option::None => Value::Null,
            },
            Vector::Int16(v) => match &v[i] {
                Option::Some(x) => Value::Int16(*x),
                Option::None => Value::Null,
            },
            Vector::Int32(v) => match &v[i] {
                Option::Some(x) => Value::Int32(*x),
                Option::None => Value::Null,
            },
            Vector::Int64(v) => match &v[i] {
                Option::Some(x) => Value::Int64(*x),
                Option::None => Value::Null,
            },
            Vector::Float32(v) => match &v[i] {
                Option::Some(x) => Value::Float32(*x),
                Option::None => Value::Null,
            },
            Vector::Float64(v) => match &v[i] {
                Option::Some(x) => Value::Float64(*x),
                Option::None => Value::Null,
            },
            Vector::String(v) => match &v[i] {
                Option::Some(x) => Value::String(x.clone()),
                Option::None => Value::Null,
            },
            Vector::Binary(v) => match &v[i] {
                Option::Some(x) => Value::Binary(clone_bytes(x)),
                Option::None => Value::Null,
            },
            Vector::Date(v) => match &v[i] {
                Option::Some(x) => Value::Date(*x),
                Option::None => Value::Null,
            },
            Vector::DateTime(v) => match &v[i] {
                Option::Some(x) => Value::DateTime(*x),
                Option::None => Value::Null,
            },
            Vector::Timestamp(v) => match &v[i] {
                Option::Some(x) => Value::Timestamp(*x),
                Option::None => Value::Null,
            },
        }
    }

    /// Row `i` as a borrowed scalar; null rows come back as the null scalar.
    pub fn get_ref(&self, i: usize) -> (r: ValueRef<'_>)
        requires
            i < self.model().len(),
        ensures
            r@ == self.model()[i as int],
    {
        match self {
            Vector::Null(_) => ValueRef::Null,
            Vector::Boolean(v) => match &v[i] {
                Option::Some(x) => ValueRef::Boolean(*x),
                Option::None => ValueRef::Null,
            },
            Vector::UInt8(v) => match &v[i] {
                Option::Some(x) => ValueRef::UInt8(*x),
                Option::None => ValueRef::Null,
            },
            Vector::UInt16(v) => match &v[i] {
                Option::Some(x) => ValueRef::UInt16(*x),
                Option::None => ValueRef::Null,
            },
            Vector::UInt32(v) => match &v[i] {
                Option::Some(x) => ValueRef::UInt32(*x),
                Option::None => ValueRef::Null,
            },
            Vector::UInt64(v) => match &v[i] {
                Option::Some(x) => ValueRef::UInt64(*x),
                Option::None => ValueRef::Null,
            },
            Vector::Int8(v) => match &v[i] {
                Option::Some(x) => ValueRef::Int8(*x),
                Option::None => ValueRef::Null,
            },
            Vector::Int16(v) => match &v[i] {
                Option::Some(x) => ValueRef::Int16(*x),
                Option::None => ValueRef::Null,
            },
            Vector::Int32(v) => match &v[i] {
                Option::Some(x) => ValueRef::Int32(*x),
                Option::None => ValueRef::Null,
            },
            Vector::Int64(v) => match &v[i] {
                Option::Some(x) => ValueRef::Int64(*x),
                Option::None => ValueRef::Null,
            },
            Vector::Float32(v) => match &v[i] {
                Option::Some(x) => ValueRef::Float32(*x),
                Option::None => ValueRef::Null,
            },
            Vector::Float64(v) => match &v[i] {
                Option::Some(x) => ValueRef::Float64(*x),
                Option::None => ValueRef::Null,
            },
            Vector::String(v) => match &v[i] {
                Option::Some(x) => ValueRef::String(x.as_str()),
                Option::None => ValueRef::Null,
            },
            Vector::Binary(v) => match &v[i] {
                Option::Some(x) => ValueRef::Binary(x.as_slice()),
                Option::None => ValueRef::Null,
            },
            Vector::Date(v) => match &v[i] {
                Option::Some(x) => ValueRef::Date(*x),
                Option::None => ValueRef::Null,
            },
            Vector::DateTime(v) => match &v[i] {
                Option::Some(x) => ValueRef::DateTime(*x),
                Option::None => ValueRef::Null,
            },
            Vector::Timestamp(v) => match &v[i] {
                Option::Some(x) => ValueRef::Timestamp(*x),
                Option::None => ValueRef::Null,
            },
        }
    }
}

} // verus!
