//! The type-erased mutable vector builder: selected once from a logical type,
//! it accumulates scalars through a checked and an unchecked interface and is
//! consumed into an immutable column.

use crate::data_type::ConcreteDataType;
use crate::error::{cast_error, cast_error_msg, Error};
use crate::value::{
    clone_bytes, coerces, matches_type, pushed_model, ref_accepts, slice_to_vec, Date, DateTime, Timestamp,
    Value, ValueModel, ValueRef,
};
use crate::vector::{
    rows_binary, rows_boolean, rows_date, rows_datetime, rows_float32, rows_float64, rows_int16,
    rows_int32, rows_int64, rows_int8, rows_null, rows_string, rows_timestamp, rows_uint16,
    rows_uint32, rows_uint64, rows_uint8, Vector,
};
use vstd::pervasive::unreached;
use vstd::prelude::*;

verus! {

/// The exclusively owned, mutable accumulator of one column. The tag is
/// chosen once, at construction, from a logical type, and never changes; a
/// null builder counts rows, every other arm grows a buffer of optional
/// payloads.
pub enum VectorBuilder {
    Null(usize),
    Boolean(Vec<Option<bool>>),
    UInt8(Vec<Option<u8>>),
    UInt16(Vec<Option<u16>>),
    UInt32(Vec<Option<u32>>),
    UInt64(Vec<Option<u64>>),
    Int8(Vec<Option<i8>>),
    Int16(Vec<Option<i16>>),
    Int32(Vec<Option<i32>>),
    Int64(Vec<Option<i64>>),
    /// Rows are IEEE 754 bit patterns of 32-bit floats.
    Float32(Vec<Option<u32>>),
    /// Rows are IEEE 754 bit patterns of 64-bit floats.
    Float64(Vec<Option<u64>>),
    String(Vec<Option<String>>),
    Binary(Vec<Option<Vec<u8>>>),
    Date(Vec<Option<Date>>),
    DateTime(Vec<Option<DateTime>>),
    Timestamp(Vec<Option<Timestamp>>),
}

impl VectorBuilder {
    /// The logical type this builder accumulates.
    pub open spec fn data_type_spec(&self) -> ConcreteDataType {
        match *self {
            VectorBuilder::Null(_) => ConcreteDataType::Null,
            VectorBuilder::Boolean(_) => ConcreteDataType::Boolean,
            VectorBuilder::UInt8(_) => ConcreteDataType::UInt8,
            VectorBuilder::UInt16(_) => ConcreteDataType::UInt16,
            VectorBuilder::UInt32(_) => ConcreteDataType::UInt32,
            VectorBuilder::UInt64(_) => ConcreteDataType::UInt64,
            VectorBuilder::Int8(_) => ConcreteDataType::Int8,
            VectorBuilder::Int16(_) => ConcreteDataType::Int16,
            VectorBuilder::Int32(_) => ConcreteDataType::Int32,
            VectorBuilder::Int64(_) => ConcreteDataType::Int64,
            VectorBuilder::Float32(_) => ConcreteDataType::Float32,
            VectorBuilder::Float64(_) => ConcreteDataType::Float64,
            VectorBuilder::String(_) => ConcreteDataType::String,
            VectorBuilder::Binary(_) => ConcreteDataType::Binary,
            VectorBuilder::Date(_) => ConcreteDataType::Date,
            VectorBuilder::DateTime(_) => ConcreteDataType::DateTime,
            VectorBuilder::Timestamp(_) => ConcreteDataType::Timestamp,
        }
    }

    /// The models of the rows accumulated so far.
    pub open spec fn model(&self) -> Seq<ValueModel> {
        match *self {
            VectorBuilder::Null(n) => rows_null(n as nat),
            VectorBuilder::Boolean(v) => rows_boolean(v@),
            VectorBuilder::UInt8(v) => rows_uint8(v@),
            VectorBuilder::UInt16(v) => rows_uint16(v@),
            VectorBuilder::UInt32(v) => rows_uint32(v@),
            VectorBuilder::UInt64(v) => rows_uint64(v@),
            VectorBuilder::Int8(v) => rows_int8(v@),
            VectorBuilder::Int16(v) => rows_int16(v@),
            VectorBuilder::Int32(v) => rows_int32(v@),
            VectorBuilder::Int64(v) => rows_int64(v@),
            VectorBuilder::Float32(v) => rows_float32(v@),
            VectorBuilder::Float64(v) => rows_float64(v@),
            VectorBuilder::String(v) => rows_string(v@),
            VectorBuilder::Binary(v) => rows_binary(v@),
            VectorBuilder::Date(v) => rows_date(v@),
            VectorBuilder::DateTime(v) => rows_datetime(v@),
            VectorBuilder::Timestamp(v) => rows_timestamp(v@),
        }
    }

    /// An empty builder for `data_type`. Building list columns goes through
    /// the list type's own factory.
    pub fn new(data_type: ConcreteDataType) -> (b: VectorBuilder)
        requires
            !(data_type is List),
        ensures
            b.data_type_spec() == data_type,
            b.model() == Seq::<ValueModel>::empty(),
    {
        VectorBuilder::with_capacity(data_type, 0)
    }

    /// An empty builder for `data_type` with room for `capacity` rows.
    pub fn with_capacity(data_type: ConcreteDataType, capacity: usize) -> (b: VectorBuilder)
        requires
            !(data_type is List),
        ensures
            b.data_type_spec() == data_type,
            b.model() == Seq::<ValueModel>::empty(),
    {
        let b = match data_type {
            ConcreteDataType::Null => VectorBuilder::Null(0),
            ConcreteDataType::Boolean => VectorBuilder::Boolean(Vec::with_capacity(capacity)),
            ConcreteDataType::UInt8 => VectorBuilder::UInt8(Vec::with_capacity(capacity)),
            ConcreteDataType::UInt16 => VectorBuilder::UInt16(Vec::with_capacity(capacity)),
            ConcreteDataType::UInt32 => VectorBuilder::UInt32(Vec::with_capacity(capacity)),
            ConcreteDataType::UInt64 => VectorBuilder::UInt64(Vec::with_capacity(capacity)),
            ConcreteDataType::Int8 => VectorBuilder::Int8(Vec::with_capacity(capacity)),
            ConcreteDataType::Int16 => VectorBuilder::Int16(Vec::with_capacity(capacity)),
            ConcreteDataType::Int32 => VectorBuilder::Int32(Vec::with_capacity(capacity)),
            ConcreteDataType::Int64 => VectorBuilder::Int64(Vec::with_capacity(capacity)),
            ConcreteDataType::Float32 => VectorBuilder::Float32(Vec::with_capacity(capacity)),
            ConcreteDataType::Float64 => VectorBuilder::Float64(Vec::with_capacity(capacity)),
            ConcreteDataType::String => VectorBuilder::String(Vec::with_capacity(capacity)),
            ConcreteDataType::Binary => VectorBuilder::Binary(Vec::with_capacity(capacity)),
            ConcreteDataType::Date => VectorBuilder::Date(Vec::with_capacity(capacity)),
            ConcreteDataType::DateTime => VectorBuilder::DateTime(Vec::with_capacity(capacity)),
            ConcreteDataType::Timestamp => VectorBuilder::Timestamp(Vec::with_capacity(capacity)),
            ConcreteDataType::List(_) => unreached(),
        };
        proof {
            assert(b.model() =~= Seq::<ValueModel>::empty());
        }
        b
    }

    /// The logical type this builder accumulates. It is derived from the arm
    /// chosen at construction and is unchanged by every push.
    pub fn data_type(&self) -> (t: ConcreteDataType)
        ensures
            t == self.data_type_spec(),
    {
        match self {
            VectorBuilder::Null(_) => ConcreteDataType::Null,
            VectorBuilder::Boolean(_) => ConcreteDataType::Boolean,
            VectorBuilder::UInt8(_) => ConcreteDataType::UInt8,
            VectorBuilder::UInt16(_) => ConcreteDataType::UInt16,
            VectorBuilder::UInt32(_) => ConcreteDataType::UInt32,
            VectorBuilder::UInt64(_) => ConcreteDataType::UInt64,
            VectorBuilder::Int8(_) => ConcreteDataType::Int8,
            VectorBuilder::Int16(_) => ConcreteDataType::Int16,
            VectorBuilder::Int32(_) => ConcreteDataType::Int32,
            VectorBuilder::Int64(_) => ConcreteDataType::Int64,
            VectorBuilder::Float32(_) => ConcreteDataType::Float32,
            VectorBuilder::Float64(_) => ConcreteDataType::Float64,
            VectorBuilder::String(_) => ConcreteDataType::String,
            VectorBuilder::Binary(_) => ConcreteDataType::Binary,
            VectorBuilder::Date(_) => ConcreteDataType::Date,
            VectorBuilder::DateTime(_) => ConcreteDataType::DateTime,
            VectorBuilder::Timestamp(_) => ConcreteDataType::Timestamp,
        }
    }

    /// Unchecked insert for pre-validated callers: nulls are routed to
    /// `push_null` whatever the builder's type; any other value must match the
    /// builder's type exactly or fall under a documented integer widening —
    /// feeding anything else is the caller's programming error, and is ruled
    /// out here rather than handled at run time.
    pub fn push(&mut self, value: &Value)
        requires
            old(self).model().len() < usize::MAX,
            value@ is Null || coerces(old(self).data_type_spec(), value@),
        ensures
            final(self).data_type_spec() == old(self).data_type_spec(),
            final(self).model() == old(self).model().push(
                pushed_model(old(self).data_type_spec(), value@),
            ),
    {
        if value.is_null() {
            self.push_null();
            return ;
        }
        match (&mut *self, value) {
            (VectorBuilder::Boolean(b), Value::Boolean(v)) => b.push(Some(*v)),
            (VectorBuilder::UInt8(b), Value::UInt8(v)) => b.push(Some(*v)),
            (VectorBuilder::UInt16(b), Value::UInt16(v)) => b.push(Some(*v)),
            (VectorBuilder::UInt32(b), Value::UInt32(v)) => b.push(Some(*v)),
            (VectorBuilder::UInt64(b), Value::UInt64(v)) => b.push(Some(*v)),
            (VectorBuilder::Int8(b), Value::Int8(v)) => b.push(Some(*v)),
            (VectorBuilder::Int16(b), Value::Int16(v)) => b.push(Some(*v)),
            (VectorBuilder::Int32(b), Value::Int32(v)) => b.push(Some(*v)),
            (VectorBuilder::Int64(b), Value::Int64(v)) => b.push(Some(*v)),
            (VectorBuilder::Float32(b), Value::Float32(v)) => b.push(Some(*v)),
            (VectorBuilder::Float64(b), Value::Float64(v)) => b.push(Some(*v)),
            (VectorBuilder::String(b), Value::String(v)) => b.push(Some(v.clone())),
            (VectorBuilder::Binary(b), Value::Binary(v)) => b.push(Some(clone_bytes(v))),
            (VectorBuilder::Date(b), Value::Date(v)) => b.push(Some(*v)),
            (VectorBuilder::Date(b), Value::Int32(v)) => b.push(Some(Date::new(*v))),
            (VectorBuilder::DateTime(b), Value::DateTime(v)) => b.push(Some(*v)),
            (VectorBuilder::DateTime(b), Value::Int64(v)) => b.push(Some(DateTime::new(*v))),
            (VectorBuilder::Timestamp(b), Value::Timestamp(t)) => b.push(Some(*t)),
            (VectorBuilder::Timestamp(b), Value::Int64(v)) => b.push(
                Some(Timestamp::from_millis(*v)),
            ),
            _ => unreached(),
        }
        proof {
            assert(self.model() =~= old(self).model().push(
                pushed_model(old(self).data_type_spec(), value@),
            ));
        }
    }

    /// Checked insert for values of untrusted provenance. Exactly the null
    /// scalar, a value matching the builder's type, and the documented integer
    /// widenings are accepted; everything else leaves the builder untouched
    /// and reports a cast error naming the value and the expected type.
    pub fn try_push_ref(&mut self, value: ValueRef<'_>) -> (r: Result<(), Error>)
        requires
            old(self).model().len() < usize::MAX,
        ensures
            final(self).data_type_spec() == old(self).data_type_spec(),
            r is Ok <==> ref_accepts(old(self).data_type_spec(), value@),
            r is Ok ==> final(self).model() == old(self).model().push(
                pushed_model(old(self).data_type_spec(), value@),
            ),
            r is Err ==> final(self).model() == old(self).model(),
            (match r {
                Result::Err(e) => e.msg_spec() == cast_error_msg(
                    old(self).data_type_spec(),
                    value@,
                ),
                Result::Ok(_) => true,
            }),
    {
        let r = match (&mut *self, value) {
            (VectorBuilder::Null(n), ValueRef::Null) => {
                *n = *n + 1;
                Ok(())
            }
            (VectorBuilder::Boolean(b), ValueRef::Null) => {
                b.push(None);
                Ok(())
            }
            (VectorBuilder::Boolean(b), ValueRef::Boolean(v)) => {
                b.push(Some(v));
                Ok(())
            }
            (VectorBuilder::UInt8(b), ValueRef::Null) => {
                b.push(None);
                Ok(())
            }
            (VectorBuilder::UInt8(b), ValueRef::UInt8(v)) => {
                b.push(Some(v));
                Ok(())
            }
            (VectorBuilder::UInt16(b), ValueRef::Null) => {
                b.push(None);
                Ok(())
            }
            (VectorBuilder::UInt16(b), ValueRef::UInt16(v)) => {
                b.push(Some(v));
                Ok(())
            }
            (VectorBuilder::UInt32(b), ValueRef::Null) => {
                b.push(None);
                Ok(())
            }
            (VectorBuilder::UInt32(b), ValueRef::UInt32(v)) => {
                b.push(Some(v));
                Ok(())
            }
            (VectorBuilder::UInt64(b), ValueRef::Null) => {
                b.push(None);
                Ok(())
            }
            (VectorBuilder::UInt64(b), ValueRef::UInt64(v)) => {
                b.push(Some(v));
                Ok(())
            }
            (VectorBuilder::Int8(b), ValueRef::Null) => {
                b.push(None);
                Ok(())
            }
            (VectorBuilder::Int8(b), ValueRef::Int8(v)) => {
                b.push(Some(v));
                Ok(())
            }
            (VectorBuilder::Int16(b), ValueRef::Null) => {
                b.push(None);
                Ok(())
            }
            (VectorBuilder::Int16(b), ValueRef::Int16(v)) => {
                b.push(Some(v));
                Ok(())
            }
            (VectorBuilder::Int32(b), ValueRef::Null) => {
                b.push(None);
                Ok(())
            }
            (VectorBuilder::Int32(b), ValueRef::Int32(v)) => {
                b.push(Some(v));
                Ok(())
            }
            (VectorBuilder::Int64(b), ValueRef::Null) => {
                b.push(None);
                Ok(())
            }
            (VectorBuilder::Int64(b), ValueRef::Int64(v)) => {
                b.push(Some(v));
                Ok(())
            }
            (VectorBuilder::Float32(b), ValueRef::Null) => {
                b.push(None);
                Ok(())
            }
            (VectorBuilder::Float32(b), ValueRef::Float32(v)) => {
                b.push(Some(v));
                Ok(())
            }
            (VectorBuilder::Float64(b), ValueRef::Null) => {
                b.push(None);
                Ok(())
            }
            (VectorBuilder::Float64(b), ValueRef::Float64(v)) => {
                b.push(Some(v));
                Ok(())
            }
            (VectorBuilder::String(b), ValueRef::Null) => {
                b.push(None);
                Ok(())
            }
            (VectorBuilder::String(b), ValueRef::String(v)) => {
                b.push(Some(v.to_owned()));
                Ok(())
            }
            (VectorBuilder::Binary(b), ValueRef::Null) => {
                b.push(None);
                Ok(())
            }
            (VectorBuilder::Binary(b), ValueRef::Binary(v)) => {
                b.push(Some(slice_to_vec(v)));
                Ok(())
            }
            (VectorBuilder::Date(b), ValueRef::Null) => {
                b.push(None);
                Ok(())
            }
            (VectorBuilder::Date(b), ValueRef::Date(v)) => {
                b.push(Some(v));
                Ok(())
            }
            (VectorBuilder::Date(b), ValueRef::Int32(v)) => {
                b.push(Some(Date::new(v)));
                Ok(())
            }
            (VectorBuilder::DateTime(b), ValueRef::Null) => {
                b.push(None);
                Ok(())
            }
            (VectorBuilder::DateTime(b), ValueRef::DateTime(v)) => {
                b.push(Some(v));
                Ok(())
            }
            (VectorBuilder::DateTime(b), ValueRef::Int64(v)) => {
                b.push(Some(DateTime::new(v)));
                Ok(())
            }
            (VectorBuilder::Timestamp(b), ValueRef::Null) => {
                b.push(None);
                Ok(())
            }
            (VectorBuilder::Timestamp(b), ValueRef::Timestamp(v)) => {
                b.push(Some(v));
                Ok(())
            }
            (VectorBuilder::Timestamp(b), ValueRef::Int64(v)) => {
                b.push(Some(Timestamp::from_millis(v)));
                Ok(())
            }
            (VectorBuilder::Null(_), _) => Err(cast_error(&ConcreteDataType::Null, value)),
            (VectorBuilder::Boolean(_), _) => Err(cast_error(&ConcreteDataType::Boolean, value)),
            (VectorBuilder::UInt8(_), _) => Err(cast_error(&ConcreteDataType::UInt8, value)),
            (VectorBuilder::UInt16(_), _) => Err(cast_error(&ConcreteDataType::UInt16, value)),
            (VectorBuilder::UInt32(_), _) => Err(cast_error(&ConcreteDataType::UInt32, value)),
            (VectorBuilder::UInt64(_), _) => Err(cast_error(&ConcreteDataType::UInt64, value)),
            (VectorBuilder::Int8(_), _) => Err(cast_error(&ConcreteDataType::Int8, value)),
            (VectorBuilder::Int16(_), _) => Err(cast_error(&ConcreteDataType::Int16, value)),
            (VectorBuilder::Int32(_), _) => Err(cast_error(&ConcreteDataType::Int32, value)),
            (VectorBuilder::Int64(_), _) => Err(cast_error(&ConcreteDataType::Int64, value)),
            (VectorBuilder::Float32(_), _) => Err(cast_error(&ConcreteDataType::Float32, value)),
            (VectorBuilder::Float64(_), _) => Err(cast_error(&ConcreteDataType::Float64, value)),
            (VectorBuilder::String(_), _) => Err(cast_error(&ConcreteDataType::String, value)),
            (VectorBuilder::Binary(_), _) => Err(cast_error(&ConcreteDataType::Binary, value)),
            (VectorBuilder::Date(_), _) => Err(cast_error(&ConcreteDataType::Date, value)),
            (VectorBuilder::DateTime(_), _) => Err(cast_error(&ConcreteDataType::DateTime, value)),
            (VectorBuilder::Timestamp(_), _) => Err(
                cast_error(&ConcreteDataType::Timestamp, value),
            ),
        };
        proof {
            if ref_accepts(old(self).data_type_spec(), value@) {
                assert(self.model() =~= old(self).model().push(
                    pushed_model(old(self).data_type_spec(), value@),
                ));
            }
        }
        r
    }

    /// Appends a null row; the null builder counts it, every other builder
    /// records an absent payload.
    pub fn push_null(&mut self)
        requires
            old(self).model().len() < usize::MAX,
        ensures
            final(self).data_type_spec() == old(self).data_type_spec(),
            final(self).model() == old(self).model().push(ValueModel::Null),
    {
        match &mut *self {
            VectorBuilder::Null(n) => {
                *n = *n + 1;
            }
            VectorBuilder::Boolean(v) => v.push(None),
            VectorBuilder::UInt8(v) => v.push(None),
            VectorBuilder::UInt16(v) => v.push(None),
            VectorBuilder::UInt32(v) => v.push(None),
            VectorBuilder::UInt64(v) => v.push(None),
            VectorBuilder::Int8(v) => v.push(None),
            VectorBuilder::Int16(v) => v.push(None),
            VectorBuilder::Int32(v) => v.push(None),
            VectorBuilder::Int64(v) => v.push(None),
            VectorBuilder::Float32(v) => v.push(None),
            VectorBuilder::Float64(v) => v.push(None),
            VectorBuilder::String(v) => v.push(None),
            VectorBuilder::Binary(v) => v.push(None),
            VectorBuilder::Date(v) => v.push(None),
            VectorBuilder::DateTime(v) => v.push(None),
            VectorBuilder::Timestamp(v) => v.push(None),
        }
        proof {
            assert(self.model() =~= old(self).model().push(ValueModel::Null));
        }
    }

    /// One-shot completion: consumes the builder and yields the immutable
    /// column holding exactly the accumulated rows, in order. A finished
    /// builder is gone; pushing after finishing cannot be expressed.
    pub fn finish(self) -> (v: Vector)
        ensures
            v.data_type_spec() == self.data_type_spec(),
            v.model() == self.model(),
    {
        match self {
            VectorBuilder::Null(n) => Vector::Null(n),
            VectorBuilder::Boolean(b) => Vector::Boolean(b),
            VectorBuilder::UInt8(b) => Vector::UInt8(b),
            VectorBuilder::UInt16(b) => Vector::UInt16(b),
            VectorBuilder::UInt32(b) => Vector::UInt32(b),
            VectorBuilder::UInt64(b) => Vector::UInt64(b),
            VectorBuilder::Int8(b) => Vector::Int8(b),
            VectorBuilder::Int16(b) => Vector::Int16(b),
            VectorBuilder::Int32(b) => Vector::Int32(b),
            VectorBuilder::Int64(b) => Vector::Int64(b),
            VectorBuilder::Float32(b) => Vector::Float32(b),
            VectorBuilder::Float64(b) => Vector::Float64(b),
            VectorBuilder::String(b) => Vector::String(b),
            VectorBuilder::Binary(b) => Vector::Binary(b),
            VectorBuilder::Date(b) => Vector::Date(b),
            VectorBuilder::DateTime(b) => Vector::DateTime(b),
            VectorBuilder::Timestamp(b) => Vector::Timestamp(b),
        }
    }
}

/// Law: a non-null value that exactly matches a builder's type is accepted by
/// the checked insert and stored unchanged, so the finished column returns it
/// as it was given.
pub proof fn lemma_matching_push_identity(t: ConcreteDataType, m: ValueModel)
    requires
        matches_type(t, m),
    ensures
        ref_accepts(t, m),
        pushed_model(t, m) == m,
{
}

/// Law: every row read back from a well-typed column — null or matching the
/// column's type — is accepted by a fresh builder of the same type and stored
/// unchanged, so rebuilding a column from its own rows reproduces it
/// element for element.
pub proof fn lemma_rebuild_roundtrip(t: ConcreteDataType, m: ValueModel)
    requires
        m is Null || matches_type(t, m),
    ensures
        ref_accepts(t, m),
        pushed_model(t, m) == m,
{
}

/// Law: every row of a column is null or matches the column's data type.
pub proof fn lemma_vector_well_typed(v: &Vector)
    ensures
        forall|i: int|
            0 <= i < v.model().len() ==> v.model()[i] is Null || matches_type(
                v.data_type_spec(),
                #[trigger] v.model()[i],
            ),
{
    assert forall|i: int| 0 <= i < v.model().len() implies v.model()[i] is Null || matches_type(
        v.data_type_spec(),
        #[trigger] v.model()[i],
    ) by {
        match v {
            Vector::Null(_) => {}
            Vector::Boolean(_) => {}
            Vector::UInt8(_) => {}
            Vector::UInt16(_) => {}
            Vector::UInt32(_) => {}
            Vector::UInt64(_) => {}
            Vector::Int8(_) => {}
            Vector::Int16(_) => {}
            Vector::Int32(_) => {}
            Vector::Int64(_) => {}
            Vector::Float32(_) => {}
            Vector::Float64(_) => {}
            Vector::String(_) => {}
            Vector::Binary(_) => {}
            Vector::Date(_) => {}
            Vector::DateTime(_) => {}
            Vector::Timestamp(_) => {}
        }
    }
}

} // verus!
