//! Tagged scalar values in owned and borrowed form, their specification-level
//! models, and the matching rules between values and column types.

use crate::data_type::{ConcreteDataType, ListType};
use crate::text::{dec_str, dec_str_signed, push_dec_i64, push_dec_u64};
use vstd::prelude::*;
use vstd::string::StringExecFns;

verus! {

/// A calendar date, counted in days.
#[derive(Debug, Clone, Copy, PartialEq, Eq, Hash, Structural)]
pub struct Date {
    pub val: i32,
}

impl Date {
    /// A date from its day count.
    pub fn new(val: i32) -> (d: Date)
        ensures
            d.val == val,
    {
        Date { val }
    }

    /// The day count.
    pub fn val(&self) -> (v: i32)
        ensures
            v == self.val,
    {
        self.val
    }
}

/// A date and time, counted in milliseconds.
#[derive(Debug, Clone, Copy, PartialEq, Eq, Hash, Structural)]
pub struct DateTime {
    pub val: i64,
}

impl DateTime {
    /// A datetime from its millisecond count.
    pub fn new(val: i64) -> (d: DateTime)
        ensures
            d.val == val,
    {
        DateTime { val }
    }

    /// The millisecond count.
    pub fn val(&self) -> (v: i64)
        ensures
            v == self.val,
    {
        self.val
    }
}

/// A point in time, counted in milliseconds since the epoch.
#[derive(Debug, Clone, Copy, PartialEq, Eq, Hash, Structural)]
pub struct Timestamp {
    pub millis: i64,
}

impl Timestamp {
    /// A timestamp from milliseconds since the epoch.
    pub fn from_millis(millis: i64) -> (t: Timestamp)
        ensures
            t.millis == millis,
    {
        Timestamp { millis }
    }

    /// The millisecond count.
    pub fn value(&self) -> (v: i64)
        ensures
            v == self.millis,
    {
        self.millis
    }
}

/// An owned scalar: one arm per primitive column type, a list arm, and a
/// type-polymorphic null. Float arms carry IEEE 754 bit patterns, which keeps
/// them comparable and hashable.
#[derive(Debug, PartialEq)]
pub enum Value {
    Null,
    Boolean(bool),
    UInt8(u8),
    UInt16(u16),
    UInt32(u32),
    UInt64(u64),
    Int8(i8),
    Int16(i16),
    Int32(i32),
    Int64(i64),
    /// The bit pattern of a 32-bit IEEE 754 float.
    Float32(u32),
    /// The bit pattern of a 64-bit IEEE 754 float.
    Float64(u64),
    String(String),
    Binary(Vec<u8>),
    Date(Date),
    DateTime(DateTime),
    Timestamp(Timestamp),
    List(ListValue),
}

/// A list scalar: optional contents plus the item type, so an empty or absent
/// list still knows what it holds.
#[derive(Debug, PartialEq)]
pub struct ListValue {
    /// The items, or nothing for an absent list.
    pub items: Option<Vec<Value>>,
    /// The type of the items.
    pub datatype: ConcreteDataType,
}

impl ListValue {
    /// A list scalar from its optional items and its item type.
    pub fn new(items: Option<Vec<Value>>, datatype: ConcreteDataType) -> (v: ListValue)
        ensures
            v.items == items,
            v.datatype == datatype,
    {
        ListValue { items, datatype }
    }
}

/// A borrowed scalar: structurally the owned form, with borrowed payloads for
/// the variable-length arms.
#[derive(Debug, Clone, Copy, PartialEq)]
pub enum ValueRef<'a> {
    Null,
    Boolean(bool),
    UInt8(u8),
    UInt16(u16),
    UInt32(u32),
    UInt64(u64),
    Int8(i8),
    Int16(i16),
    Int32(i32),
    Int64(i64),
    /// The bit pattern of a 32-bit IEEE 754 float.
    Float32(u32),
    /// The bit pattern of a 64-bit IEEE 754 float.
    Float64(u64),
    String(&'a str),
    Binary(&'a [u8]),
    Date(Date),
    DateTime(DateTime),
    Timestamp(Timestamp),
    List(&'a ListValue),
}

/// The specification-level model of a scalar: payloads are mathematical
/// sequences, so owned and borrowed forms share one model.
pub enum ValueModel {
    Null,
    Boolean(bool),
    UInt8(u8),
    UInt16(u16),
    UInt32(u32),
    UInt64(u64),
    Int8(i8),
    Int16(i16),
    Int32(i32),
    Int64(i64),
    Float32(u32),
    Float64(u64),
    String(Seq<char>),
    Binary(Seq<u8>),
    Date(i32),
    DateTime(i64),
    Timestamp(i64),
    List(Option<Seq<Value>>, ConcreteDataType),
}

impl View for Value {
    type V = ValueModel;

    open spec fn view(&self) -> ValueModel {
        match *self {
            Value::Null => ValueModel::Null,
            Value::Boolean(v) => ValueModel::Boolean(v),
            Value::UInt8(v) => ValueModel::UInt8(v),
            Value::UInt16(v) => ValueModel::UInt16(v),
            Value::UInt32(v) => ValueModel::UInt32(v),
            Value::UInt64(v) => ValueModel::UInt64(v),
            Value::Int8(v) => ValueModel::Int8(v),
            Value::Int16(v) => ValueModel::Int16(v),
            Value::Int32(v) => ValueModel::Int32(v),
            Value::Int64(v) => ValueModel::Int64(v),
            Value::Float32(v) => ValueModel::Float32(v),
            Value::Float64(v) => ValueModel::Float64(v),
            Value::String(ref v) => ValueModel::String(v@),
            Value::Binary(ref v) => ValueModel::Binary(v@),
            Value::Date(v) => ValueModel::Date(v.val),
            Value::DateTime(v) => ValueModel::DateTime(v.val),
            Value::Timestamp(v) => ValueModel::Timestamp(v.millis),
            Value::List(ref v) => ValueModel::List(
                match v.items {
                    Option::None => Option::None,
                    Option::Some(items) => Option::Some(items@),
                },
                v.datatype,
            ),
        }
    }
}

impl<'a> View for ValueRef<'a> {
    type V = ValueModel;

    open spec fn view(&self) -> ValueModel {
        match *self {
            ValueRef::Null => ValueModel::Null,
            ValueRef::Boolean(v) => ValueModel::Boolean(v),
            ValueRef::UInt8(v) => ValueModel::UInt8(v),
            ValueRef::UInt16(v) => ValueModel::UInt16(v),
            ValueRef::UInt32(v) => ValueModel::UInt32(v),
            ValueRef::UInt64(v) => ValueModel::UInt64(v),
            ValueRef::Int8(v) => ValueModel::Int8(v),
            ValueRef::Int16(v) => ValueModel::Int16(v),
            ValueRef::Int32(v) => ValueModel::Int32(v),
            ValueRef::Int64(v) => ValueModel::Int64(v),
            ValueRef::Float32(v) => ValueModel::Float32(v),
            ValueRef::Float64(v) => ValueModel::Float64(v),
            ValueRef::String(v) => ValueModel::String(v@),
            ValueRef::Binary(v) => ValueModel::Binary(v@),
            ValueRef::Date(v) => ValueModel::Date(v.val),
            ValueRef::DateTime(v) => ValueModel::DateTime(v.val),
            ValueRef::Timestamp(v) => ValueModel::Timestamp(v.millis),
            ValueRef::List(v) => ValueModel::List(
                match v.items {
                    Option::None => Option::None,
                    Option::Some(items) => Option::Some(items@),
                },
                v.datatype,
            ),
        }
    }
}

impl Value {
    /// Whether this is the null scalar.
    pub fn is_null(&self) -> (b: bool)
        ensures
            b == (self@ is Null),
    {
        matches!(self, Value::Null)
    }

    /// This scalar, borrowed.
    pub fn as_value_ref(&self) -> (r: ValueRef<'_>)
        ensures
            r@ == self@,
    {
        match self {
            Value::Null => ValueRef::Null,
            Value::Boolean(v) => ValueRef::Boolean(*v),
            Value::UInt8(v) => ValueRef::UInt8(*v),
            Value::UInt16(v) => ValueRef::UInt16(*v),
            Value::UInt32(v) => ValueRef::UInt32(*v),
            Value::UInt64(v) => ValueRef::UInt64(*v),
            Value::Int8(v) => ValueRef::Int8(*v),
            Value::Int16(v) => ValueRef::Int16(*v),
            Value::Int32(v) => ValueRef::Int32(*v),
            Value::Int64(v) => ValueRef::Int64(*v),
            Value::Float32(v) => ValueRef::Float32(*v),
            Value::Float64(v) => ValueRef::Float64(*v),
            Value::String(v) => ValueRef::String(v.as_str()),
            Value::Binary(v) => ValueRef::Binary(v.as_slice()),
            Value::Date(v) => ValueRef::Date(*v),
            Value::DateTime(v) => ValueRef::DateTime(*v),
            Value::Timestamp(v) => ValueRef::Timestamp(*v),
            Value::List(v) => ValueRef::List(v),
        }
    }
}

impl<'a> ValueRef<'a> {
    /// Whether this is the null scalar.
    pub fn is_null(&self) -> (b: bool)
        ensures
            b == (self@ is Null),
    {
        matches!(self, ValueRef::Null)
    }

    /// Materializes an owned copy of this scalar. List scalars stay out:
    /// their owned form travels whole through the list builder instead of
    /// being copied element by element.
    pub fn to_value(&self) -> (v: Value)
        requires
            !(self@ is List),
        ensures
            v@ == self@,
    {
        match *self {
            ValueRef::Null => Value::Null,
            ValueRef::Boolean(v) => Value::Boolean(v),
            ValueRef::UInt8(v) => Value::UInt8(v),
            ValueRef::UInt16(v) => Value::UInt16(v),
            ValueRef::UInt32(v) => Value::UInt32(v),
            ValueRef::UInt64(v) => Value::UInt64(v),
            ValueRef::Int8(v) => Value::Int8(v),
            ValueRef::Int16(v) => Value::Int16(v),
            ValueRef::Int32(v) => Value::Int32(v),
            ValueRef::Int64(v) => Value::Int64(v),
            ValueRef::Float32(v) => Value::Float32(v),
            ValueRef::Float64(v) => Value::Float64(v),
            ValueRef::String(v) => Value::String(v.to_owned()),
            ValueRef::Binary(v) => Value::Binary(slice_to_vec(v)),
            ValueRef::Date(v) => Value::Date(v),
            ValueRef::DateTime(v) => Value::DateTime(v),
            ValueRef::Timestamp(v) => Value::Timestamp(v),
            ValueRef::List(_) => vstd::pervasive::unreached(),
        }
    }
}

impl ConcreteDataType {
    /// The canonical zero scalar of this type: false, zero, an empty payload;
    /// a list type defaults to the typed absent list, not to null.
    pub open spec fn default_model(self) -> ValueModel {
        match self {
            ConcreteDataType::Null => ValueModel::Null,
            ConcreteDataType::Boolean => ValueModel::Boolean(false),
            ConcreteDataType::UInt8 => ValueModel::UInt8(0),
            ConcreteDataType::UInt16 => ValueModel::UInt16(0),
            ConcreteDataType::UInt32 => ValueModel::UInt32(0),
            ConcreteDataType::UInt64 => ValueModel::UInt64(0),
            ConcreteDataType::Int8 => ValueModel::Int8(0),
            ConcreteDataType::Int16 => ValueModel::Int16(0),
            ConcreteDataType::Int32 => ValueModel::Int32(0),
            ConcreteDataType::Int64 => ValueModel::Int64(0),
            ConcreteDataType::Float32 => ValueModel::Float32(0),
            ConcreteDataType::Float64 => ValueModel::Float64(0),
            ConcreteDataType::String => ValueModel::String(Seq::<char>::empty()),
            ConcreteDataType::Binary => ValueModel::Binary(Seq::<u8>::empty()),
            ConcreteDataType::Date => ValueModel::Date(0),
            ConcreteDataType::DateTime => ValueModel::DateTime(0),
            ConcreteDataType::Timestamp => ValueModel::Timestamp(0),
            ConcreteDataType::List(lt) => ValueModel::List(Option::None, *lt.inner),
        }
    }

    /// The canonical zero scalar of this type.
    pub fn default_value(&self) -> (v: Value)
        ensures
            v@ == self.default_model(),
    {
        match self {
            ConcreteDataType::Null => Value::Null,
            ConcreteDataType::Boolean => Value::Boolean(false),
            ConcreteDataType::UInt8 => Value::UInt8(0),
            ConcreteDataType::UInt16 => Value::UInt16(0),
            ConcreteDataType::UInt32 => Value::UInt32(0),
            ConcreteDataType::UInt64 => Value::UInt64(0),
            ConcreteDataType::Int8 => Value::Int8(0),
            ConcreteDataType::Int16 => Value::Int16(0),
            ConcreteDataType::Int32 => Value::Int32(0),
            ConcreteDataType::Int64 => Value::Int64(0),
            ConcreteDataType::Float32 => Value::Float32(0),
            ConcreteDataType::Float64 => Value::Float64(0),
            ConcreteDataType::String => Value::String(String::new()),
            ConcreteDataType::Binary => Value::Binary(Vec::new()),
            ConcreteDataType::Date => Value::Date(Date::new(0)),
            ConcreteDataType::DateTime => Value::DateTime(DateTime::new(0)),
            ConcreteDataType::Timestamp => Value::Timestamp(Timestamp::from_millis(0)),
            ConcreteDataType::List(lt) => Value::List(
                ListValue::new(None, lt.inner.duplicate()),
            ),
        }
    }
}

impl ListType {
    /// The canonical zero scalar of a list type: the typed absent list.
    pub fn default_value(&self) -> (v: Value)
        ensures
            v@ == ValueModel::List(Option::None, *self.inner),
    {
        Value::List(ListValue::new(None, self.inner.duplicate()))
    }
}

/// Whether a non-null scalar model matches a column type exactly, with no
/// widening or coercion. A list value matches a list type exactly when the
/// item types are equal.
pub open spec fn matches_type(t: ConcreteDataType, m: ValueModel) -> bool {
    match (t, m) {
        (ConcreteDataType::Boolean, ValueModel::Boolean(_)) => true,
        (ConcreteDataType::UInt8, ValueModel::UInt8(_)) => true,
        (ConcreteDataType::UInt16, ValueModel::UInt16(_)) => true,
        (ConcreteDataType::UInt32, ValueModel::UInt32(_)) => true,
        (ConcreteDataType::UInt64, ValueModel::UInt64(_)) => true,
        (ConcreteDataType::Int8, ValueModel::Int8(_)) => true,
        (ConcreteDataType::Int16, ValueModel::Int16(_)) => true,
        (ConcreteDataType::Int32, ValueModel::Int32(_)) => true,
        (ConcreteDataType::Int64, ValueModel::Int64(_)) => true,
        (ConcreteDataType::Float32, ValueModel::Float32(_)) => true,
        (ConcreteDataType::Float64, ValueModel::Float64(_)) => true,
        (ConcreteDataType::String, ValueModel::String(_)) => true,
        (ConcreteDataType::Binary, ValueModel::Binary(_)) => true,
        (ConcreteDataType::Date, ValueModel::Date(_)) => true,
        (ConcreteDataType::DateTime, ValueModel::DateTime(_)) => true,
        (ConcreteDataType::Timestamp, ValueModel::Timestamp(_)) => true,
        (ConcreteDataType::List(lt), ValueModel::List(_, dt)) => dt == lt.inner,
        _ => false,
    }
}

/// The documented widenings: date and datetime builders accept their raw
/// integer encodings, and timestamp builders accept raw milliseconds.
pub open spec fn legacy_coerces(t: ConcreteDataType, m: ValueModel) -> bool {
    ||| (t == ConcreteDataType::Date && m is Int32)
    ||| (t == ConcreteDataType::DateTime && m is Int64)
    ||| (t == ConcreteDataType::Timestamp && m is Int64)
}

/// Whether a non-null scalar model is accepted by a builder of type `t`.
pub open spec fn coerces(t: ConcreteDataType, m: ValueModel) -> bool {
    matches_type(t, m) || legacy_coerces(t, m)
}

/// What a builder of type `t` stores for an accepted non-null model: legacy
/// integer encodings become the semantic value, everything else is unchanged.
pub open spec fn stored_model(t: ConcreteDataType, m: ValueModel) -> ValueModel {
    match (t, m) {
        (ConcreteDataType::Date, ValueModel::Int32(v)) => ValueModel::Date(v),
        (ConcreteDataType::DateTime, ValueModel::Int64(v)) => ValueModel::DateTime(v),
        (ConcreteDataType::Timestamp, ValueModel::Int64(v)) => ValueModel::Timestamp(v),
        _ => m,
    }
}

/// What lands in a column of type `t` when `m` is pushed: nulls stay null,
/// accepted values are stored by [`stored_model`].
pub open spec fn pushed_model(t: ConcreteDataType, m: ValueModel) -> ValueModel {
    if m is Null {
        ValueModel::Null
    } else {
        stored_model(t, m)
    }
}

/// What the checked insert accepts: the null scalar, or a value that matches
/// the builder's type or falls under a documented widening.
pub open spec fn ref_accepts(t: ConcreteDataType, m: ValueModel) -> bool {
    m is Null || coerces(t, m)
}

/// An owned copy of a byte buffer, byte for byte.
pub(crate) fn clone_bytes(v: &Vec<u8>) -> (r: Vec<u8>)
    ensures
        r@ == v@,
{
    let r = v.clone();
    proof {
        assert forall|i: int| 0 <= i < v@.len() implies r@[i] == v@[i] by {
            assert(cloned::<u8>(v@[i], r@[i]));
        }
        assert(r@ =~= v@);
    }
    r
}

/// An owned copy of a borrowed byte slice, byte for byte.
pub(crate) fn slice_to_vec(s: &[u8]) -> (r: Vec<u8>)
    ensures
        r@ == s@,
{
    let mut r: Vec<u8> = Vec::new();
    let mut i: usize = 0;
    while i < s.len()
        invariant
            i <= s@.len(),
            r@ == s@.subrange(0, i as int),
        decreases s@.len() - i,
    {
        let b = s[i];
        r.push(b);
        i = i + 1;
        proof {
            assert(r@ =~= s@.subrange(0, i as int));
        }
    }
    proof {
        assert(r@ =~= s@);
    }
    r
}

/// The textual description of a scalar model, as carried in cast errors.
pub open spec fn describe(m: ValueModel) -> Seq<char> {
    match m {
        ValueModel::Null => "Null"@,
        ValueModel::Boolean(b) => if b {
            "Boolean(true)"@
        } else {
            "Boolean(false)"@
        },
        ValueModel::UInt8(v) => "UInt8("@ + dec_str(v as nat) + ")"@,
        ValueModel::UInt16(v) => "UInt16("@ + dec_str(v as nat) + ")"@,
        ValueModel::UInt32(v) => "UInt32("@ + dec_str(v as nat) + ")"@,
        ValueModel::UInt64(v) => "UInt64("@ + dec_str(v as nat) + ")"@,
        ValueModel::Int8(v) => "Int8("@ + dec_str_signed(v as int) + ")"@,
        ValueModel::Int16(v) => "Int16("@ + dec_str_signed(v as int) + ")"@,
        ValueModel::Int32(v) => "Int32("@ + dec_str_signed(v as int) + ")"@,
        ValueModel::Int64(v) => "Int64("@ + dec_str_signed(v as int) + ")"@,
        ValueModel::Float32(v) => "Float32(bits "@ + dec_str(v as nat) + ")"@,
        ValueModel::Float64(v) => "Float64(bits "@ + dec_str(v as nat) + ")"@,
        ValueModel::String(s) => "String(\""@ + s + "\")"@,
        ValueModel::Binary(b) => "Binary("@ + dec_str(b.len()) + " bytes)"@,
        ValueModel::Date(v) => "Date("@ + dec_str_signed(v as int) + ")"@,
        ValueModel::DateTime(v) => "DateTime("@ + dec_str_signed(v as int) + ")"@,
        ValueModel::Timestamp(v) => "Timestamp("@ + dec_str_signed(v as int) + ")"@,
        ValueModel::List(_, _) => "List"@,
    }
}

/// Renders the description of a borrowed scalar, exactly as [`describe`]
/// states it.
pub fn describe_ref(value: ValueRef<'_>) -> (s: String)
    ensures
        s@ == describe(value@),
{
    match value {
        ValueRef::Null => String::from_str("Null"),
        ValueRef::Boolean(b) => {
            if b {
                String::from_str("Boolean(true)")
            } else {
                String::from_str("Boolean(false)")
            }
        }
        ValueRef::UInt8(v) => {
            let mut s = String::from_str("UInt8(");
            push_dec_u64(&mut s, v as u64);
            s.append(")");
            proof {
                assert(s@ =~= describe(value@));
            }
            s
        }
        ValueRef::UInt16(v) => {
            let mut s = String::from_str("UInt16(");
            push_dec_u64(&mut s, v as u64);
            s.append(")");
            proof {
                assert(s@ =~= describe(value@));
            }
            s
        }
        ValueRef::UInt32(v) => {
            let mut s = String::from_str("UInt32(");
            push_dec_u64(&mut s, v as u64);
            s.append(")");
            proof {
                assert(s@ =~= describe(value@));
            }
            s
        }
        ValueRef::UInt64(v) => {
            let mut s = String::from_str("UInt64(");
            push_dec_u64(&mut s, v);
            s.append(")");
            proof {
                assert(s@ =~= describe(value@));
            }
            s
        }
        ValueRef::Int8(v) => {
            let mut s = String::from_str("Int8(");
            push_dec_i64(&mut s, v as i64);
            s.append(")");
            proof {
                assert(s@ =~= describe(value@));
            }
            s
        }
        ValueRef::Int16(v) => {
            let mut s = String::from_str("Int16(");
            push_dec_i64(&mut s, v as i64);
            s.append(")");
            proof {
                assert(s@ =~= describe(value@));
            }
            s
        }
        ValueRef::Int32(v) => {
            let mut s = String::from_str("Int32(");
            push_dec_i64(&mut s, v as i64);
            s.append(")");
            proof {
                assert(s@ =~= describe(value@));
            }
            s
        }
        ValueRef::Int64(v) => {
            let mut s = String::from_str("Int64(");
            push_dec_i64(&mut s, v);
            s.append(")");
            proof {
                assert(s@ =~= describe(value@));
            }
            s
        }
        ValueRef::Float32(v) => {
            let mut s = String::from_str("Float32(bits ");
            push_dec_u64(&mut s, v as u64);
            s.append(")");
            proof {
                assert(s@ =~= describe(value@));
            }
            s
        }
        ValueRef::Float64(v) => {
            let mut s = String::from_str("Float64(bits ");
            push_dec_u64(&mut s, v);
            s.append(")");
            proof {
                assert(s@ =~= describe(value@));
            }
            s
        }
        ValueRef::String(v) => {
            let mut s = String::from_str("String(\"");
            s.append(v);
            s.append("\")");
            proof {
                assert(s@ =~= describe(value@));
            }
            s
        }
        ValueRef::Binary(v) => {
            let mut s = String::from_str("Binary(");
            push_dec_u64(&mut s, v.len() as u64);
            s.append(" bytes)");
            proof {
                assert(s@ =~= describe(value@));
            }
            s
        }
        ValueRef::Date(v) => {
            let mut s = String::from_str("Date(");
            push_dec_i64(&mut s, v.val as i64);
            s.append(")");
            proof {
                assert(s@ =~= describe(value@));
            }
            s
        }
        ValueRef::DateTime(v) => {
            let mut s = String::from_str("DateTime(");
            push_dec_i64(&mut s, v.val);
            s.append(")");
            proof {
                assert(s@ =~= describe(value@));
            }
            s
        }
        ValueRef::Timestamp(v) => {
            let mut s = String::from_str("Timestamp(");
            push_dec_i64(&mut s, v.millis);
            s.append(")");
            proof {
                assert(s@ =~= describe(value@));
            }
            s
        }
        ValueRef::List(_) => String::from_str("List"),
    }
}

} // verus!
