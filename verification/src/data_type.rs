//! The closed registry of logical column types, including recursively nested
//! list types, and the mapping onto the columnar interchange format's type
//! descriptors.

use vstd::prelude::*;

verus! {

/// A coarse per-variant tag: cheap matching key, distinct from full
/// structural equality (two list types with different item types share the
/// same id).
#[derive(Debug, Clone, Copy, PartialEq, Eq, Structural)]
pub enum LogicalTypeId {
    Null,
    Boolean,
    UInt8,
    UInt16,
    UInt32,
    UInt64,
    Int8,
    Int16,
    Int32,
    Int64,
    Float32,
    Float64,
    String,
    Binary,
    Date,
    DateTime,
    Timestamp,
    List,
}

/// One concrete column type: a primitive, or a list of an arbitrary inner
/// type. Equality is structural; two lists are equal exactly when their item
/// types are.
#[derive(Debug, PartialEq, Eq)]
pub enum ConcreteDataType {
    Null,
    Boolean,
    UInt8,
    UInt16,
    UInt32,
    UInt64,
    Int8,
    Int16,
    Int32,
    Int64,
    /// Carries 32-bit float columns; scalar payloads are IEEE 754 bit patterns.
    Float32,
    /// Carries 64-bit float columns; scalar payloads are IEEE 754 bit patterns.
    Float64,
    String,
    Binary,
    Date,
    DateTime,
    Timestamp,
    List(ListType),
}

/// The list datatype: wraps exactly one inner item type.
#[derive(Debug, PartialEq, Eq)]
pub struct ListType {
    /// The type of the list's items.
    pub inner: Box<ConcreteDataType>,
}

impl ListType {
    /// A list type over the given item type.
    pub fn new(datatype: ConcreteDataType) -> (t: ListType)
        ensures
            t.inner == datatype,
    {
        ListType { inner: Box::new(datatype) }
    }

    /// The stable human-readable tag of every list type.
    pub fn name(&self) -> (s: &'static str)
        ensures
            s@ == "List"@,
    {
        "List"
    }

    /// The coarse tag shared by all list types.
    pub fn logical_type_id(&self) -> (id: LogicalTypeId)
        ensures
            id == LogicalTypeId::List,
    {
        LogicalTypeId::List
    }

    /// The interchange descriptor: a nested list of the inner descriptor.
    pub fn as_arrow_type(&self) -> (r: InteropArrayType)
        ensures
            r == ConcreteDataType::List(*self).interop_type(),
    {
        InteropArrayType::List(Box::new(self.inner.as_arrow_type()))
    }
}

impl Default for ListType {
    /// A list of nulls, the least committed list type.
    fn default() -> (t: ListType)
        ensures
            t.inner == ConcreteDataType::Null,
    {
        ListType::new(ConcreteDataType::Null)
    }
}

/// The interchange format's type descriptor corresponding to a
/// [`ConcreteDataType`]. A `List` descriptor stands for a nested field named
/// `item` with nullable items, wrapping the item descriptor.
#[derive(Debug, PartialEq, Eq)]
pub enum InteropArrayType {
    Null,
    Boolean,
    UInt8,
    UInt16,
    UInt32,
    UInt64,
    Int8,
    Int16,
    Int32,
    Int64,
    Float32,
    Float64,
    Utf8,
    Binary,
    Date32,
    Date64,
    TimestampMillisecond,
    List(Box<InteropArrayType>),
}

impl ConcreteDataType {
    /// The interchange descriptor of this type; lists recurse structurally.
    pub open spec fn interop_type(self) -> InteropArrayType
        decreases self,
    {
        match self {
            ConcreteDataType::Null => InteropArrayType::Null,
            ConcreteDataType::Boolean => InteropArrayType::Boolean,
            ConcreteDataType::UInt8 => InteropArrayType::UInt8,
            ConcreteDataType::UInt16 => InteropArrayType::UInt16,
            ConcreteDataType::UInt32 => InteropArrayType::UInt32,
            ConcreteDataType::UInt64 => InteropArrayType::UInt64,
            ConcreteDataType::Int8 => InteropArrayType::Int8,
            ConcreteDataType::Int16 => InteropArrayType::Int16,
            ConcreteDataType::Int32 => InteropArrayType::Int32,
            ConcreteDataType::Int64 => InteropArrayType::Int64,
            ConcreteDataType::Float32 => InteropArrayType::Float32,
            ConcreteDataType::Float64 => InteropArrayType::Float64,
            ConcreteDataType::String => InteropArrayType::Utf8,
            ConcreteDataType::Binary => InteropArrayType::Binary,
            ConcreteDataType::Date => InteropArrayType::Date32,
            ConcreteDataType::DateTime => InteropArrayType::Date64,
            ConcreteDataType::Timestamp => InteropArrayType::TimestampMillisecond,
            ConcreteDataType::List(lt) => InteropArrayType::List(Box::new((*lt.inner).interop_type())),
        }
    }

    /// The stable human-readable tag of this type.
    pub open spec fn name_seq(self) -> Seq<char> {
        match self {
            ConcreteDataType::Null => "Null"@,
            ConcreteDataType::Boolean => "Boolean"@,
            ConcreteDataType::UInt8 => "UInt8"@,
            ConcreteDataType::UInt16 => "UInt16"@,
            ConcreteDataType::UInt32 => "UInt32"@,
            ConcreteDataType::UInt64 => "UInt64"@,
            ConcreteDataType::Int8 => "Int8"@,
            ConcreteDataType::Int16 => "Int16"@,
            ConcreteDataType::Int32 => "Int32"@,
            ConcreteDataType::Int64 => "Int64"@,
            ConcreteDataType::Float32 => "Float32"@,
            ConcreteDataType::Float64 => "Float64"@,
            ConcreteDataType::String => "String"@,
            ConcreteDataType::Binary => "Binary"@,
            ConcreteDataType::Date => "Date"@,
            ConcreteDataType::DateTime => "DateTime"@,
            ConcreteDataType::Timestamp => "Timestamp"@,
            ConcreteDataType::List(_) => "List"@,
        }
    }

    /// Whether this type is carried by a numeric (primitive arithmetic)
    /// column: the integers and the two float widths.
    pub open spec fn is_numeric(self) -> bool {
        match self {
            ConcreteDataType::UInt8
            | ConcreteDataType::UInt16
            | ConcreteDataType::UInt32
            | ConcreteDataType::UInt64
            | ConcreteDataType::Int8
            | ConcreteDataType::Int16
            | ConcreteDataType::Int32
            | ConcreteDataType::Int64
            | ConcreteDataType::Float32
            | ConcreteDataType::Float64 => true,
            _ => false,
        }
    }

    /// Whether this type is carried by a numeric column, decided at run time.
    pub fn is_numeric_type(&self) -> (b: bool)
        ensures
            b == self.is_numeric(),
    {
        matches!(
            self,
            ConcreteDataType::UInt8
                | ConcreteDataType::UInt16
                | ConcreteDataType::UInt32
                | ConcreteDataType::UInt64
                | ConcreteDataType::Int8
                | ConcreteDataType::Int16
                | ConcreteDataType::Int32
                | ConcreteDataType::Int64
                | ConcreteDataType::Float32
                | ConcreteDataType::Float64
        )
    }

    /// The stable human-readable tag of this type.
    pub fn name(&self) -> (s: &'static str)
        ensures
            s@ == self.name_seq(),
    {
        match self {
            ConcreteDataType::Null => "Null",
            ConcreteDataType::Boolean => "Boolean",
            ConcreteDataType::UInt8 => "UInt8",
            ConcreteDataType::UInt16 => "UInt16",
            ConcreteDataType::UInt32 => "UInt32",
            ConcreteDataType::UInt64 => "UInt64",
            ConcreteDataType::Int8 => "Int8",
            ConcreteDataType::Int16 => "Int16",
            ConcreteDataType::Int32 => "Int32",
            ConcreteDataType::Int64 => "Int64",
            ConcreteDataType::Float32 => "Float32",
            ConcreteDataType::Float64 => "Float64",
            ConcreteDataType::String => "String",
            ConcreteDataType::Binary => "Binary",
            ConcreteDataType::Date => "Date",
            ConcreteDataType::DateTime => "DateTime",
            ConcreteDataType::Timestamp => "Timestamp",
            ConcreteDataType::List(_) => "List",
        }
    }

    /// The coarse per-variant tag.
    pub fn logical_type_id(&self) -> (id: LogicalTypeId)
        ensures
            id == self.type_id(),
    {
        match self {
            ConcreteDataType::Null => LogicalTypeId::Null,
            ConcreteDataType::Boolean => LogicalTypeId::Boolean,
            ConcreteDataType::UInt8 => LogicalTypeId::UInt8,
            ConcreteDataType::UInt16 => LogicalTypeId::UInt16,
            ConcreteDataType::UInt32 => LogicalTypeId::UInt32,
            ConcreteDataType::UInt64 => LogicalTypeId::UInt64,
            ConcreteDataType::Int8 => LogicalTypeId::Int8,
            ConcreteDataType::Int16 => LogicalTypeId::Int16,
            ConcreteDataType::Int32 => LogicalTypeId::Int32,
            ConcreteDataType::Int64 => LogicalTypeId::Int64,
            ConcreteDataType::Float32 => LogicalTypeId::Float32,
            ConcreteDataType::Float64 => LogicalTypeId::Float64,
            ConcreteDataType::String => LogicalTypeId::String,
            ConcreteDataType::Binary => LogicalTypeId::Binary,
            ConcreteDataType::Date => LogicalTypeId::Date,
            ConcreteDataType::DateTime => LogicalTypeId::DateTime,
            ConcreteDataType::Timestamp => LogicalTypeId::Timestamp,
            ConcreteDataType::List(_) => LogicalTypeId::List,
        }
    }

    /// The coarse per-variant tag, as a specification.
    pub open spec fn type_id(self) -> LogicalTypeId {
        match self {
            ConcreteDataType::Null => LogicalTypeId::Null,
            ConcreteDataType::Boolean => LogicalTypeId::Boolean,
            ConcreteDataType::UInt8 => LogicalTypeId::UInt8,
            ConcreteDataType::UInt16 => LogicalTypeId::UInt16,
            ConcreteDataType::UInt32 => LogicalTypeId::UInt32,
            ConcreteDataType::UInt64 => LogicalTypeId::UInt64,
            ConcreteDataType::Int8 => LogicalTypeId::Int8,
            ConcreteDataType::Int16 => LogicalTypeId::Int16,
            ConcreteDataType::Int32 => LogicalTypeId::Int32,
            ConcreteDataType::Int64 => LogicalTypeId::Int64,
            ConcreteDataType::Float32 => LogicalTypeId::Float32,
            ConcreteDataType::Float64 => LogicalTypeId::Float64,
            ConcreteDataType::String => LogicalTypeId::String,
            ConcreteDataType::Binary => LogicalTypeId::Binary,
            ConcreteDataType::Date => LogicalTypeId::Date,
            ConcreteDataType::DateTime => LogicalTypeId::DateTime,
            ConcreteDataType::Timestamp => LogicalTypeId::Timestamp,
            ConcreteDataType::List(_) => LogicalTypeId::List,
        }
    }

    /// An owned structural copy, usable in proofs (the derived `Clone` carries
    /// no specification).
    pub fn duplicate(&self) -> (t: ConcreteDataType)
        ensures
            t == *self,
        decreases self,
    {
        match self {
            ConcreteDataType::Null => ConcreteDataType::Null,
            ConcreteDataType::Boolean => ConcreteDataType::Boolean,
            ConcreteDataType::UInt8 => ConcreteDataType::UInt8,
            ConcreteDataType::UInt16 => ConcreteDataType::UInt16,
            ConcreteDataType::UInt32 => ConcreteDataType::UInt32,
            ConcreteDataType::UInt64 => ConcreteDataType::UInt64,
            ConcreteDataType::Int8 => ConcreteDataType::Int8,
            ConcreteDataType::Int16 => ConcreteDataType::Int16,
            ConcreteDataType::Int32 => ConcreteDataType::Int32,
            ConcreteDataType::Int64 => ConcreteDataType::Int64,
            ConcreteDataType::Float32 => ConcreteDataType::Float32,
            ConcreteDataType::Float64 => ConcreteDataType::Float64,
            ConcreteDataType::String => ConcreteDataType::String,
            ConcreteDataType::Binary => ConcreteDataType::Binary,
            ConcreteDataType::Date => ConcreteDataType::Date,
            ConcreteDataType::DateTime => ConcreteDataType::DateTime,
            ConcreteDataType::Timestamp => ConcreteDataType::Timestamp,
            ConcreteDataType::List(lt) => ConcreteDataType::List(
                ListType { inner: Box::new(lt.inner.duplicate()) },
            ),
        }
    }

    /// The interchange descriptor of this type.
    pub fn as_arrow_type(&self) -> (r: InteropArrayType)
        ensures
            r == self.interop_type(),
        decreases self,
    {
        match self {
            ConcreteDataType::Null => InteropArrayType::Null,
            ConcreteDataType::Boolean => InteropArrayType::Boolean,
            ConcreteDataType::UInt8 => InteropArrayType::UInt8,
            ConcreteDataType::UInt16 => InteropArrayType::UInt16,
            ConcreteDataType::UInt32 => InteropArrayType::UInt32,
            ConcreteDataType::UInt64 => InteropArrayType::UInt64,
            ConcreteDataType::Int8 => InteropArrayType::Int8,
            ConcreteDataType::Int16 => InteropArrayType::Int16,
            ConcreteDataType::Int32 => InteropArrayType::Int32,
            ConcreteDataType::Int64 => InteropArrayType::Int64,
            ConcreteDataType::Float32 => InteropArrayType::Float32,
            ConcreteDataType::Float64 => InteropArrayType::Float64,
            ConcreteDataType::String => InteropArrayType::Utf8,
            ConcreteDataType::Binary => InteropArrayType::Binary,
            ConcreteDataType::Date => InteropArrayType::Date32,
            ConcreteDataType::DateTime => InteropArrayType::Date64,
            ConcreteDataType::Timestamp => InteropArrayType::TimestampMillisecond,
            ConcreteDataType::List(lt) => InteropArrayType::List(Box::new(lt.inner.as_arrow_type())),
        }
    }

    /// The null datatype.
    pub fn null_datatype() -> (t: ConcreteDataType)
        ensures
            t == ConcreteDataType::Null,
    {
        ConcreteDataType::Null
    }

    /// The boolean datatype.
    pub fn boolean_datatype() -> (t: ConcreteDataType)
        ensures
            t == ConcreteDataType::Boolean,
    {
        ConcreteDataType::Boolean
    }

    /// The unsigned 8-bit integer datatype.
    pub fn uint8_datatype() -> (t: ConcreteDataType)
        ensures
            t == ConcreteDataType::UInt8,
    {
        ConcreteDataType::UInt8
    }

    /// The unsigned 16-bit integer datatype.
    pub fn uint16_datatype() -> (t: ConcreteDataType)
        ensures
            t == ConcreteDataType::UInt16,
    {
        ConcreteDataType::UInt16
    }

    /// The unsigned 32-bit integer datatype.
    pub fn uint32_datatype() -> (t: ConcreteDataType)
        ensures
            t == ConcreteDataType::UInt32,
    {
        ConcreteDataType::UInt32
    }

    /// The unsigned 64-bit integer datatype.
    pub fn uint64_datatype() -> (t: ConcreteDataType)
        ensures
            t == ConcreteDataType::UInt64,
    {
        ConcreteDataType::UInt64
    }

    /// The signed 8-bit integer datatype.
    pub fn int8_datatype() -> (t: ConcreteDataType)
        ensures
            t == ConcreteDataType::Int8,
    {
        ConcreteDataType::Int8
    }

    /// The signed 16-bit integer datatype.
    pub fn int16_datatype() -> (t: ConcreteDataType)
        ensures
            t == ConcreteDataType::Int16,
    {
        ConcreteDataType::Int16
    }

    /// The signed 32-bit integer datatype.
    pub fn int32_datatype() -> (t: ConcreteDataType)
        ensures
            t == ConcreteDataType::Int32,
    {
        ConcreteDataType::Int32
    }

    /// The signed 64-bit integer datatype.
    pub fn int64_datatype() -> (t: ConcreteDataType)
        ensures
            t == ConcreteDataType::Int64,
    {
        ConcreteDataType::Int64
    }

    /// The 32-bit float datatype.
    pub fn float32_datatype() -> (t: ConcreteDataType)
        ensures
            t == ConcreteDataType::Float32,
    {
        ConcreteDataType::Float32
    }

    /// The 64-bit float datatype.
    pub fn float64_datatype() -> (t: ConcreteDataType)
        ensures
            t == ConcreteDataType::Float64,
    {
        ConcreteDataType::Float64
    }

    /// The string datatype.
    pub fn string_datatype() -> (t: ConcreteDataType)
        ensures
            t == ConcreteDataType::String,
    {
        ConcreteDataType::String
    }

    /// The binary datatype.
    pub fn binary_datatype() -> (t: ConcreteDataType)
        ensures
            t == ConcreteDataType::Binary,
    {
        ConcreteDataType::Binary
    }

    /// The date datatype.
    pub fn date_datatype() -> (t: ConcreteDataType)
        ensures
            t == ConcreteDataType::Date,
    {
        ConcreteDataType::Date
    }

    /// The datetime datatype.
    pub fn datetime_datatype() -> (t: ConcreteDataType)
        ensures
            t == ConcreteDataType::DateTime,
    {
        ConcreteDataType::DateTime
    }

    /// The millisecond timestamp datatype.
    pub fn timestamp_datatype() -> (t: ConcreteDataType)
        ensures
            t == ConcreteDataType::Timestamp,
    {
        ConcreteDataType::Timestamp
    }

    /// A list datatype over the given item type.
    pub fn list_datatype(inner: ConcreteDataType) -> (t: ConcreteDataType)
        ensures
            (t == ConcreteDataType::List(ListType { inner: Box::new(inner) })),
    {
        ConcreteDataType::List(ListType::new(inner))
    }
}

} // verus!
