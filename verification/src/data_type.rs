//! The type vocabulary of the function catalog.
//!
//! Columnar values carry one of these types. The model keeps exactly what the
//! catalog's rules read: the scalar kind, the temporal unit, whether a
//! timestamp carries a time zone, and the element type of the container kinds.

use vstd::prelude::*;

verus! {

/// Granularity of a temporal type.
#[derive(Clone, Copy, Debug, PartialEq, Eq, Structural)]
pub enum TimeUnit {
    Second,
    Millisecond,
    Microsecond,
    Nanosecond,
}

/// The type of a columnar value.
#[derive(Debug)]
pub enum DataType {
    /// The null type, carrying no values.
    Null,
    Boolean,
    Int8,
    Int16,
    Int32,
    Int64,
    UInt32,
    UInt64,
    Float32,
    Float64,
    /// Text with 32-bit offsets.
    Utf8,
    /// Text with 64-bit offsets.
    LargeUtf8,
    /// Bytes with 32-bit offsets.
    Binary,
    /// Bytes with 64-bit offsets.
    LargeBinary,
    /// Days since the epoch, 32 bits.
    Date32,
    /// Milliseconds since the epoch, 64 bits.
    Date64,
    Time32(TimeUnit),
    Time64(TimeUnit),
    /// An instant at the given granularity; the flag says whether the values
    /// are anchored to a time zone.
    Timestamp(TimeUnit, bool),
    Duration(TimeUnit),
    /// A variable-length list with 32-bit offsets.
    List(Box<DataType>),
    /// A variable-length list with 64-bit offsets.
    LargeList(Box<DataType>),
    /// A list whose every row holds the given number of elements.
    FixedSizeList(Box<DataType>, u32),
    /// Dictionary-encoded values: a key type and the value type it indexes.
    Dictionary(Box<DataType>, Box<DataType>),
}

impl DataType {
    /// Whether this is one of the three list kinds.
    pub open spec fn spec_is_list_kind(self) -> bool {
        match self {
            DataType::List(_) => true,
            DataType::LargeList(_) => true,
            DataType::FixedSizeList(_, _) => true,
            _ => false,
        }
    }

    /// The element type of a list kind.
    pub open spec fn spec_list_element(self) -> DataType
        recommends
            self.spec_is_list_kind(),
    {
        match self {
            DataType::List(e) => *e,
            DataType::LargeList(e) => *e,
            DataType::FixedSizeList(e, _) => *e,
            _ => DataType::Null,
        }
    }

    /// Structural equality, usable from verified code.
    pub fn same_as(&self, other: &DataType) -> (r: bool)
        ensures
            r == (*self == *other),
        decreases *self,
    {
        match (self, other) {
            (DataType::Null, DataType::Null) => true,
            (DataType::Boolean, DataType::Boolean) => true,
            (DataType::Int8, DataType::Int8) => true,
            (DataType::Int16, DataType::Int16) => true,
            (DataType::Int32, DataType::Int32) => true,
            (DataType::Int64, DataType::Int64) => true,
            (DataType::UInt32, DataType::UInt32) => true,
            (DataType::UInt64, DataType::UInt64) => true,
            (DataType::Float32, DataType::Float32) => true,
            (DataType::Float64, DataType::Float64) => true,
            (DataType::Utf8, DataType::Utf8) => true,
            (DataType::LargeUtf8, DataType::LargeUtf8) => true,
            (DataType::Binary, DataType::Binary) => true,
            (DataType::LargeBinary, DataType::LargeBinary) => true,
            (DataType::Date32, DataType::Date32) => true,
            (DataType::Date64, DataType::Date64) => true,
            (DataType::Time32(a), DataType::Time32(b)) => a == b,
            (DataType::Time64(a), DataType::Time64(b)) => a == b,
            (DataType::Timestamp(a, x), DataType::Timestamp(b, y)) => a == b && x == y,
            (DataType::Duration(a), DataType::Duration(b)) => a == b,
            (DataType::List(a), DataType::List(b)) => a.same_as(b),
            (DataType::LargeList(a), DataType::LargeList(b)) => a.same_as(b),
            (DataType::FixedSizeList(a, n), DataType::FixedSizeList(b, m)) => {
                n == m && a.same_as(b)
            },
            (DataType::Dictionary(ka, va), DataType::Dictionary(kb, vb)) => {
                ka.same_as(kb) && va.same_as(vb)
            },
            _ => false,
        }
    }
}

impl Clone for DataType {
    fn clone(&self) -> (r: DataType)
        ensures
            r == *self,
        decreases *self,
    {
        match self {
            DataType::Null => DataType::Null,
            DataType::Boolean => DataType::Boolean,
            DataType::Int8 => DataType::Int8,
            DataType::Int16 => DataType::Int16,
            DataType::Int32 => DataType::Int32,
            DataType::Int64 => DataType::Int64,
            DataType::UInt32 => DataType::UInt32,
            DataType::UInt64 => DataType::UInt64,
            DataType::Float32 => DataType::Float32,
            DataType::Float64 => DataType::Float64,
            DataType::Utf8 => DataType::Utf8,
            DataType::LargeUtf8 => DataType::LargeUtf8,
            DataType::Binary => DataType::Binary,
            DataType::LargeBinary => DataType::LargeBinary,
            DataType::Date32 => DataType::Date32,
            DataType::Date64 => DataType::Date64,
            DataType::Time32(u) => DataType::Time32(*u),
            DataType::Time64(u) => DataType::Time64(*u),
            DataType::Timestamp(u, z) => DataType::Timestamp(*u, *z),
            DataType::Duration(u) => DataType::Duration(*u),
            DataType::List(e) => DataType::List(Box::new((**e).clone())),
            DataType::LargeList(e) => DataType::LargeList(Box::new((**e).clone())),
            DataType::FixedSizeList(e, n) => {
                DataType::FixedSizeList(Box::new((**e).clone()), *n)
            },
            DataType::Dictionary(k, v) => {
                DataType::Dictionary(Box::new((**k).clone()), Box::new((**v).clone()))
            },
        }
    }
}

impl PartialEq for DataType {
    fn eq(&self, other: &DataType) -> (r: bool) {
        self.same_as(other)
    }
}

impl vstd::std_specs::cmp::PartialEqSpecImpl for DataType {
    open spec fn obeys_eq_spec() -> bool {
        true
    }

    open spec fn eq_spec(&self, other: &DataType) -> bool {
        *self == *other
    }
}

} // verus!
