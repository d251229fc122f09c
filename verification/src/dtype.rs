//! Logical types of columns, and fields (a name with a type).

use vstd::prelude::*;

verus! {

/// The unit in which a point in time or a span of time is counted.
#[derive(Debug, Clone, Copy, PartialEq, Eq, Structural)]
pub enum TimeUnit {
    Nanoseconds,
    Microseconds,
    Milliseconds,
}

/// The declared type of the values of a column.
#[derive(Debug, PartialEq, Eq)]
pub enum DataType {
    Boolean,
    UInt8,
    UInt16,
    UInt32,
    UInt64,
    Int8,
    Int16,
    Int32,
    Int64,
    Float32,
    Float64,
    Utf8,
    Binary,
    Date,
    Datetime(TimeUnit),
    Duration(TimeUnit),
    Time,
    /// A list whose elements all have the boxed type.
    List(Box<DataType>),
    /// The type of a column that holds nothing but nulls.
    Null,
    /// Dictionary-encoded strings.
    Categorical,
    /// A type that is not known statically.
    Unknown,
}

impl DataType {
    /// The element type of a list type; `None` for every other type.
    pub open spec fn inner(self) -> Option<DataType> {
        match self {
            DataType::List(inner) => Some(*inner),
            _ => None,
        }
    }

    /// The element type of a list type; `None` for every other type.
    pub fn inner_dtype(&self) -> (r: Option<&DataType>)
        ensures
            r == match self.inner() {
                Some(t) => Some(&t),
                None => None,
            },
    {
        match self {
            DataType::List(inner) => Some(&**inner),
            _ => None,
        }
    }

    /// Whether this is the type `Null`.
    pub fn is_null(&self) -> (r: bool)
        ensures
            r == (*self == DataType::Null),
    {
        match self {
            DataType::Null => true,
            _ => false,
        }
    }

    /// Structural equality of two types.
    pub fn same(&self, other: &DataType) -> (r: bool)
        ensures
            r == (*self == *other),
        decreases *self,
    {
        match (self, other) {
            (DataType::Boolean, DataType::Boolean) => true,
            (DataType::UInt8, DataType::UInt8) => true,
            (DataType::UInt16, DataType::UInt16) => true,
            (DataType::UInt32, DataType::UInt32) => true,
            (DataType::UInt64, DataType::UInt64) => true,
            (DataType::Int8, DataType::Int8) => true,
            (DataType::Int16, DataType::Int16) => true,
            (DataType::Int32, DataType::Int32) => true,
            (DataType::Int64, DataType::Int64) => true,
            (DataType::Float32, DataType::Float32) => true,
            (DataType::Float64, DataType::Float64) => true,
            (DataType::Utf8, DataType::Utf8) => true,
            (DataType::Binary, DataType::Binary) => true,
            (DataType::Date, DataType::Date) => true,
            (DataType::Datetime(a), DataType::Datetime(b)) => *a == *b,
            (DataType::Duration(a), DataType::Duration(b)) => *a == *b,
            (DataType::Time, DataType::Time) => true,
            (DataType::List(a), DataType::List(b)) => a.same(b),
            (DataType::Null, DataType::Null) => true,
            (DataType::Categorical, DataType::Categorical) => true,
            (DataType::Unknown, DataType::Unknown) => true,
            _ => false,
        }
    }
}

impl Clone for DataType {
    fn clone(&self) -> (r: Self)
        ensures
            r == *self,
        decreases *self,
    {
        match self {
            DataType::Boolean => DataType::Boolean,
            DataType::UInt8 => DataType::UInt8,
            DataType::UInt16 => DataType::UInt16,
            DataType::UInt32 => DataType::UInt32,
            DataType::UInt64 => DataType::UInt64,
            DataType::Int8 => DataType::Int8,
            DataType::Int16 => DataType::Int16,
            DataType::Int32 => DataType::Int32,
            DataType::Int64 => DataType::Int64,
            DataType::Float32 => DataType::Float32,
            DataType::Float64 => DataType::Float64,
            DataType::Utf8 => DataType::Utf8,
            DataType::Binary => DataType::Binary,
            DataType::Date => DataType::Date,
            DataType::Datetime(unit) => DataType::Datetime(*unit),
            DataType::Duration(unit) => DataType::Duration(*unit),
            DataType::Time => DataType::Time,
            DataType::List(inner) => {
                let copy = (**inner).clone();
                DataType::List(Box::new(copy))
            },
            DataType::Null => DataType::Null,
            DataType::Categorical => DataType::Categorical,
            DataType::Unknown => DataType::Unknown,
        }
    }
}

/// What a field is, as a mathematical value.
pub struct FieldView {
    pub name: Seq<char>,
    pub dtype: DataType,
}

/// A column's name together with its declared type.
#[derive(Debug, PartialEq, Eq)]
pub struct Field {
    pub name: String,
    pub dtype: DataType,
}

impl View for Field {
    type V = FieldView;

    open spec fn view(&self) -> FieldView {
        FieldView { name: self.name@, dtype: self.dtype }
    }
}

impl Field {
    /// A field of the given name and type.
    pub fn new(name: &str, dtype: DataType) -> (f: Field)
        ensures
            f@ == (FieldView { name: name@, dtype }),
    {
        Field { name: name.to_owned(), dtype }
    }

    /// The name of the field.
    pub fn name(&self) -> (r: &str)
        ensures
            r@ == self@.name,
    {
        self.name.as_str()
    }

    /// The declared type of the field.
    pub fn data_type(&self) -> (r: &DataType)
        ensures
            *r == self@.dtype,
    {
        &self.dtype
    }
}

} // verus!
