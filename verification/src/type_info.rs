use vstd::prelude::*;

verus! {

/// The SQL data types that values of this driver carry.
#[derive(Debug, Clone, Copy, PartialEq, Eq, Structural)]
pub enum DataType {
    Null,
    Int,
    Float,
    Text,
    Blob,
    Numeric,
    Bool,
    Int64,
    Date,
    Time,
    Datetime,
}

/// Type information attached to arguments, columns and values.
#[derive(Debug, Clone, Copy, PartialEq, Eq, Structural)]
pub struct RXQLiteTypeInfo(pub DataType);

/// The column type tags that the server reports with each row
/// (the same variants, in the same order, as the wire protocol's type tag).
#[derive(Debug, Clone, Copy, PartialEq, Eq, Structural)]
pub enum WireTypeInfo {
    Null,
    Int,
    Float,
    Text,
    Blob,
    Numeric,
    Bool,
    Int64,
    Date,
    Time,
    DateTime,
}

/// The driver data type that stands for a wire type tag: each tag maps to
/// the data type of the same name (`DateTime` to `Datetime`).
pub open spec fn data_type_of(t: WireTypeInfo) -> DataType {
    match t {
        WireTypeInfo::Null => DataType::Null,
        WireTypeInfo::Int => DataType::Int,
        WireTypeInfo::Float => DataType::Float,
        WireTypeInfo::Text => DataType::Text,
        WireTypeInfo::Blob => DataType::Blob,
        WireTypeInfo::Numeric => DataType::Numeric,
        WireTypeInfo::Bool => DataType::Bool,
        WireTypeInfo::Int64 => DataType::Int64,
        WireTypeInfo::Date => DataType::Date,
        WireTypeInfo::Time => DataType::Time,
        WireTypeInfo::DateTime => DataType::Datetime,
    }
}

impl WireTypeInfo {
    /// Converts a wire type tag into the driver's type information.
    pub fn into_rxqlite_type_info(self) -> (ti: RXQLiteTypeInfo)
        ensures
            ti == RXQLiteTypeInfo(data_type_of(self)),
    {
        match self {
            WireTypeInfo::Null => RXQLiteTypeInfo(DataType::Null),
            WireTypeInfo::Int => RXQLiteTypeInfo(DataType::Int),
            WireTypeInfo::Float => RXQLiteTypeInfo(DataType::Float),
            WireTypeInfo::Text => RXQLiteTypeInfo(DataType::Text),
            WireTypeInfo::Blob => RXQLiteTypeInfo(DataType::Blob),
            WireTypeInfo::Numeric => RXQLiteTypeInfo(DataType::Numeric),
            WireTypeInfo::Bool => RXQLiteTypeInfo(DataType::Bool),
            WireTypeInfo::Int64 => RXQLiteTypeInfo(DataType::Int64),
            WireTypeInfo::Date => RXQLiteTypeInfo(DataType::Date),
            WireTypeInfo::Time => RXQLiteTypeInfo(DataType::Time),
            WireTypeInfo::DateTime => RXQLiteTypeInfo(DataType::Datetime),
        }
    }
}

/// Distinct wire type tags never collapse into one driver data type.
pub proof fn lemma_data_type_of_injective(a: WireTypeInfo, b: WireTypeInfo)
    ensures
        data_type_of(a) == data_type_of(b) <==> a == b,
{
}

/// Each wire type tag becomes the driver data type of the same name.
pub proof fn lemma_data_type_by_name()
    ensures
        data_type_of(WireTypeInfo::Null) == DataType::Null,
        data_type_of(WireTypeInfo::Int) == DataType::Int,
        data_type_of(WireTypeInfo::Float) == DataType::Float,
        data_type_of(WireTypeInfo::Text) == DataType::Text,
        data_type_of(WireTypeInfo::Blob) == DataType::Blob,
        data_type_of(WireTypeInfo::Numeric) == DataType::Numeric,
        data_type_of(WireTypeInfo::Bool) == DataType::Bool,
        data_type_of(WireTypeInfo::Int64) == DataType::Int64,
        data_type_of(WireTypeInfo::Date) == DataType::Date,
        data_type_of(WireTypeInfo::Time) == DataType::Time,
        data_type_of(WireTypeInfo::DateTime) == DataType::Datetime,
{
}

} // verus!
