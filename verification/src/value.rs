use vstd::prelude::*;
use crate::type_info::RXQLiteTypeInfo;

verus! {

/// A value as it travels between the driver and the server: arguments bound
/// to a query and the fields of the rows that come back.
///
/// Floating-point payloads are held by their IEEE-754 bit patterns and
/// timestamps by seconds since the Unix epoch and the nanoseconds past that
/// second, so that every variant is a plain value.
#[derive(Debug, Clone, PartialEq, Eq)]
pub enum SqlValue {
    Null,
    Bool(bool),
    Int(i64),
    F32Bits(u32),
    F64Bits(u64),
    String(String),
    DateTime { secs: i64, nanos: u32 },
    Blob(Vec<u8>),
}

/// Why a value could not be read as the requested Rust type.
#[derive(Debug, Clone, Copy, PartialEq, Eq, Structural)]
pub enum DecodeError {
    /// The value is SQL `NULL`.
    UnexpectedNull,
    /// The value holds another kind of data than the one requested.
    MismatchedType,
}

/// A value of a fetched row together with the type of its column.
#[derive(Debug, Clone)]
pub struct RXQLiteValue {
    pub value: SqlValue,
    pub type_info: RXQLiteTypeInfo,
}

/// What reading a value as an integer gives.
pub open spec fn spec_int(v: SqlValue) -> Result<i64, DecodeError> {
    match v {
        SqlValue::Int(i) => Ok(i),
        SqlValue::Null => Err(DecodeError::UnexpectedNull),
        _ => Err(DecodeError::MismatchedType),
    }
}

/// What reading a value as text gives.
pub open spec fn spec_text(v: SqlValue) -> Result<Seq<char>, DecodeError> {
    match v {
        SqlValue::String(s) => Ok(s@),
        SqlValue::Null => Err(DecodeError::UnexpectedNull),
        _ => Err(DecodeError::MismatchedType),
    }
}

impl RXQLiteValue {
    /// Pairs a value with the type information of its column.
    pub fn new(value: SqlValue, type_info: RXQLiteTypeInfo) -> (v: RXQLiteValue)
        ensures
            v.value == value,
            v.type_info == type_info,
    {
        RXQLiteValue { value, type_info }
    }

    /// Whether the value is SQL `NULL`.
    pub fn is_null(&self) -> (b: bool)
        ensures
            b == (self.value is Null),
    {
        match &self.value {
            SqlValue::Null => true,
            _ => false,
        }
    }

    /// Reads the value as a 64-bit integer (the accessor that `bool` decoding uses).
    pub fn as_int(&self) -> (r: Result<i64, DecodeError>)
        ensures
            r == spec_int(self.value),
    {
        match &self.value {
            SqlValue::Int(i) => Ok(*i),
            SqlValue::Null => Err(DecodeError::UnexpectedNull),
            _ => Err(DecodeError::MismatchedType),
        }
    }

    /// Reads the value as text.
    pub fn as_text(&self) -> (r: Result<String, DecodeError>)
        ensures
            match r {
                Ok(s) => spec_text(self.value) == Ok::<Seq<char>, DecodeError>(s@),
                Err(e) => spec_text(self.value) == Err::<Seq<char>, DecodeError>(e),
            },
    {
        match &self.value {
            SqlValue::String(s) => Ok(s.clone()),
            SqlValue::Null => Err(DecodeError::UnexpectedNull),
            _ => Err(DecodeError::MismatchedType),
        }
    }
}

/// Reading a value as an integer gives the integer it holds; reading it as
/// text gives the text it holds; `NULL` is refused as `UnexpectedNull`, and
/// any other kind of value as `MismatchedType`.
pub proof fn lemma_value_accessors_exactly(i: i64, s: String, other: SqlValue)
    ensures
        spec_int(SqlValue::Int(i)) == Ok::<i64, DecodeError>(i),
        spec_int(SqlValue::Null) == Err::<i64, DecodeError>(DecodeError::UnexpectedNull),
        !(other is Null) && !(other is Int) ==> spec_int(other) == Err::<i64, DecodeError>(
            DecodeError::MismatchedType,
        ),
        spec_text(SqlValue::String(s)) == Ok::<Seq<char>, DecodeError>(s@),
        spec_text(SqlValue::Null) == Err::<Seq<char>, DecodeError>(DecodeError::UnexpectedNull),
        !(other is Null) && !(other is String) ==> spec_text(other) == Err::<
            Seq<char>,
            DecodeError,
        >(DecodeError::MismatchedType),
{
}

} // verus!
