use vstd::prelude::*;
use vstd::string::to_string_from_display_ensures;
use crate::type_info::{DataType, RXQLiteTypeInfo};
use crate::value::{spec_int, spec_text, DecodeError, RXQLiteValue, SqlValue};

verus! {

/// Whether an encoder wrote SQL `NULL`.
#[derive(Debug, Clone, Copy, PartialEq, Eq, Structural)]
pub enum IsNull {
    Yes,
    No,
}

/// Rust types that have an SQL type in this driver.
pub trait RXQLiteType {
    /// The type information that values of this type are bound with.
    spec fn spec_type_info() -> RXQLiteTypeInfo;

    /// Whether a column of type `ty` can be decoded as this type.
    spec fn spec_compatible(ty: RXQLiteTypeInfo) -> bool;

    fn type_info() -> (ti: RXQLiteTypeInfo)
        ensures
            ti == Self::spec_type_info(),
    ;

    fn compatible(ty: &RXQLiteTypeInfo) -> (b: bool)
        ensures
            b == Self::spec_compatible(*ty),
    ;
}

/// Rust values that can be bound as query arguments.
pub trait RXQLiteEncode {
    /// The values that encoding `self` appends to the argument buffer.
    spec fn spec_encoded(&self) -> Seq<SqlValue>;

    /// Whether encoding `self` reports SQL `NULL`.
    spec fn spec_is_null(&self) -> bool;

    fn encode_by_ref(&self, args: &mut Vec<SqlValue>) -> (n: IsNull)
        ensures
            final(args)@ == old(args)@ + self.spec_encoded(),
            (n == IsNull::Yes) == self.spec_is_null(),
    ;
}

/// Rust types that can be read out of a fetched value.
pub trait RXQLiteDecode: Sized {
    /// Whether `r` is what decoding `v` gives.
    spec fn spec_decodes(v: SqlValue, r: Result<Self, DecodeError>) -> bool;

    fn decode(value: &RXQLiteValue) -> (r: Result<Self, DecodeError>)
        ensures
            Self::spec_decodes(value.value, r),
    ;
}

/// The types a `bool` can be decoded from.
pub open spec fn bool_compatible(d: DataType) -> bool {
    d == DataType::Bool || d == DataType::Int || d == DataType::Int64
}

/// The integer that a `bool` is stored as.
pub open spec fn bool_as_int(b: bool) -> i64 {
    if b { 1 } else { 0 }
}

/// What decoding a value as `bool` gives: integers are true when non-zero.
pub open spec fn spec_decode_bool(v: SqlValue) -> Result<bool, DecodeError> {
    match spec_int(v) {
        Ok(i) => Ok(i != 0),
        Err(e) => Err(e),
    }
}

impl RXQLiteType for bool {
    open spec fn spec_type_info() -> RXQLiteTypeInfo {
        RXQLiteTypeInfo(DataType::Bool)
    }

    open spec fn spec_compatible(ty: RXQLiteTypeInfo) -> bool {
        bool_compatible(ty.0)
    }

    fn type_info() -> (ti: RXQLiteTypeInfo) {
        RXQLiteTypeInfo(DataType::Bool)
    }

    fn compatible(ty: &RXQLiteTypeInfo) -> (b: bool) {
        match ty.0 {
            DataType::Bool | DataType::Int | DataType::Int64 => true,
            _ => false,
        }
    }
}

impl RXQLiteEncode for bool {
    open spec fn spec_encoded(&self) -> Seq<SqlValue> {
        seq![SqlValue::Int(bool_as_int(*self))]
    }

    open spec fn spec_is_null(&self) -> bool {
        false
    }

    fn encode_by_ref(&self, args: &mut Vec<SqlValue>) -> (n: IsNull) {
        let i: i64 = if *self { 1 } else { 0 };
        args.push(SqlValue::Int(i));
        IsNull::No
    }
}

impl RXQLiteDecode for bool {
    open spec fn spec_decodes(v: SqlValue, r: Result<bool, DecodeError>) -> bool {
        r == spec_decode_bool(v)
    }

    fn decode(value: &RXQLiteValue) -> (r: Result<bool, DecodeError>) {
        match value.as_int() {
            Ok(i) => Ok(i != 0),
            Err(e) => Err(e),
        }
    }
}

impl RXQLiteType for String {
    open spec fn spec_type_info() -> RXQLiteTypeInfo {
        RXQLiteTypeInfo(DataType::Text)
    }

    open spec fn spec_compatible(ty: RXQLiteTypeInfo) -> bool {
        ty.0 == DataType::Text
    }

    fn type_info() -> (ti: RXQLiteTypeInfo) {
        RXQLiteTypeInfo(DataType::Text)
    }

    fn compatible(ty: &RXQLiteTypeInfo) -> (b: bool) {
        match ty.0 {
            DataType::Text => true,
            _ => false,
        }
    }
}

impl RXQLiteEncode for String {
    open spec fn spec_encoded(&self) -> Seq<SqlValue> {
        seq![SqlValue::String(*self)]
    }

    open spec fn spec_is_null(&self) -> bool {
        false
    }

    fn encode_by_ref(&self, args: &mut Vec<SqlValue>) -> (n: IsNull) {
        args.push(SqlValue::String(self.clone()));
        IsNull::No
    }
}

impl RXQLiteDecode for String {
    open spec fn spec_decodes(v: SqlValue, r: Result<String, DecodeError>) -> bool {
        match r {
            Ok(s) => spec_text(v) == Ok::<Seq<char>, DecodeError>(s@),
            Err(e) => spec_text(v) == Err::<Seq<char>, DecodeError>(e),
        }
    }

    fn decode(value: &RXQLiteValue) -> (r: Result<String, DecodeError>) {
        value.as_text()
    }
}

/// What decoding a value as an optional `T` gives: `None` for SQL `NULL`,
/// and otherwise what decoding it as `T` gives, in `Some`.
pub open spec fn spec_decodes_optional<T: RXQLiteDecode>(
    v: SqlValue,
    r: Result<Option<T>, DecodeError>,
) -> bool {
    if v is Null {
        r == Ok::<Option<T>, DecodeError>(None)
    } else {
        match r {
            Ok(Some(x)) => T::spec_decodes(v, Ok(x)),
            Ok(None) => false,
            Err(e) => T::spec_decodes(v, Err(e)),
        }
    }
}

impl<T: RXQLiteType> RXQLiteType for Option<T> {
    open spec fn spec_type_info() -> RXQLiteTypeInfo {
        T::spec_type_info()
    }

    open spec fn spec_compatible(ty: RXQLiteTypeInfo) -> bool {
        T::spec_compatible(ty)
    }

    fn type_info() -> (ti: RXQLiteTypeInfo) {
        T::type_info()
    }

    fn compatible(ty: &RXQLiteTypeInfo) -> (b: bool) {
        T::compatible(ty)
    }
}

impl<T: RXQLiteEncode> RXQLiteEncode for Option<T> {
    open spec fn spec_encoded(&self) -> Seq<SqlValue> {
        match self {
            Some(v) => v.spec_encoded(),
            None => Seq::empty(),
        }
    }

    open spec fn spec_is_null(&self) -> bool {
        match self {
            Some(v) => v.spec_is_null(),
            None => true,
        }
    }

    fn encode_by_ref(&self, args: &mut Vec<SqlValue>) -> (n: IsNull) {
        match self {
            Some(v) => v.encode_by_ref(args),
            None => {
                assert(old(args)@ + Seq::<SqlValue>::empty() =~= old(args)@);
                IsNull::Yes
            },
        }
    }
}

impl<T: RXQLiteDecode> RXQLiteDecode for Option<T> {
    open spec fn spec_decodes(v: SqlValue, r: Result<Option<T>, DecodeError>) -> bool {
        spec_decodes_optional(v, r)
    }

    fn decode(value: &RXQLiteValue) -> (r: Result<Option<T>, DecodeError>) {
        if value.is_null() {
            Ok(None)
        } else {
            match T::decode(value) {
                Ok(x) => Ok(Some(x)),
                Err(e) => Err(e),
            }
        }
    }
}

/// The type information of text-wrapped values: that of `String`.
pub fn text_type_info() -> (ti: RXQLiteTypeInfo)
    ensures
        ti == <String as RXQLiteType>::spec_type_info(),
{
    <String as RXQLiteType>::type_info()
}

/// Whether a column can be read as a text-wrapped value: as for `String`.
pub fn text_compatible(ty: &RXQLiteTypeInfo) -> (b: bool)
    ensures
        b == <String as RXQLiteType>::spec_compatible(*ty),
{
    <String as RXQLiteType>::compatible(ty)
}

/// Encodes a text-wrapped value: its display form, as `to_string` gives it,
/// encoded as a `String` (one string value, never `NULL`).
pub fn encode_text<T: std::fmt::Display>(value: &T, args: &mut Vec<SqlValue>) -> (n: IsNull)
    ensures
        n == IsNull::No,
        exists|s: String|
            to_string_from_display_ensures::<T>(value, s) && #[trigger] s.spec_encoded()
                == seq![SqlValue::String(s)] && final(args)@ == old(args)@ + s.spec_encoded(),
{
    let s = value.to_string();
    let n = s.encode_by_ref(args);
    assert(s.spec_encoded() == seq![SqlValue::String(s)]);
    n
}

/// Decodes the text of a text-wrapped value; the caller parses it.
pub fn decode_text(value: &RXQLiteValue) -> (r: Result<String, DecodeError>)
    ensures
        <String as RXQLiteDecode>::spec_decodes(value.value, r),
{
    <String as RXQLiteDecode>::decode(value)
}

/// Decoding what a `bool` encodes to gives the `bool` back.
pub proof fn lemma_bool_roundtrip(b: bool)
    ensures
        b.spec_encoded().len() == 1,
        spec_decode_bool(b.spec_encoded()[0]) == Ok::<bool, DecodeError>(b),
{
}

/// A `bool` column can always be read back as `bool`, and so can a string
/// column as `String`.
pub proof fn lemma_types_accept_their_own_type_info()
    ensures
        <bool as RXQLiteType>::spec_compatible(<bool as RXQLiteType>::spec_type_info()),
        <String as RXQLiteType>::spec_compatible(<String as RXQLiteType>::spec_type_info()),
{
}

/// Decoding what a `String` encodes to gives the same text back.
pub proof fn lemma_string_roundtrip(s: String)
    ensures
        s.spec_encoded().len() == 1,
        spec_text(s.spec_encoded()[0]) == Ok::<Seq<char>, DecodeError>(s@),
{
}

/// A `bool` can be read from exactly the `Bool`, `Int` and `Int64` columns.
pub proof fn lemma_bool_compatible_exactly(ty: RXQLiteTypeInfo)
    ensures
        <bool as RXQLiteType>::spec_compatible(ty) <==> (ty.0 == DataType::Bool || ty.0
            == DataType::Int || ty.0 == DataType::Int64),
        !<bool as RXQLiteType>::spec_compatible(RXQLiteTypeInfo(DataType::Null)),
        !<bool as RXQLiteType>::spec_compatible(RXQLiteTypeInfo(DataType::Float)),
        !<bool as RXQLiteType>::spec_compatible(RXQLiteTypeInfo(DataType::Text)),
        !<bool as RXQLiteType>::spec_compatible(RXQLiteTypeInfo(DataType::Blob)),
        !<bool as RXQLiteType>::spec_compatible(RXQLiteTypeInfo(DataType::Numeric)),
        !<bool as RXQLiteType>::spec_compatible(RXQLiteTypeInfo(DataType::Date)),
        !<bool as RXQLiteType>::spec_compatible(RXQLiteTypeInfo(DataType::Time)),
        !<bool as RXQLiteType>::spec_compatible(RXQLiteTypeInfo(DataType::Datetime)),
{
}

/// An integer decodes as `bool` to whether it is non-zero; `NULL` is
/// refused as `UnexpectedNull`, and any value other than an integer or
/// `NULL` as `MismatchedType`.
pub proof fn lemma_bool_decode_exactly(i: i64, other: SqlValue, r: Result<bool, DecodeError>)
    ensures
        <bool as RXQLiteDecode>::spec_decodes(SqlValue::Int(i), r) <==> r == Ok::<
            bool,
            DecodeError,
        >(i != 0),
        <bool as RXQLiteDecode>::spec_decodes(SqlValue::Null, r) <==> r == Err::<
            bool,
            DecodeError,
        >(DecodeError::UnexpectedNull),
        !(other is Null) && !(other is Int) ==> (<bool as RXQLiteDecode>::spec_decodes(other, r)
            <==> r == Err::<bool, DecodeError>(DecodeError::MismatchedType)),
{
}

/// Decoding as an optional value gives `None` exactly for `NULL`; any other
/// value gives `Some(x)` exactly where decoding it as `T` gives `x`, and the
/// same error where that fails.
pub proof fn lemma_optional_decode_exactly<T: RXQLiteDecode>(v: SqlValue)
    ensures
        <Option<T> as RXQLiteDecode>::spec_decodes(v, Ok(None)) <==> v is Null,
        v is Null ==> forall|r: Result<Option<T>, DecodeError>|
            #[trigger] <Option<T> as RXQLiteDecode>::spec_decodes(v, r) ==> r == Ok::<
                Option<T>,
                DecodeError,
            >(None),
        !(v is Null) ==> forall|x: T|
            #[trigger] <Option<T> as RXQLiteDecode>::spec_decodes(v, Ok(Some(x))) <==> T::spec_decodes(
                v,
                Ok(x),
            ),
        !(v is Null) ==> forall|e: DecodeError|
            #[trigger] <Option<T> as RXQLiteDecode>::spec_decodes(v, Err(e)) <==> T::spec_decodes(
                v,
                Err(e),
            ),
{
}

/// A string value decodes as `String` to its whole text; `NULL` is refused
/// as `UnexpectedNull`, and any value other than a string or `NULL` as
/// `MismatchedType`.
pub proof fn lemma_string_decode_exactly(s: String, other: SqlValue, r: Result<String, DecodeError>)
    ensures
        <String as RXQLiteDecode>::spec_decodes(SqlValue::String(s), r) ==> (r matches Ok(t)
            && t@ == s@),
        <String as RXQLiteDecode>::spec_decodes(SqlValue::Null, r) ==> r == Err::<
            String,
            DecodeError,
        >(DecodeError::UnexpectedNull),
        !(other is Null) && !(other is String) && <String as RXQLiteDecode>::spec_decodes(
            other,
            r,
        ) ==> r == Err::<String, DecodeError>(DecodeError::MismatchedType),
{
}

/// A `bool` is bound as the integer 1 or 0, a `String` as its text, and
/// `None` as nothing with `NULL` reported; `Some(v)` is bound as `v` is.
pub proof fn lemma_encodings_exactly<T: RXQLiteEncode>(b: bool, s: String, v: T)
    ensures
        b.spec_encoded() == seq![SqlValue::Int(if b { 1i64 } else { 0i64 })],
        !b.spec_is_null(),
        s.spec_encoded() == seq![SqlValue::String(s)],
        !s.spec_is_null(),
        None::<T>.spec_encoded() == Seq::<SqlValue>::empty(),
        None::<T>.spec_is_null(),
        Some(v).spec_encoded() == v.spec_encoded(),
        Some(v).spec_is_null() == v.spec_is_null(),
        <bool as RXQLiteType>::spec_type_info() == RXQLiteTypeInfo(DataType::Bool),
        <String as RXQLiteType>::spec_type_info() == RXQLiteTypeInfo(DataType::Text),
        <Option<bool> as RXQLiteType>::spec_type_info() == RXQLiteTypeInfo(DataType::Bool),
        forall|ty: RXQLiteTypeInfo|
            <String as RXQLiteType>::spec_compatible(ty) <==> ty.0 == DataType::Text,
{
}

} // verus!
