use vstd::prelude::*;
use crate::type_info::{DataType, RXQLiteTypeInfo};
use crate::types::{IsNull, RXQLiteEncode, RXQLiteType};
use crate::value::SqlValue;

verus! {

/// The arguments bound to a query: the encoded values, in order, and the
/// type of each argument.
#[derive(Debug, Clone)]
pub struct RXQLiteArguments {
    pub values: Vec<SqlValue>,
    pub types: Vec<RXQLiteTypeInfo>,
}

/// The abstract value of [`RXQLiteArguments`].
pub ghost struct ArgumentsView {
    pub values: Seq<SqlValue>,
    pub types: Seq<RXQLiteTypeInfo>,
}

impl View for RXQLiteArguments {
    type V = ArgumentsView;

    open spec fn view(&self) -> ArgumentsView {
        ArgumentsView { values: self.values@, types: self.types@ }
    }
}

/// The values that binding `value` appends: its encoding, then `NULL` where
/// the encoder reported it.
pub open spec fn appended_values<T: RXQLiteEncode>(value: T) -> Seq<SqlValue> {
    if value.spec_is_null() {
        value.spec_encoded().push(SqlValue::Null)
    } else {
        value.spec_encoded()
    }
}

/// The arguments after binding `value`: its type appended to the types, and
/// its values to the values.
pub open spec fn args_after_add<T: RXQLiteEncode + RXQLiteType>(
    a: ArgumentsView,
    value: T,
) -> ArgumentsView {
    ArgumentsView {
        values: a.values + appended_values(value),
        types: a.types.push(T::spec_type_info()),
    }
}

/// The arguments after binding each of `vs` in order.
pub open spec fn args_after_adds<T: RXQLiteEncode + RXQLiteType>(
    a: ArgumentsView,
    vs: Seq<T>,
) -> ArgumentsView
    decreases vs.len(),
{
    if vs.len() == 0 {
        a
    } else {
        args_after_add(args_after_adds(a, vs.drop_last()), vs.last())
    }
}

impl Default for RXQLiteArguments {
    fn default() -> (args: RXQLiteArguments)
        ensures
            args.values@.len() == 0,
            args.types@.len() == 0,
    {
        RXQLiteArguments::new()
    }
}

impl RXQLiteArguments {
    /// No arguments.
    pub fn new() -> (args: RXQLiteArguments)
        ensures
            args.values@.len() == 0,
            args.types@.len() == 0,
    {
        RXQLiteArguments { values: Vec::new(), types: Vec::new() }
    }

    /// Binds one more argument.
    pub fn add<T: RXQLiteEncode + RXQLiteType>(&mut self, value: T)
        ensures
            final(self)@ == args_after_add(old(self)@, value),
            final(self).types@ == old(self).types@.push(T::spec_type_info()),
            final(self).values@ == old(self).values@ + appended_values(value),
    {
        let ty = T::type_info();
        let n = value.encode_by_ref(&mut self.values);
        if n == IsNull::Yes {
            self.values.push(SqlValue::Null);
        }
        self.types.push(ty);
        proof {
            assert(final(self).values@ =~= old(self).values@ + appended_values(value));
        }
    }

    /// The number of arguments bound so far.
    pub fn len(&self) -> (n: usize)
        ensures
            n == self.types@.len(),
    {
        self.types.len()
    }

    /// Reserves room for `len` more arguments and `size` more values.
    pub fn reserve(&mut self, len: usize, size: usize)
        ensures
            final(self).types@ == old(self).types@,
            final(self).values@ == old(self).values@,
    {
        self.types.reserve(len);
        self.values.reserve(size);
    }
}

/// Binding `n` values adds `n` arguments: the earlier ones stay, each new
/// one has the type of its value, and where each value's encoding gives one
/// value (or reports `NULL` and gives none) the values grow by `n` too.
pub proof fn lemma_len_counts_adds<T: RXQLiteEncode + RXQLiteType>(a: ArgumentsView, vs: Seq<T>)
    ensures
        args_after_adds(a, vs).types.len() == a.types.len() + vs.len(),
        args_after_adds(a, vs).types.subrange(0, a.types.len() as int) == a.types,
        forall|i: int|
            0 <= i < vs.len() ==> #[trigger] args_after_adds(a, vs).types[a.types.len() + i]
                == T::spec_type_info(),
        (forall|i: int| 0 <= i < vs.len() ==> (#[trigger] appended_values(vs[i])).len() == 1)
            ==> args_after_adds(a, vs).values.len() == a.values.len() + vs.len(),
    decreases vs.len(),
{
    if vs.len() > 0 {
        let p = vs.drop_last();
        lemma_len_counts_adds(a, p);
        let before = args_after_adds(a, p);
        let after = args_after_adds(a, vs);
        assert(after.types.subrange(0, a.types.len() as int) =~= a.types) by {
            assert(before.types.subrange(0, a.types.len() as int) =~= a.types);
        }
        assert forall|i: int| 0 <= i < vs.len() implies #[trigger] after.types[a.types.len() + i]
            == T::spec_type_info() by {
            if i < p.len() {
                assert(before.types[a.types.len() + i] == T::spec_type_info());
            }
        }
        if forall|i: int| 0 <= i < vs.len() ==> (#[trigger] appended_values(vs[i])).len() == 1 {
            assert forall|i: int| 0 <= i < p.len() implies (#[trigger] appended_values(p[i])).len()
                == 1 by {
                assert(p[i] == vs[i]);
            }
            assert(appended_values(vs[vs.len() - 1]).len() == 1);
        }
    }
}

/// Each value the library can bind gives exactly one value: a `bool` or a
/// `String` its encoding, `None` a `NULL`, and `Some(v)` what `v` gives.
pub proof fn lemma_one_value_per_argument<T: RXQLiteEncode>(b: bool, s: String, v: T)
    ensures
        appended_values(b).len() == 1,
        appended_values(s).len() == 1,
        appended_values(None::<T>) == seq![SqlValue::Null],
        appended_values(Some(v)) == appended_values(v),
{
    assert(appended_values(None::<T>) =~= seq![SqlValue::Null]);
}

/// Binding a `bool` appends the integer 1 or 0 and the `Bool` type; binding
/// `None` appends `NULL` and the type of the value it stands for; earlier
/// arguments stay.
pub proof fn lemma_add_exactly<T: RXQLiteEncode + RXQLiteType>(a: ArgumentsView, b: bool)
    ensures
        args_after_add(a, b).values == a.values.push(SqlValue::Int(if b { 1i64 } else { 0i64 })),
        args_after_add(a, b).types == a.types.push(RXQLiteTypeInfo(DataType::Bool)),
        args_after_add(a, None::<T>).values == a.values.push(SqlValue::Null),
        args_after_add(a, None::<T>).types == a.types.push(T::spec_type_info()),
{
    assert(args_after_add(a, b).values =~= a.values.push(SqlValue::Int(if b { 1i64 } else { 0i64 })));
    assert(args_after_add(a, None::<T>).values =~= a.values.push(SqlValue::Null));
}

} // verus!
