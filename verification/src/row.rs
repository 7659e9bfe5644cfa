use vstd::prelude::*;
use sqlx_core::ext::ustr::UStr;
use crate::type_info::{data_type_of, RXQLiteTypeInfo, WireTypeInfo};
use crate::value::{RXQLiteValue, SqlValue};

verus! {

/// A column as the server describes it.
#[derive(Debug, Clone)]
pub struct WireColumn {
    pub ordinal: usize,
    pub name: String,
    pub type_info: WireTypeInfo,
}

/// One field of a row as the server sends it: the value and the position of
/// its column in the row's column list.
#[derive(Debug, Clone)]
pub struct WireCol {
    pub value: SqlValue,
    pub ordinal: u64,
}

/// A row as the server sends it: the column descriptions and the fields.
#[derive(Debug, Clone)]
pub struct WireRow {
    pub columns: Vec<WireColumn>,
    pub inner: Vec<WireCol>,
}

/// The outcome of a statement as the server sends it.
#[derive(Debug, Clone, Copy, PartialEq, Eq, Structural)]
pub struct WireQueryResult {
    pub last_insert_rowid: i64,
    pub changes: u64,
}

/// The outcome of a statement: the id of the last inserted row and the number
/// of rows changed.
#[derive(Debug, Clone, Copy, PartialEq, Eq, Structural)]
pub struct RXQLiteQueryResult {
    pub last_insert_rowid: i64,
    pub changes: u64,
}

/// A column of a fetched row.
#[derive(Debug, Clone)]
pub struct RXQLiteColumn {
    pub name: String,
    pub ordinal: usize,
    pub type_info: RXQLiteTypeInfo,
}

/// One of two things: a statement outcome or a row, in the order the server
/// produced them.
#[derive(Debug, Clone)]
pub enum Either<L, R> {
    Left(L),
    Right(R),
}

/// The lookup from column name to column position of a fetched row, kept in
/// the hash map type of `sqlx_core` (`ahash::AHashMap`, a standard hash map
/// with a randomly seeded hasher) keyed by `sqlx_core`'s shared strings. The
/// map is held behind this struct: its type names the hasher of `ahash`,
/// which this crate cannot name to declare it.
#[verifier::external_body]
pub struct ColumnIndex {
    map: sqlx_core::HashMap<UStr, usize>,
}

/// The name-to-position entries that a [`ColumnIndex`] holds.
pub uninterp spec fn column_index_entries(index: ColumnIndex) -> Map<Seq<char>, usize>;

/// No entries.
pub open spec fn no_entries() -> Map<Seq<char>, usize> {
    Map::empty()
}

impl ColumnIndex {
    /// `sqlx_core::HashMap::default` (`AHashMap::default`): an empty lookup.
    /// Seeding its hasher draws on the system's randomness and panics only
    /// where that is unavailable, which no argument decides.
    #[verifier::external_body]
    pub(crate) fn new() -> (index: ColumnIndex)
        ensures
            column_index_entries(index) == no_entries(),
    {
        ColumnIndex { map: Default::default() }
    }

    /// `AHashMap::insert` of the name, turned into a `UStr` by `UStr::from`,
    /// with the position. `UStr` keys hash and compare by their text, and an
    /// insert under a present key replaces its position and leaves the other
    /// entries.
    #[verifier::external_body]
    pub(crate) fn insert(&mut self, name: String, ordinal: usize)
        ensures
            column_index_entries(*final(self)) == column_index_entries(*old(self)).insert(
                name@,
                ordinal,
            ),
    {
        self.map.insert(UStr::from(name), ordinal);
    }

    /// `AHashMap::get` by text (`UStr` borrows as `str`): the position stored
    /// under the name, if any.
    #[verifier::external_body]
    pub(crate) fn get(&self, name: &str) -> (found: Option<usize>)
        ensures
            match found {
                Some(o) => column_index_entries(*self).contains_key(name@)
                    && column_index_entries(*self)[name@] == o,
                None => !column_index_entries(*self).contains_key(name@),
            },
    {
        self.map.get(name).copied()
    }

    /// `HashMap::len` (through `AHashMap`'s `Deref`): the number of entries.
    #[verifier::external_body]
    pub(crate) fn len(&self) -> (n: usize)
        ensures
            n == column_index_entries(*self).len(),
    {
        self.map.len()
    }
}

/// A fetched row: its values and columns in the order the server sent the
/// fields, and the position of each column name.
pub struct RXQLiteRow {
    pub values: Vec<RXQLiteValue>,
    pub columns: Vec<RXQLiteColumn>,
    pub column_names: ColumnIndex,
}

/// Every field of the row names a column that the row describes.
pub open spec fn wire_row_wf(row: WireRow) -> bool {
    forall|i: int|
        0 <= i < row.inner@.len() ==> (#[trigger] row.inner@[i].ordinal as int)
            < row.columns@.len()
}

/// The description of the column of field `i`.
pub open spec fn wire_column_of(row: WireRow, i: int) -> WireColumn {
    row.columns@[row.inner@[i].ordinal as int]
}

/// The name lookup that a sequence of columns gives: each column's name maps
/// to its position, and a later column of the same name wins.
pub open spec fn names_of(cols: Seq<RXQLiteColumn>) -> Map<Seq<char>, usize>
    decreases cols.len(),
{
    if cols.len() == 0 {
        Map::empty()
    } else {
        names_of(cols.drop_last()).insert(cols.last().name@, cols.last().ordinal)
    }
}

/// Field `i` of `w` became value and column `i` of `r`.
pub open spec fn field_converted(
    w: WireRow,
    values: Seq<RXQLiteValue>,
    columns: Seq<RXQLiteColumn>,
    i: int,
) -> bool {
    let c = wire_column_of(w, i);
    let ti = RXQLiteTypeInfo(data_type_of(c.type_info));
    &&& values[i].value == w.inner@[i].value
    &&& values[i].type_info == ti
    &&& columns[i].name@ == c.name@
    &&& columns[i].ordinal == w.inner@[i].ordinal
    &&& columns[i].type_info == ti
}

/// `r` is the row that the server's row `w` stands for.
pub open spec fn row_converted(w: WireRow, r: RXQLiteRow) -> bool {
    &&& r.values@.len() == w.inner@.len()
    &&& r.columns@.len() == w.inner@.len()
    &&& forall|i: int| 0 <= i < w.inner@.len() ==> #[trigger] field_converted(w, r.values@, r.columns@, i)
    &&& column_index_entries(r.column_names) == names_of(r.columns@)
}

impl RXQLiteRow {
    /// Builds a row out of what the server sent: each field becomes a value
    /// typed by its column, and a column named and typed as described.
    pub fn from_wire(row: WireRow) -> (r: RXQLiteRow)
        requires
            wire_row_wf(row),
        ensures
            row_converted(row, r),
    {
        let ghost w = row;
        let WireRow { columns, inner } = row;
        let size = inner.len();
        let mut values: Vec<RXQLiteValue> = Vec::with_capacity(size);
        let mut cols: Vec<RXQLiteColumn> = Vec::with_capacity(size);
        let mut column_names = ColumnIndex::new();
        assert(names_of(cols@) =~= no_entries());
        for col in it: inner.into_iter()
            invariant
                w.columns == columns,
                w.inner@ == it.seq(),
                wire_row_wf(w),
                values@.len() == it.index(),
                cols@.len() == it.index(),
                forall|i: int|
                    0 <= i < it.index() ==> #[trigger] field_converted(w, values@, cols@, i),
                column_index_entries(column_names) == names_of(cols@),
        {
            let ghost k = it.index();
            assert(w.inner@[k] == col);
            let ordinal = col.ordinal;
            assert((w.inner@[k].ordinal as int) < w.columns@.len());
            let idx = ordinal as usize;
            let column: &WireColumn = &columns[idx];
            let type_info = column.type_info.into_rxqlite_type_info();
            let name = column.name.clone();
            let key = column.name.clone();
            let ghost old_values = values@;
            let ghost old_cols = cols@;
            values.push(RXQLiteValue::new(col.value, type_info));
            cols.push(RXQLiteColumn { name, ordinal: idx, type_info });
            column_names.insert(key, idx);
            proof {
                assert(cols@.drop_last() =~= old_cols);
                assert forall|i: int| 0 <= i <= k implies #[trigger] field_converted(
                    w,
                    values@,
                    cols@,
                    i,
                ) by {
                    if i < k {
                        assert(field_converted(w, old_values, old_cols, i));
                        assert(values@[i] == old_values[i]);
                        assert(cols@[i] == old_cols[i]);
                    }
                }
            }
        }
        RXQLiteRow { values, columns: cols, column_names }
    }

    /// The number of fields.
    pub fn len(&self) -> (n: usize)
        ensures
            n == self.values@.len(),
    {
        self.values.len()
    }

    /// The position that the lookup gives for a column name.
    pub fn ordinal_of(&self, name: &str) -> (found: Option<usize>)
        ensures
            match found {
                Some(o) => column_index_entries(self.column_names).contains_key(name@)
                    && column_index_entries(self.column_names)[name@] == o,
                None => !column_index_entries(self.column_names).contains_key(name@),
            },
    {
        self.column_names.get(name)
    }

    /// The number of distinct column names.
    pub fn name_count(&self) -> (n: usize)
        ensures
            n == column_index_entries(self.column_names).len(),
    {
        self.column_names.len()
    }
}

/// A name has an entry in the lookup of a column sequence exactly when some
/// column of the sequence has that name.
proof fn lemma_names_of_domain(cols: Seq<RXQLiteColumn>, k: Seq<char>)
    ensures
        names_of(cols).contains_key(k) <==> exists|i: int|
            0 <= i < cols.len() && (#[trigger] cols[i]).name@ == k,
    decreases cols.len(),
{
    if cols.len() > 0 {
        let prefix = cols.drop_last();
        lemma_names_of_domain(prefix, k);
        if names_of(cols).contains_key(k) {
            if k == cols.last().name@ {
                assert(cols[cols.len() - 1].name@ == k);
            } else {
                let i = choose|i: int| 0 <= i < prefix.len() && (#[trigger] prefix[i]).name@ == k;
                assert(cols[i] == prefix[i]);
            }
        }
        if exists|i: int| 0 <= i < cols.len() && (#[trigger] cols[i]).name@ == k {
            let i = choose|i: int| 0 <= i < cols.len() && (#[trigger] cols[i]).name@ == k;
            if i < cols.len() - 1 {
                assert(prefix[i] == cols[i]);
            }
        }
    }
}

/// The entry of the last column of a name gives that column's position.
proof fn lemma_names_of_last(cols: Seq<RXQLiteColumn>, i: int)
    requires
        0 <= i < cols.len(),
        forall|j: int| i < j < cols.len() ==> (#[trigger] cols[j]).name@ != cols[i].name@,
    ensures
        names_of(cols).contains_key(cols[i].name@),
        names_of(cols)[cols[i].name@] == cols[i].ordinal,
    decreases cols.len(),
{
    if i < cols.len() - 1 {
        let prefix = cols.drop_last();
        assert(prefix[i] == cols[i]);
        assert(cols[cols.len() - 1].name@ != cols[i].name@);
        assert forall|j: int| i < j < prefix.len() implies (#[trigger] prefix[j]).name@
            != prefix[i].name@ by {
            assert(prefix[j] == cols[j]);
        }
        lemma_names_of_last(prefix, i);
    }
}

/// In a row built from what the server sent, each value carries the type of
/// its column; every column name of the row can be looked up, and looking a
/// name up gives the position of the last column of that name (names that no
/// column has are absent).
pub proof fn lemma_row_lookup(w: WireRow, r: RXQLiteRow)
    requires
        wire_row_wf(w),
        row_converted(w, r),
    ensures
        forall|i: int|
            0 <= i < r.values@.len() ==> (#[trigger] r.values@[i]).type_info
                == r.columns@[i].type_info,
        forall|i: int|
            0 <= i < r.columns@.len() ==> column_index_entries(r.column_names).contains_key(
                (#[trigger] r.columns@[i]).name@,
            ),
        forall|k: Seq<char>|
            #![trigger column_index_entries(r.column_names).contains_key(k)]
            column_index_entries(r.column_names).contains_key(k) ==> exists|i: int|
                0 <= i < w.inner@.len() && (#[trigger] wire_column_of(w, i)).name@ == k
                    && column_index_entries(r.column_names)[k] == w.inner@[i].ordinal && (forall|
                    j: int,
                |
                    i < j < w.inner@.len() ==> (#[trigger] wire_column_of(w, j)).name@ != k),
{
    let cols = r.columns@;
    assert forall|i: int| 0 <= i < r.values@.len() implies (#[trigger] r.values@[i]).type_info
        == r.columns@[i].type_info by {
        assert(field_converted(w, r.values@, r.columns@, i));
    }
    assert forall|i: int| 0 <= i < cols.len() implies column_index_entries(
        r.column_names,
    ).contains_key((#[trigger] cols[i]).name@) by {
        lemma_names_of_domain(cols, cols[i].name@);
    }
    assert forall|k: Seq<char>|
        #![trigger column_index_entries(r.column_names).contains_key(k)]
        column_index_entries(r.column_names).contains_key(k) implies exists|i: int|
            0 <= i < w.inner@.len() && (#[trigger] wire_column_of(w, i)).name@ == k
                && column_index_entries(r.column_names)[k] == w.inner@[i].ordinal && (forall|j: int|
                i < j < w.inner@.len() ==> (#[trigger] wire_column_of(w, j)).name@ != k) by {
        lemma_names_of_domain(cols, k);
        let i0 = choose|i: int| 0 <= i < cols.len() && (#[trigger] cols[i]).name@ == k;
        // the last column of that name
        let last = last_named(cols, k, i0);
        assert(field_converted(w, r.values@, r.columns@, last));
        lemma_names_of_last(cols, last);
        assert(wire_column_of(w, last).name@ == k);
        assert forall|j: int| last < j < w.inner@.len() implies (#[trigger] wire_column_of(
            w,
            j,
        )).name@ != k by {
            assert(field_converted(w, r.values@, r.columns@, j));
            assert(cols[j].name@ != k);
        }
    }
}

/// The position of the last column named `k`, at or after `from`.
proof fn last_named(cols: Seq<RXQLiteColumn>, k: Seq<char>, from: int) -> (last: int)
    requires
        0 <= from < cols.len(),
        cols[from].name@ == k,
    ensures
        from <= last < cols.len(),
        cols[last].name@ == k,
        forall|j: int| last < j < cols.len() ==> (#[trigger] cols[j]).name@ != k,
    decreases cols.len() - from,
{
    if exists|j: int| from < j < cols.len() && (#[trigger] cols[j]).name@ == k {
        let j = choose|j: int| from < j < cols.len() && (#[trigger] cols[j]).name@ == k;
        last_named(cols, k, j)
    } else {
        from
    }
}

/// A row built from what the server sent has one value and one column per
/// field, in the order of the fields: the field's value, typed by the data
/// type of the field's column, and a column with that column's name, the
/// field's position in the column list, and the same type.
pub proof fn lemma_row_fields(w: WireRow, r: RXQLiteRow, i: int)
    requires
        wire_row_wf(w),
        row_converted(w, r),
        0 <= i < w.inner@.len(),
    ensures
        r.values@.len() == w.inner@.len(),
        r.columns@.len() == w.inner@.len(),
        r.values@[i].value == w.inner@[i].value,
        r.values@[i].type_info.0 == data_type_of(w.columns@[w.inner@[i].ordinal as int].type_info),
        r.columns@[i].type_info.0 == data_type_of(w.columns@[w.inner@[i].ordinal as int].type_info),
        r.columns@[i].name@ == w.columns@[w.inner@[i].ordinal as int].name@,
        r.columns@[i].ordinal == w.inner@[i].ordinal,
{
    assert(field_converted(w, r.values@, r.columns@, i));
}

} // verus!
