//! The editor of a declaration (the columns of a query's result, or its
//! inputs): a list of rows, each a name and a type, that can be added,
//! removed, moved and renamed, and whose validity is reported whenever it
//! changes.
use vstd::prelude::*;

use crate::column::ColumnType;
use crate::query::{RowData, RowEntry};
use crate::text::{blank, is_blank, owned, str_eq, trim, trim_of};

verus! {

/// One row of the editor.
#[derive(Debug)]
pub struct Row {
    pub name: String,
    pub ty: ColumnType,
    /// The name repeats the name of a row above it.
    pub duplicate: bool,
    /// The row can be moved up.
    pub up: bool,
    /// The row can be moved down.
    pub down: bool,
}

impl Row {
    /// A new row, not yet marked as a duplicate, that can be moved both ways.
    pub fn new(name: String, ty: ColumnType) -> (r: Row)
        ensures
            r.name == name,
            r.ty == ty,
            !r.duplicate,
            r.up,
            r.down,
    {
        Row { name, ty, duplicate: false, up: true, down: true }
    }
}

/// Whether the name of row `i` holds more than white space and repeats,
/// once trimmed, the name of a row above it.
pub open spec fn dup_at(rows: Seq<Row>, i: int) -> bool {
    &&& !is_blank(rows[i].name@)
    &&& exists|j: int| 0 <= j < i && #[trigger] trim_of(rows[j].name@) == trim_of(rows[i].name@)
}

/// Whether some name repeats the name of a row above it.
pub open spec fn has_dups(rows: Seq<Row>) -> bool {
    exists|i: int| 0 <= i < rows.len() && #[trigger] dup_at(rows, i)
}

/// Whether every name holds more than white space.
pub open spec fn all_filled(rows: Seq<Row>) -> bool {
    forall|i: int| 0 <= i < rows.len() ==> !is_blank(#[trigger] rows[i].name@)
}

/// Whether every row can be moved exactly where there is a row to swap with.
pub open spec fn moves_exact(rows: Seq<Row>) -> bool {
    forall|i: int|
        #![trigger rows[i]]
        0 <= i < rows.len() ==> rows[i].up == (i > 0) && rows[i].down == (i + 1 < rows.len())
}

/// Whether the move flags of row `i` are reset by `restore_move_valid`: the
/// first two rows and the last two.
pub open spec fn move_flags_reset(len: int, i: int) -> bool {
    i < 2 || i + 2 >= len
}

/// The names of the rows.
pub open spec fn names(rows: Seq<Row>) -> Seq<Seq<char>> {
    rows.map_values(|r: Row| r.name@)
}

/// The types of the rows.
pub open spec fn types(rows: Seq<Row>) -> Seq<ColumnType> {
    rows.map_values(|r: Row| r.ty)
}

/// The duplicate marks of the rows.
pub open spec fn dup_marks(rows: Seq<Row>) -> Seq<bool> {
    rows.map_values(|r: Row| r.duplicate)
}

/// Whether two rows agree in name, type and duplicate mark.
pub open spec fn same_content(a: Row, b: Row) -> bool {
    a.name == b.name && a.ty == b.ty && a.duplicate == b.duplicate
}

/// Sets the move flags of row `i`.
fn set_moves(rows: &mut Vec<Row>, i: usize, up: bool, down: bool)
    requires
        i < old(rows)@.len(),
    ensures
        final(rows)@.len() == old(rows)@.len(),
        forall|j: int| 0 <= j < old(rows)@.len() && j != i ==> #[trigger] final(rows)@[j] == old(rows)@[j],
        same_content(final(rows)@[i as int], old(rows)@[i as int]),
        final(rows)@[i as int].up == up,
        final(rows)@[i as int].down == down,
{
    rows[i].up = up;
    rows[i].down = down;
}

/// Resets the move flags of the first two and the last two rows: the first
/// row cannot move up and the last cannot move down. The rows between keep
/// their flags.
pub fn restore_move_valid(rows: &mut Vec<Row>)
    ensures
        final(rows)@.len() == old(rows)@.len(),
        forall|i: int|
            0 <= i < old(rows)@.len() ==> same_content(#[trigger] final(rows)@[i], old(rows)@[i]),
        forall|i: int|
            #![trigger final(rows)@[i]]
            0 <= i < old(rows)@.len() && move_flags_reset(old(rows)@.len() as int, i) ==> (
            final(rows)@[i].up == (i > 0) && final(rows)@[i].down == (i + 1 < old(
                rows,
            )@.len())),
        forall|i: int|
            #![trigger final(rows)@[i]]
            0 <= i < old(rows)@.len() && !move_flags_reset(old(rows)@.len() as int, i) ==> (
            final(rows)@[i].up == old(rows)@[i].up && final(rows)@[i].down == old(
                rows,
            )@[i].down),
{
    let n = rows.len();
    if n == 0 {
        return ;
    } else if n == 1 {
        set_moves(rows, 0, false, false);
    } else if n == 2 {
        set_moves(rows, 0, false, true);
        set_moves(rows, 1, true, false);
    } else if n == 3 {
        set_moves(rows, 0, false, true);
        set_moves(rows, 1, true, true);
        set_moves(rows, 2, true, false);
    } else {
        set_moves(rows, 0, false, true);
        set_moves(rows, 1, true, true);
        set_moves(rows, n - 2, true, true);
        set_moves(rows, n - 1, true, false);
    }
}

/// For each row, whether it repeats the name of a row above it.
fn duplicate_flags(rows: &Vec<Row>) -> (r: Vec<bool>)
    ensures
        r@.len() == rows@.len(),
        forall|i: int| 0 <= i < rows@.len() ==> #[trigger] r@[i] == dup_at(rows@, i),
{
    let n = rows.len();
    let mut trimmed: Vec<&str> = Vec::new();
    let mut flags: Vec<bool> = Vec::new();
    let mut i: usize = 0;
    while i < n
        invariant
            n == rows@.len(),
            i <= n,
            trimmed@.len() == i,
            flags@.len() == i,
            forall|k: int| 0 <= k < i ==> (#[trigger] trimmed@[k])@ == trim_of(rows@[k].name@),
            forall|k: int| 0 <= k < i ==> #[trigger] flags@[k] == dup_at(rows@, k),
        decreases n - i,
    {
        let t = trim(rows[i].name.as_str());
        let mut seen = false;
        if !t.is_empty() {
            let mut j: usize = 0;
            while j < i
                invariant
                    i < n,
                    n == rows@.len(),
                    j <= i,
                    trimmed@.len() == i,
                    t@ == trim_of(rows@[i as int].name@),
                    forall|k: int| 0 <= k < i ==> (#[trigger] trimmed@[k])@ == trim_of(rows@[k].name@),
                    seen == exists|k: int| 0 <= k < j && #[trigger] trim_of(rows@[k].name@) == t@,
                decreases i - j,
            {
                if str_eq(trimmed[j], t) {
                    seen = true;
                }
                j = j + 1;
            }
        }
        flags.push(seen);
        trimmed.push(t);
        i = i + 1;
    }
    flags
}

/// Marks each row whose name repeats the name of a row above it, and
/// unmarks the others; returns whether some row is marked.
pub fn check_duplicates(rows: &mut Vec<Row>) -> (r: bool)
    ensures
        final(rows)@.len() == old(rows)@.len(),
        names(final(rows)@) == names(old(rows)@),
        forall|i: int|
            0 <= i < old(rows)@.len() ==> {
                &&& (#[trigger] final(rows)@[i]).name == old(rows)@[i].name
                &&& final(rows)@[i].ty == old(rows)@[i].ty
                &&& final(rows)@[i].up == old(rows)@[i].up
                &&& final(rows)@[i].down == old(rows)@[i].down
                &&& final(rows)@[i].duplicate == dup_at(old(rows)@, i)
            },
        r == has_dups(old(rows)@),
{
    let flags = duplicate_flags(rows);
    let n = rows.len();
    let mut any = false;
    let mut i: usize = 0;
    while i < n
        invariant
            n == rows@.len(),
            n == old(rows)@.len(),
            i <= n,
            flags@.len() == n,
            forall|k: int| 0 <= k < n ==> #[trigger] flags@[k] == dup_at(old(rows)@, k),
            forall|k: int|
                0 <= k < n ==> {
                    &&& (#[trigger] rows@[k]).name == old(rows)@[k].name
                    &&& rows@[k].ty == old(rows)@[k].ty
                    &&& rows@[k].up == old(rows)@[k].up
                    &&& rows@[k].down == old(rows)@[k].down
                    &&& k < i ==> rows@[k].duplicate == dup_at(old(rows)@, k)
                },
            any == exists|k: int| 0 <= k < i && #[trigger] dup_at(old(rows)@, k),
        decreases n - i,
    {
        let f = flags[i];
        rows[i].duplicate = f;
        if f {
            any = true;
        }
        i = i + 1;
    }
    assert(names(rows@) =~= names(old(rows)@));
    any
}

/// Whether every name holds more than white space.
pub fn is_filled(rows: &Vec<Row>) -> (r: bool)
    ensures
        r == all_filled(rows@),
{
    let n = rows.len();
    let mut i: usize = 0;
    while i < n
        invariant
            n == rows@.len(),
            i <= n,
            forall|k: int| 0 <= k < i ==> !is_blank(#[trigger] rows@[k].name@),
        decreases n - i,
    {
        if blank(rows[i].name.as_str()) {
            return false;
        }
        i = i + 1;
    }
    true
}

} // verus!

verus! {

/// How a declaration stands.
#[derive(Debug, Clone, Copy, PartialEq, Eq, Structural)]
pub enum Validity {
    /// It has fewer rows than it needs.
    NotEnoughRows,
    /// Some name is blank.
    NotFilled,
    /// Some name repeats another.
    Duplicates,
    /// It can be used.
    Valid,
}

/// The validity reported for a declaration that has enough rows, when its
/// names are all filled in: duplicates, or valid.
pub open spec fn filled_validity(has_duplicates: bool) -> Validity {
    if has_duplicates {
        Validity::Duplicates
    } else {
        Validity::Valid
    }
}

/// The sequence `s` with the items at `i` and `j` exchanged.
pub open spec fn swapped<T>(s: Seq<T>, i: int, j: int) -> Seq<T> {
    s.update(i, s[j]).update(j, s[i])
}

/// If the move flags were exact before rows were inserted, removed or
/// swapped, and the rows between the first two and the last two can move
/// both ways, then after `restore_move_valid` every flag is exact.
proof fn lemma_restored_exact(before: Seq<Row>, after: Seq<Row>)
    requires
        after.len() == before.len(),
        forall|i: int|
            #![trigger after[i]]
            0 <= i < before.len() && move_flags_reset(before.len() as int, i) ==> (after[i].up == (i
                > 0) && after[i].down == (i + 1 < before.len())),
        forall|i: int|
            #![trigger after[i]]
            0 <= i < before.len() && !move_flags_reset(before.len() as int, i) ==> (after[i].up
                == before[i].up && after[i].down == before[i].down),
        forall|i: int|
            #![trigger before[i]]
            0 <= i < before.len() && !move_flags_reset(before.len() as int, i) ==> (before[i].up
                && before[i].down),
    ensures
        moves_exact(after),
{
    assert forall|i: int| #![trigger after[i]] 0 <= i < after.len() implies (after[i].up == (i
        > 0) && after[i].down == (i + 1 < after.len())) by {
        if !move_flags_reset(before.len() as int, i) {
            assert(before[i].up && before[i].down);
        }
    }
}

/// The validity of a declaration with `len` rows that needs `required`
/// rows, given whether its names are filled in and whether one repeats
/// another.
pub open spec fn validity_of(len: int, required: int, filled: bool, dups: bool) -> Validity {
    if len < required {
        Validity::NotEnoughRows
    } else if !filled {
        Validity::NotFilled
    } else {
        filled_validity(dups)
    }
}

/// Whether two lists of rows hold the same names.
pub open spec fn same_names(a: Seq<Row>, b: Seq<Row>) -> bool {
    &&& a.len() == b.len()
    &&& forall|i: int| #![trigger a[i]] 0 <= i < a.len() ==> a[i].name == b[i].name
}

/// Blank names and repeated names depend on the names alone.
proof fn lemma_same_names(a: Seq<Row>, b: Seq<Row>)
    requires
        same_names(a, b),
    ensures
        forall|i: int| 0 <= i < a.len() ==> dup_at(a, i) == dup_at(b, i),
        has_dups(a) == has_dups(b),
        all_filled(a) == all_filled(b),
        names(a) == names(b),
{
    assert forall|i: int| 0 <= i < a.len() implies dup_at(a, i) == dup_at(b, i) by {
        assert(a[i].name == b[i].name);
        if dup_at(a, i) {
            let j = choose|j: int| 0 <= j < i && #[trigger] trim_of(a[j].name@) == trim_of(a[i].name@);
            assert(a[j].name == b[j].name);
        }
        if dup_at(b, i) {
            let j = choose|j: int| 0 <= j < i && #[trigger] trim_of(b[j].name@) == trim_of(b[i].name@);
            assert(a[j].name == b[j].name);
        }
    }
    if has_dups(a) {
        let i = choose|i: int| 0 <= i < a.len() && #[trigger] dup_at(a, i);
        assert(dup_at(b, i));
    }
    if has_dups(b) {
        let i = choose|i: int| 0 <= i < b.len() && #[trigger] dup_at(b, i);
        assert(dup_at(a, i));
    }
    if all_filled(a) {
        assert forall|i: int| 0 <= i < b.len() implies !is_blank(#[trigger] b[i].name@) by {
            assert(a[i].name == b[i].name);
        }
    }
    if all_filled(b) {
        assert forall|i: int| 0 <= i < a.len() implies !is_blank(#[trigger] a[i].name@) by {
            assert(a[i].name == b[i].name);
        }
    }
    assert(names(a) =~= names(b));
}

/// Whether two different rows hold the same trimmed name, and it is not
/// blank.
pub open spec fn some_pair_repeats(rows: Seq<Row>) -> bool {
    exists|i: int, j: int|
        0 <= i < rows.len() && 0 <= j < rows.len() && i != j && !is_blank(rows[i].name@)
            && #[trigger] trim_of(rows[i].name@) == #[trigger] trim_of(rows[j].name@)
}

/// A name repeats the name of a row above it exactly when two different
/// rows share a name that is not blank.
proof fn lemma_dups_as_pairs(rows: Seq<Row>)
    ensures
        has_dups(rows) == some_pair_repeats(rows),
{
    if has_dups(rows) {
        let i = choose|i: int| 0 <= i < rows.len() && #[trigger] dup_at(rows, i);
        let j = choose|j: int| 0 <= j < i && #[trigger] trim_of(rows[j].name@) == trim_of(rows[i].name@);
        assert(trim_of(rows[i].name@) == trim_of(rows[j].name@));
    }
    if some_pair_repeats(rows) {
        let (i, j) = choose|i: int, j: int|
            0 <= i < rows.len() && 0 <= j < rows.len() && i != j && !is_blank(rows[i].name@)
                && #[trigger] trim_of(rows[i].name@) == #[trigger] trim_of(rows[j].name@);
        if i < j {
            assert(!is_blank(rows[j].name@));
            assert(dup_at(rows, j));
        } else {
            assert(dup_at(rows, i));
        }
    }
}

/// Removing a row makes no name repeat that did not repeat before.
proof fn lemma_remove_keeps_no_dups(rows: Seq<Row>, p: int)
    requires
        0 <= p < rows.len(),
        !has_dups(rows),
    ensures
        !has_dups(rows.remove(p)),
{
    let r = rows.remove(p);
    lemma_dups_as_pairs(rows);
    lemma_dups_as_pairs(r);
    if some_pair_repeats(r) {
        let (i, j) = choose|i: int, j: int|
            0 <= i < r.len() && 0 <= j < r.len() && i != j && !is_blank(r[i].name@)
                && #[trigger] trim_of(r[i].name@) == #[trigger] trim_of(r[j].name@);
        let i2 = if i < p {
            i
        } else {
            i + 1
        };
        let j2 = if j < p {
            j
        } else {
            j + 1
        };
        assert(r[i] == rows[i2]);
        assert(r[j] == rows[j2]);
        assert(trim_of(rows[i2].name@) == trim_of(rows[j2].name@));
    }
}

/// Exchanging two neighbouring rows keeps whether some name repeats.
proof fn lemma_swap_keeps_dups(rows: Seq<Row>, s: Seq<Row>, p: int)
    requires
        0 <= p,
        p + 1 < rows.len(),
        same_names(s, swapped(rows, p, p + 1)),
    ensures
        has_dups(s) == has_dups(rows),
{
    let w = swapped(rows, p, p + 1);
    lemma_same_names(s, w);
    lemma_dups_as_pairs(rows);
    lemma_dups_as_pairs(w);
    if some_pair_repeats(w) {
        let (i, j) = choose|i: int, j: int|
            0 <= i < w.len() && 0 <= j < w.len() && i != j && !is_blank(w[i].name@)
                && #[trigger] trim_of(w[i].name@) == #[trigger] trim_of(w[j].name@);
        let i2 = if i == p {
            p + 1
        } else if i == p + 1 {
            p
        } else {
            i
        };
        let j2 = if j == p {
            p + 1
        } else if j == p + 1 {
            p
        } else {
            j
        };
        assert(w[i] == rows[i2]);
        assert(w[j] == rows[j2]);
        assert(trim_of(rows[i2].name@) == trim_of(rows[j2].name@));
    }
    if some_pair_repeats(rows) {
        let (i, j) = choose|i: int, j: int|
            0 <= i < rows.len() && 0 <= j < rows.len() && i != j && !is_blank(rows[i].name@)
                && #[trigger] trim_of(rows[i].name@) == #[trigger] trim_of(rows[j].name@);
        let i2 = if i == p {
            p + 1
        } else if i == p + 1 {
            p
        } else {
            i
        };
        let j2 = if j == p {
            p + 1
        } else if j == p + 1 {
            p
        } else {
            j
        };
        assert(w[i2] == rows[i]);
        assert(w[j2] == rows[j]);
        assert(trim_of(w[i2].name@) == trim_of(w[j2].name@));
    }
}

/// The editor of one declaration.
#[derive(Debug)]
pub struct TypeEditor {
    pub rows: Vec<Row>,
    /// Every name was filled in when this was last found out.
    pub is_filled: bool,
    /// Some name repeated another when this was last found out; it only
    /// means something while `is_filled` holds.
    pub has_duplicates: bool,
    /// The number of rows the declaration needs.
    pub required_rows: usize,
}

impl TypeEditor {
    /// The editor's invariant: the move flags are exact, and while it
    /// claims to be filled, every name is filled in and it knows rightly
    /// whether one repeats another.
    pub open spec fn wf(&self) -> bool {
        &&& moves_exact(self.rows@)
        &&& self.is_filled ==> all_filled(self.rows@)
        &&& self.is_filled ==> self.has_duplicates == has_dups(self.rows@)
    }

    /// An empty editor for a declaration that needs `required_rows` rows.
    pub fn new(required_rows: usize) -> (r: TypeEditor)
        ensures
            r.wf(),
            r.rows@.len() == 0,
            !r.is_filled,
            !r.has_duplicates,
            r.required_rows == required_rows,
    {
        TypeEditor { rows: Vec::new(), is_filled: false, has_duplicates: false, required_rows }
    }

    /// After a blank row was inserted: the move flags are reset, and a
    /// declaration that was filled is no longer.
    fn row_inserted(&mut self, at: Ghost<int>) -> (r: Option<Validity>)
        requires
            old(self).rows@.len() > 0,
            0 <= at@ < old(self).rows@.len(),
            old(self).rows@[at@].up && old(self).rows@[at@].down,
            forall|i: int|
                #![trigger old(self).rows@[i]]
                0 <= i < at@ ==> (old(self).rows@[i].up == (i > 0) && old(self).rows@[i].down == (i
                    + 2 < old(self).rows@.len())),
            forall|i: int|
                #![trigger old(self).rows@[i]]
                at@ < i < old(self).rows@.len() ==> (old(self).rows@[i].up == (i > 1) && old(
                    self,
                ).rows@[i].down == (i + 1 < old(self).rows@.len())),
        ensures
            final(self).wf(),
            final(self).rows@.len() == old(self).rows@.len(),
            forall|i: int|
                0 <= i < old(self).rows@.len() ==> same_content(
                    #[trigger] final(self).rows@[i],
                    old(self).rows@[i],
                ),
            final(self).required_rows == old(self).required_rows,
            final(self).has_duplicates == old(self).has_duplicates,
            !final(self).is_filled,
            r == (if old(self).is_filled {
                Some(Validity::NotFilled)
            } else {
                None
            }),
    {
        let ghost before = self.rows@;
        restore_move_valid(&mut self.rows);
        proof {
            lemma_restored_exact(before, self.rows@);
        }
        if self.is_filled {
            self.is_filled = false;
            Some(Validity::NotFilled)
        } else {
            None
        }
    }

    /// Appends a row with a blank name of type text.
    pub fn add(&mut self) -> (r: Option<Validity>)
        requires
            old(self).wf(),
        ensures
            final(self).wf(),
            final(self).required_rows == old(self).required_rows,
            names(final(self).rows@) == names(old(self).rows@).push(Seq::empty()),
            types(final(self).rows@) == types(old(self).rows@).push(ColumnType::String),
            dup_marks(final(self).rows@) == dup_marks(old(self).rows@).push(false),
            !final(self).is_filled,
            final(self).has_duplicates == old(self).has_duplicates,
            r == (if old(self).is_filled {
                Some(Validity::NotFilled)
            } else {
                None
            }),
    {
        let ghost before = self.rows@;
        let ghost n = before.len() as int;
        self.rows.push(Row::new(String::new(), ColumnType::String));
        assert forall|i: int| #![trigger self.rows@[i]] 0 <= i < n implies self.rows@[i] == before[i] by {}
        let r = self.row_inserted(Ghost(n));
        assert(names(self.rows@) =~= names(before).push(Seq::empty()));
        assert(types(self.rows@) =~= types(before).push(ColumnType::String));
        assert(dup_marks(self.rows@) =~= dup_marks(before).push(false));
        r
    }

    /// Inserts a row with a blank name of type text at position `idx`, above
    /// the row that stood there.
    pub fn add_above(&mut self, idx: usize) -> (r: Option<Validity>)
        requires
            old(self).wf(),
            idx <= old(self).rows@.len(),
        ensures
            final(self).wf(),
            final(self).required_rows == old(self).required_rows,
            names(final(self).rows@) == names(old(self).rows@).insert(idx as int, Seq::empty()),
            types(final(self).rows@) == types(old(self).rows@).insert(
                idx as int,
                ColumnType::String,
            ),
            dup_marks(final(self).rows@) == dup_marks(old(self).rows@).insert(idx as int, false),
            !final(self).is_filled,
            final(self).has_duplicates == old(self).has_duplicates,
            r == (if old(self).is_filled {
                Some(Validity::NotFilled)
            } else {
                None
            }),
    {
        let ghost before = self.rows@;
        self.rows.insert(idx, Row::new(String::new(), ColumnType::String));
        assert forall|i: int| #![trigger self.rows@[i]] idx < i < self.rows@.len() implies self.rows@[i] == before[i - 1] by {}
        assert forall|i: int| #![trigger self.rows@[i]] 0 <= i < idx implies self.rows@[i] == before[i] by {}
        let r = self.row_inserted(Ghost(idx as int));
        assert(names(self.rows@) =~= names(before).insert(idx as int, Seq::empty()));
        assert(types(self.rows@) =~= types(before).insert(idx as int, ColumnType::String));
        assert(dup_marks(self.rows@) =~= dup_marks(before).insert(idx as int, false));
        r
    }

    /// Removes the row at `idx`. A declaration with too few rows left is
    /// reported as such; otherwise the duplicate marks are recomputed and a
    /// change of validity is reported.
    pub fn delete(&mut self, idx: usize) -> (r: Option<Validity>)
        requires
            old(self).wf(),
            idx < old(self).rows@.len(),
        ensures
            final(self).wf(),
            final(self).required_rows == old(self).required_rows,
            names(final(self).rows@) == names(old(self).rows@).remove(idx as int),
            types(final(self).rows@) == types(old(self).rows@).remove(idx as int),
            old(self).rows@.len() - 1 < old(self).required_rows ==> {
                &&& r == Some(Validity::NotEnoughRows)
                &&& !final(self).is_filled
                &&& final(self).has_duplicates == old(self).has_duplicates
                &&& dup_marks(final(self).rows@) == dup_marks(old(self).rows@).remove(idx as int)
            },
            old(self).rows@.len() - 1 >= old(self).required_rows ==> {
                &&& forall|i: int|
                    0 <= i < final(self).rows@.len() ==> #[trigger] final(self).rows@[i].duplicate
                        == dup_at(final(self).rows@, i)
                &&& if !old(self).is_filled && all_filled(final(self).rows@) {
                    &&& r == Some(filled_validity(has_dups(final(self).rows@)))
                    &&& final(self).is_filled
                    &&& final(self).has_duplicates == has_dups(final(self).rows@)
                } else if old(self).is_filled && old(self).has_duplicates && !has_dups(
                    final(self).rows@,
                ) {
                    &&& r == Some(Validity::Valid)
                    &&& final(self).is_filled
                    &&& !final(self).has_duplicates
                } else {
                    &&& r is None
                    &&& final(self).is_filled == old(self).is_filled
                    &&& final(self).has_duplicates == old(self).has_duplicates
                }
            },
    {
        let ghost before = self.rows@;
        self.rows.remove(idx);
        assert forall|i: int| #![trigger self.rows@[i]] 0 <= i < idx implies self.rows@[i]
            == before[i] by {}
        assert forall|i: int| #![trigger self.rows@[i]] idx <= i < self.rows@.len() implies self.rows@[i]
            == before[i + 1] by {}
        let ghost removed = self.rows@;
        restore_move_valid(&mut self.rows);
        proof {
            lemma_restored_exact(removed, self.rows@);
            assert(same_names(self.rows@, removed));
            lemma_same_names(self.rows@, removed);
            assert(names(removed) =~= names(before).remove(idx as int));
            assert(types(self.rows@) =~= types(before).remove(idx as int));
            assert(removed =~= before.remove(idx as int));
            if self.is_filled && !self.has_duplicates {
                lemma_remove_keeps_no_dups(before, idx as int);
            }
            if self.is_filled {
                assert forall|i: int| 0 <= i < removed.len() implies !is_blank(
                    #[trigger] removed[i].name@,
                ) by {
                    if i < idx {
                        assert(removed[i] == before[i]);
                    } else {
                        assert(removed[i] == before[i + 1]);
                    }
                }
            }
        }
        if self.rows.len() < self.required_rows {
            assert(dup_marks(self.rows@) =~= dup_marks(before).remove(idx as int));
            self.is_filled = false;
            return Some(Validity::NotEnoughRows);
        }
        let ghost restored = self.rows@;
        let has_duplicates = check_duplicates(&mut self.rows);
        proof {
            assert(same_names(self.rows@, restored));
            lemma_same_names(self.rows@, restored);
        }
        let filled = is_filled(&self.rows);
        if !self.is_filled {
            if filled {
                self.is_filled = true;
                if has_duplicates {
                    self.has_duplicates = true;
                    Some(Validity::Duplicates)
                } else {
                    self.has_duplicates = false;
                    Some(Validity::Valid)
                }
            } else {
                None
            }
        } else {
            // a declaration that was filled stays filled when a row goes
            if self.has_duplicates && !has_duplicates {
                self.has_duplicates = false;
                Some(Validity::Valid)
            } else {
                None
            }
        }
    }

    /// Exchanges rows `i` and `i + 1`, resets the move flags, and recomputes
    /// the duplicate marks when some name was known to repeat.
    fn swap_rows(&mut self, i: usize)
        requires
            old(self).wf(),
            i + 1 < old(self).rows@.len(),
        ensures
            final(self).wf(),
            final(self).required_rows == old(self).required_rows,
            final(self).is_filled == old(self).is_filled,
            final(self).has_duplicates == old(self).has_duplicates,
            names(final(self).rows@) == swapped(names(old(self).rows@), i as int, i + 1),
            types(final(self).rows@) == swapped(types(old(self).rows@), i as int, i + 1),
            old(self).has_duplicates ==> forall|k: int|
                0 <= k < final(self).rows@.len() ==> #[trigger] final(self).rows@[k].duplicate
                    == dup_at(final(self).rows@, k),
            !old(self).has_duplicates ==> dup_marks(final(self).rows@) == swapped(
                dup_marks(old(self).rows@),
                i as int,
                i + 1,
            ),
    {
        let ghost before = self.rows@;
        let len = self.rows.len();
        assert(i + 1 < len);
        let row = self.rows.remove(i + 1);
        self.rows.insert(i, row);
        assert(self.rows@ =~= swapped(before, i as int, i + 1));
        let ghost moved = self.rows@;
        restore_move_valid(&mut self.rows);
        proof {
            lemma_restored_exact(moved, self.rows@);
            assert(same_names(self.rows@, moved));
            lemma_same_names(self.rows@, moved);
            assert(names(moved) =~= swapped(names(before), i as int, i + 1));
            assert(types(self.rows@) =~= swapped(types(before), i as int, i + 1));
            assert(dup_marks(self.rows@) =~= swapped(dup_marks(before), i as int, i + 1));
            lemma_swap_keeps_dups(before, moved, i as int);
            if self.is_filled {
                assert forall|k: int| 0 <= k < moved.len() implies !is_blank(
                    #[trigger] moved[k].name@,
                ) by {
                    if k == i {
                        assert(moved[k] == before[k + 1]);
                    } else if k == i + 1 {
                        assert(moved[k] == before[k - 1]);
                    } else {
                        assert(moved[k] == before[k]);
                    }
                }
            }
        }
        if self.has_duplicates {
            let ghost restored = self.rows@;
            check_duplicates(&mut self.rows);
            proof {
                assert(same_names(self.rows@, restored));
                lemma_same_names(self.rows@, restored);
            }
        }
    }

    /// Moves the row at `idx` one place up; the first row stays.
    pub fn move_up(&mut self, idx: usize)
        requires
            old(self).wf(),
            idx < old(self).rows@.len(),
        ensures
            final(self).wf(),
            final(self).required_rows == old(self).required_rows,
            final(self).is_filled == old(self).is_filled,
            final(self).has_duplicates == old(self).has_duplicates,
            idx == 0 ==> final(self).rows@ == old(self).rows@,
            idx > 0 ==> {
                &&& names(final(self).rows@) == swapped(names(old(self).rows@), idx - 1, idx as int)
                &&& types(final(self).rows@) == swapped(types(old(self).rows@), idx - 1, idx as int)
                &&& old(self).has_duplicates ==> forall|k: int|
                    0 <= k < final(self).rows@.len() ==> #[trigger] final(self).rows@[k].duplicate
                        == dup_at(final(self).rows@, k)
                &&& !old(self).has_duplicates ==> dup_marks(final(self).rows@) == swapped(
                    dup_marks(old(self).rows@),
                    idx - 1,
                    idx as int,
                )
            },
    {
        if idx > 0 {
            self.swap_rows(idx - 1);
        }
    }

    /// Moves the row at `idx` one place down; the last row stays.
    pub fn move_down(&mut self, idx: usize)
        requires
            old(self).wf(),
            idx < old(self).rows@.len(),
        ensures
            final(self).wf(),
            final(self).required_rows == old(self).required_rows,
            final(self).is_filled == old(self).is_filled,
            final(self).has_duplicates == old(self).has_duplicates,
            idx + 1 == old(self).rows@.len() ==> final(self).rows@ == old(self).rows@,
            idx + 1 < old(self).rows@.len() ==> {
                &&& names(final(self).rows@) == swapped(names(old(self).rows@), idx as int, idx + 1)
                &&& types(final(self).rows@) == swapped(types(old(self).rows@), idx as int, idx + 1)
                &&& old(self).has_duplicates ==> forall|k: int|
                    0 <= k < final(self).rows@.len() ==> #[trigger] final(self).rows@[k].duplicate
                        == dup_at(final(self).rows@, k)
                &&& !old(self).has_duplicates ==> dup_marks(final(self).rows@) == swapped(
                    dup_marks(old(self).rows@),
                    idx as int,
                    idx + 1,
                )
            },
    {
        let n = self.rows.len();
        let new_idx = idx + 1;
        if new_idx < n {
            self.swap_rows(idx);
        }
    }

    /// Replaces the rows by the entries of `data`, in order, and reports the
    /// validity of the result.
    pub fn replicate(&mut self, data: &RowData) -> (r: Option<Validity>)
        ensures
            final(self).wf(),
            final(self).required_rows == old(self).required_rows,
            names(final(self).rows@) == data.0@.map_values(|e: RowEntry| e.name@),
            types(final(self).rows@) == data.0@.map_values(|e: RowEntry| e.ty),
            forall|k: int|
                0 <= k < final(self).rows@.len() ==> #[trigger] final(self).rows@[k].duplicate
                    == dup_at(final(self).rows@, k),
            final(self).is_filled == all_filled(final(self).rows@),
            final(self).has_duplicates == has_dups(final(self).rows@),
            r == Some(
                validity_of(
                    data.0@.len() as int,
                    old(self).required_rows as int,
                    final(self).is_filled,
                    final(self).has_duplicates,
                ),
            ),
    {
        self.rows.clear();
        let n = data.0.len();
        let mut k: usize = 0;
        while k < n
            invariant
                n == data.0@.len(),
                k <= n,
                self.required_rows == old(self).required_rows,
                self.rows@.len() == k,
                forall|i: int|
                    #![trigger self.rows@[i]]
                    0 <= i < k ==> self.rows@[i].name == data.0@[i].name && self.rows@[i].ty
                        == data.0@[i].ty && self.rows@[i].up && self.rows@[i].down,
            decreases n - k,
        {
            let entry = &data.0[k];
            self.rows.push(Row::new(entry.name.clone(), entry.ty));
            k = k + 1;
        }
        let ghost filled_in = self.rows@;
        restore_move_valid(&mut self.rows);
        proof {
            lemma_restored_exact(filled_in, self.rows@);
        }
        self.is_filled = is_filled(&self.rows);
        let ghost restored = self.rows@;
        self.has_duplicates = check_duplicates(&mut self.rows);
        proof {
            assert(same_names(self.rows@, restored));
            lemma_same_names(self.rows@, restored);
            assert(names(self.rows@) =~= data.0@.map_values(|e: RowEntry| e.name@));
            assert(types(self.rows@) =~= data.0@.map_values(|e: RowEntry| e.ty));
        }
        if self.rows.len() < self.required_rows {
            Some(Validity::NotEnoughRows)
        } else if !self.is_filled {
            Some(Validity::NotFilled)
        } else if self.has_duplicates {
            Some(Validity::Duplicates)
        } else {
            Some(Validity::Valid)
        }
    }

    /// The name of the row at `idx` became `name`: the duplicate marks are
    /// recomputed and a change of validity is reported.
    pub fn name_changed(&mut self, idx: usize, name: String) -> (r: Option<Validity>)
        requires
            old(self).wf(),
            idx < old(self).rows@.len(),
        ensures
            final(self).wf(),
            final(self).required_rows == old(self).required_rows,
            names(final(self).rows@) == names(old(self).rows@).update(idx as int, name@),
            types(final(self).rows@) == types(old(self).rows@),
            forall|k: int|
                0 <= k < final(self).rows@.len() ==> #[trigger] final(self).rows@[k].duplicate
                    == dup_at(final(self).rows@, k),
            ({
                let was_filled = !is_blank(old(self).rows@[idx as int].name@);
                let now_filled = !is_blank(name@);
                let dups = has_dups(final(self).rows@);
                if was_filled && !now_filled && old(self).is_filled {
                    &&& r == Some(Validity::NotFilled)
                    &&& !final(self).is_filled
                    &&& final(self).has_duplicates == old(self).has_duplicates
                } else if !was_filled && now_filled && all_filled(final(self).rows@) {
                    &&& r == Some(filled_validity(dups))
                    &&& final(self).is_filled
                    &&& final(self).has_duplicates == dups
                } else if was_filled && now_filled && old(self).is_filled
                    && old(self).has_duplicates != dups {
                    &&& r == Some(filled_validity(dups))
                    &&& final(self).is_filled
                    &&& final(self).has_duplicates == dups
                } else {
                    &&& r is None
                    &&& final(self).is_filled == old(self).is_filled
                    &&& final(self).has_duplicates == old(self).has_duplicates
                }
            }),
    {
        let ghost before = self.rows@;
        let prev_not_empty = !blank(self.rows[idx].name.as_str());
        self.rows[idx].name = name;
        let ghost renamed = self.rows@;
        proof {
            assert(names(renamed) =~= names(before).update(idx as int, name@));
            assert(types(renamed) =~= types(before));
            assert(moves_exact(renamed));
        }
        let current_not_empty = !blank(self.rows[idx].name.as_str());
        let has_duplicates = check_duplicates(&mut self.rows);
        proof {
            assert(same_names(self.rows@, renamed));
            lemma_same_names(self.rows@, renamed);
            assert(types(self.rows@) =~= types(renamed));
            if self.is_filled && current_not_empty {
                assert forall|k: int| 0 <= k < renamed.len() implies !is_blank(
                    #[trigger] renamed[k].name@,
                ) by {
                    if k != idx {
                        assert(renamed[k] == before[k]);
                    }
                }
            }
        }
        if !prev_not_empty {
            if !current_not_empty {
                // still blank
                None
            } else if is_filled(&self.rows) {
                // the last blank name was filled in
                self.is_filled = true;
                if has_duplicates {
                    self.has_duplicates = true;
                    Some(Validity::Duplicates)
                } else {
                    self.has_duplicates = false;
                    Some(Validity::Valid)
                }
            } else {
                None
            }
        } else if !current_not_empty {
            // the name became blank
            if self.is_filled {
                self.is_filled = false;
                Some(Validity::NotFilled)
            } else {
                None
            }
        } else if self.is_filled {
            // still filled in, but it may now repeat another name, or no
            // longer
            if !self.has_duplicates && has_duplicates {
                self.has_duplicates = true;
                Some(Validity::Duplicates)
            } else if self.has_duplicates && !has_duplicates {
                self.has_duplicates = false;
                Some(Validity::Valid)
            } else {
                None
            }
        } else {
            None
        }
    }

    /// The type of the row at `idx` became `ty`.
    pub fn type_changed(&mut self, idx: usize, ty: ColumnType)
        requires
            old(self).wf(),
            idx < old(self).rows@.len(),
        ensures
            final(self).wf(),
            final(self).required_rows == old(self).required_rows,
            final(self).is_filled == old(self).is_filled,
            final(self).has_duplicates == old(self).has_duplicates,
            names(final(self).rows@) == names(old(self).rows@),
            dup_marks(final(self).rows@) == dup_marks(old(self).rows@),
            types(final(self).rows@) == types(old(self).rows@).update(idx as int, ty),
    {
        let ghost before = self.rows@;
        self.rows[idx].ty = ty;
        proof {
            assert(same_names(self.rows@, before));
            lemma_same_names(self.rows@, before);
            assert(names(self.rows@) =~= names(before));
            assert(dup_marks(self.rows@) =~= dup_marks(before));
            assert(types(self.rows@) =~= types(before).update(idx as int, ty));
            assert(moves_exact(self.rows@));
            if self.is_filled {
                assert forall|k: int| 0 <= k < self.rows@.len() implies !is_blank(
                    #[trigger] self.rows@[k].name@,
                ) by {
                    assert(self.rows@[k].name == before[k].name);
                }
            }
        }
    }

    /// The declaration as it stands: each row's trimmed name and type, with
    /// its position as id.
    pub fn get_row_data(&self) -> (r: RowData)
        ensures
            r.0@.len() == self.rows@.len(),
            forall|k: int|
                #![trigger r.0@[k]]
                0 <= k < self.rows@.len() ==> r.0@[k].name@ == trim_of(self.rows@[k].name@)
                    && r.0@[k].ty == self.rows@[k].ty && r.0@[k].id == k,
    {
        let n = self.rows.len();
        let mut entries: Vec<RowEntry> = Vec::new();
        let mut k: usize = 0;
        while k < n
            invariant
                n == self.rows@.len(),
                k <= n,
                entries@.len() == k,
                forall|i: int|
                    #![trigger entries@[i]]
                    0 <= i < k ==> entries@[i].name@ == trim_of(self.rows@[i].name@)
                        && entries@[i].ty == self.rows@[i].ty && entries@[i].id == i,
            decreases n - k,
        {
            let row = &self.rows[k];
            entries.push(RowEntry { name: owned(trim(row.name.as_str())), ty: row.ty, id: k });
            k = k + 1;
        }
        RowData(entries)
    }
}

} // verus!
