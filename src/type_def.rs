//! The bookkeeping of a grid that edits a declaration row by row: each row
//! knows its position, the grid ends with a row that only holds the button
//! for a new row, and the move buttons are enabled where a move is possible.
use vstd::prelude::*;

verus! {

/// Whether a row was added or deleted.
#[derive(Debug, Clone, Copy, PartialEq, Eq, Structural)]
pub enum RowChange {
    Add,
    Delete,
}

impl From<bool> for RowChange {
    fn from(b: bool) -> (r: RowChange) {
        if b {
            RowChange::Add
        } else {
            RowChange::Delete
        }
    }
}

impl vstd::std_specs::convert::FromSpecImpl<bool> for RowChange {
    open spec fn obeys_from_spec() -> bool {
        true
    }

    open spec fn from_spec(v: bool) -> RowChange {
        if v {
            RowChange::Add
        } else {
            RowChange::Delete
        }
    }
}

impl From<RowChange> for bool {
    fn from(r: RowChange) -> (b: bool) {
        r == RowChange::Add
    }
}

impl vstd::std_specs::convert::FromSpecImpl<RowChange> for bool {
    open spec fn obeys_from_spec() -> bool {
        true
    }

    open spec fn from_spec(v: RowChange) -> bool {
        v == RowChange::Add
    }
}

/// How the grid's declaration stands, with its number: no rows, a blank
/// name, a repeated name, or valid.
#[derive(Debug, Clone, Copy, PartialEq, Eq, Structural)]
pub enum Validity {
    NoRows,
    NotFilled,
    Duplicates,
    Valid,
}

impl Validity {
    /// The number of the validity.
    pub open spec fn spec_number(self) -> i32 {
        match self {
            Validity::NoRows => 0,
            Validity::NotFilled => 1,
            Validity::Duplicates => 2,
            Validity::Valid => 3,
        }
    }

    /// The number of the validity.
    pub fn number(self) -> (r: i32)
        ensures
            r == self.spec_number(),
    {
        match self {
            Validity::NoRows => 0,
            Validity::NotFilled => 1,
            Validity::Duplicates => 2,
            Validity::Valid => 3,
        }
    }

    /// The validity with number `n`; any other number stands for valid.
    pub fn from_number(n: i32) -> (r: Validity)
        ensures
            0 <= n <= 3 ==> r.spec_number() == n,
            !(0 <= n <= 3) ==> r == Validity::Valid,
    {
        match n {
            0 => Validity::NoRows,
            1 => Validity::NotFilled,
            2 => Validity::Duplicates,
            _ => Validity::Valid,
        }
    }
}

/// The state of one grid row.
#[derive(Debug, Clone, Copy, PartialEq, Eq, Structural)]
pub struct RowState {
    /// The row's position in the grid.
    pub idx: u32,
    pub up_valid: bool,
    pub down_valid: bool,
}

impl RowState {
    /// A row at `idx` that can be moved both ways.
    pub fn new(idx: u32) -> (r: RowState)
        ensures
            r.idx == idx,
            r.up_valid,
            r.down_valid,
    {
        RowState { idx, up_valid: true, down_valid: true }
    }

    /// Makes the row unmovable.
    pub fn disable_up_and_down(&mut self)
        ensures
            final(self).idx == old(self).idx,
            !final(self).up_valid,
            !final(self).down_valid,
    {
        self.up_valid = false;
        self.down_valid = false;
    }
}

/// Whether the move flags of row `i` of `len` are reset by
/// `restore_move_valid`: the first two rows and the last two before the
/// button row.
pub open spec fn move_flags_reset(len: int, i: int) -> bool {
    i < 2 || i + 3 >= len
}

/// Sets the move flags of row `i`.
fn set_moves(rows: &mut Vec<RowState>, i: usize, up: bool, down: bool)
    requires
        i < old(rows)@.len(),
    ensures
        final(rows)@ == old(rows)@.update(
            i as int,
            RowState { idx: old(rows)@[i as int].idx, up_valid: up, down_valid: down },
        ),
{
    rows[i].up_valid = up;
    rows[i].down_valid = down;
}

/// Resets the move flags of the first two rows and of the last two before
/// the button row; the rows between and the button row keep theirs.
pub fn restore_move_valid(rows: &mut Vec<RowState>)
    ensures
        final(rows)@.len() == old(rows)@.len(),
        forall|i: int|
            #![trigger final(rows)@[i]]
            0 <= i < old(rows)@.len() ==> final(rows)@[i].idx == old(rows)@[i].idx,
        forall|i: int|
            #![trigger final(rows)@[i]]
            0 <= i < old(rows)@.len() - 1 && move_flags_reset(old(rows)@.len() as int, i) ==> (
            final(rows)@[i].up_valid == (i > 0) && final(rows)@[i].down_valid == (i + 2 < old(
                rows,
            )@.len())),
        forall|i: int|
            #![trigger final(rows)@[i]]
            0 <= i < old(rows)@.len() && !(i < old(rows)@.len() - 1 && move_flags_reset(
                old(rows)@.len() as int,
                i,
            )) ==> final(rows)@[i] == old(rows)@[i],
{
    let n = rows.len();
    if n <= 1 {
        return ;
    } else if n == 2 {
        set_moves(rows, 0, false, false);
    } else if n == 3 {
        set_moves(rows, 0, false, true);
        set_moves(rows, 1, true, false);
    } else if n == 4 {
        set_moves(rows, 0, false, true);
        set_moves(rows, 1, true, true);
        set_moves(rows, 2, true, false);
    } else {
        set_moves(rows, 0, false, true);
        set_moves(rows, 1, true, true);
        set_moves(rows, n - 3, true, true);
        set_moves(rows, n - 2, true, false);
    }
}

/// The row states of a grid, the button row last.
#[derive(Debug)]
pub struct TypeDefRows(pub Vec<RowState>);

impl TypeDefRows {
    /// The invariant: there is a button row, every row knows its position,
    /// the button row cannot move, and each other row can move exactly
    /// where another row than the button row lies.
    pub open spec fn wf(&self) -> bool {
        let rows = self.0@;
        &&& rows.len() >= 1
        &&& rows.len() <= u32::MAX
        &&& forall|i: int| #![trigger rows[i]] 0 <= i < rows.len() ==> rows[i].idx == i
        &&& !rows.last().up_valid && !rows.last().down_valid
        &&& forall|i: int|
            #![trigger rows[i]]
            0 <= i < rows.len() - 1 ==> rows[i].up_valid == (i > 0) && rows[i].down_valid == (i + 2
                < rows.len())
    }

    /// A grid that holds only the button row.
    pub fn new() -> (r: TypeDefRows)
        ensures
            r.wf(),
            r.0@.len() == 1,
    {
        let mut button = RowState::new(0);
        button.disable_up_and_down();
        let mut rows: Vec<RowState> = Vec::new();
        rows.push(button);
        TypeDefRows(rows)
    }

    /// After rows were inserted, removed or renumbered: with every position
    /// right, and the rows between the first two and the last two able to
    /// move both ways, resetting the flags restores the invariant.
    proof fn lemma_restored(before: Seq<RowState>, after: Seq<RowState>)
        requires
            before.len() >= 1,
            before.len() <= u32::MAX,
            forall|i: int| #![trigger before[i]] 0 <= i < before.len() ==> before[i].idx == i,
            !before.last().up_valid && !before.last().down_valid,
            forall|i: int|
                #![trigger before[i]]
                0 <= i < before.len() - 1 && !move_flags_reset(before.len() as int, i) ==> (
                before[i].up_valid && before[i].down_valid),
            after.len() == before.len(),
            forall|i: int|
                #![trigger after[i]]
                0 <= i < before.len() ==> after[i].idx == before[i].idx,
            forall|i: int|
                #![trigger after[i]]
                0 <= i < before.len() - 1 && move_flags_reset(before.len() as int, i) ==> (
                after[i].up_valid == (i > 0) && after[i].down_valid == (i + 2 < before.len())),
            forall|i: int|
                #![trigger after[i]]
                0 <= i < before.len() && !(i < before.len() - 1 && move_flags_reset(
                    before.len() as int,
                    i,
                )) ==> after[i] == before[i],
        ensures
            ({
                let rows = after;
                &&& forall|i: int| #![trigger rows[i]] 0 <= i < rows.len() ==> rows[i].idx == i
                &&& !rows.last().up_valid && !rows.last().down_valid
                &&& forall|i: int|
                    #![trigger rows[i]]
                    0 <= i < rows.len() - 1 ==> rows[i].up_valid == (i > 0) && rows[i].down_valid
                        == (i + 2 < rows.len())
            }),
    {
        assert(after.last() == before.last());
        assert forall|i: int| #![trigger after[i]] 0 <= i < after.len() - 1 implies after[i].up_valid
            == (i > 0) && after[i].down_valid == (i + 2 < after.len()) by {
            if !move_flags_reset(before.len() as int, i) {
                assert(after[i] == before[i]);
            }
        }
    }

    /// Inserts a new row at `idx`, above the row that stood there; the rows
    /// from there on move one place down.
    pub fn add_row(&mut self, idx: u32)
        requires
            old(self).wf(),
            idx < old(self).0@.len(),
            old(self).0@.len() < u32::MAX,
        ensures
            final(self).wf(),
            final(self).0@.len() == old(self).0@.len() + 1,
    {
        let n = self.0.len();
        let at = idx as usize;
        let mut i = at;
        while i < n
            invariant
                n == self.0@.len(),
                n == old(self).0@.len(),
                n < u32::MAX,
                at <= i <= n,
                forall|k: int|
                    #![trigger self.0@[k]]
                    0 <= k < n ==> self.0@[k].idx == (if at <= k < i {
                        k + 1
                    } else {
                        k
                    }) && self.0@[k].up_valid == old(self).0@[k].up_valid && self.0@[k].down_valid
                        == old(self).0@[k].down_valid,
            decreases n - i,
        {
            let next = self.0[i].idx + 1;
            self.0[i].idx = next;
            i = i + 1;
        }
        self.0.insert(at, RowState::new(idx));
        let ghost before = self.0@;
        proof {
            assert forall|k: int| #![trigger before[k]] 0 <= k < before.len() implies before[k].idx
                == k by {
                if k > at {
                    assert(before[k] == self.0@[k]);
                }
            }
        }
        restore_move_valid(&mut self.0);
        proof {
            Self::lemma_restored(before, self.0@);
        }
    }

    /// Removes the row at `idx`, which is not the button row; the rows
    /// below it move one place up.
    pub fn delete_row(&mut self, idx: u32)
        requires
            old(self).wf(),
            idx + 1 < old(self).0@.len(),
        ensures
            final(self).wf(),
            final(self).0@.len() == old(self).0@.len() - 1,
    {
        let n = self.0.len();
        let at = idx as usize;
        let mut i = at + 1;
        while i < n
            invariant
                n == self.0@.len(),
                n == old(self).0@.len(),
                at + 1 <= i <= n,
                forall|k: int|
                    #![trigger self.0@[k]]
                    0 <= k < n ==> self.0@[k].idx == (if at + 1 <= k < i {
                        k - 1
                    } else {
                        k
                    }) && self.0@[k].up_valid == old(self).0@[k].up_valid && self.0@[k].down_valid
                        == old(self).0@[k].down_valid,
            decreases n - i,
        {
            let prev = self.0[i].idx - 1;
            self.0[i].idx = prev;
            i = i + 1;
        }
        self.0.remove(at);
        let ghost before = self.0@;
        proof {
            assert forall|k: int| #![trigger before[k]] 0 <= k < before.len() implies before[k].idx
                == k by {
                if k >= at {
                    assert(before[k] == self.0@[k]);
                }
            }
        }
        restore_move_valid(&mut self.0);
        proof {
            Self::lemma_restored(before, self.0@);
        }
    }

    /// Replaces the rows by `len` new ones, keeping the button row.
    pub fn replicate(&mut self, len: u32)
        requires
            old(self).wf(),
            len < u32::MAX,
        ensures
            final(self).wf(),
            final(self).0@.len() == len + 1,
    {
        while self.0.len() > 1
            invariant
                self.0@.len() >= 1,
                !self.0@.last().up_valid && !self.0@.last().down_valid,
            decreases self.0@.len(),
        {
            self.0.remove(0);
        }
        self.0[0].idx = len;
        let mut k = len;
        while k > 0
            invariant
                k <= len,
                self.0@.len() == len - k + 1,
                forall|i: int| #![trigger self.0@[i]] 0 <= i < self.0@.len() ==> self.0@[i].idx == k + i,
                !self.0@.last().up_valid && !self.0@.last().down_valid,
                forall|i: int|
                    #![trigger self.0@[i]]
                    0 <= i < self.0@.len() - 1 ==> self.0@[i].up_valid && self.0@[i].down_valid,
            decreases k,
        {
            k = k - 1;
            self.0.insert(0, RowState::new(k));
        }
        let ghost before = self.0@;
        restore_move_valid(&mut self.0);
        proof {
            Self::lemma_restored(before, self.0@);
        }
    }

    /// The positions of the rows other than the button row.
    pub fn row_iter(&self) -> (r: Vec<u32>)
        requires
            self.wf(),
        ensures
            r@.len() == self.0@.len() - 1,
            forall|i: int| #![trigger r@[i]] 0 <= i < r@.len() ==> r@[i] == i,
    {
        let n = self.0.len() - 1;
        let mut r: Vec<u32> = Vec::new();
        let mut i: usize = 0;
        while i < n
            invariant
                n == self.0@.len() - 1,
                self.wf(),
                i <= n,
                r@.len() == i,
                forall|k: int| #![trigger r@[k]] 0 <= k < i ==> r@[k] == k,
            decreases n - i,
        {
            r.push(self.0[i].idx);
            i = i + 1;
        }
        r
    }

    /// Whether the row at `idx` can swap places with the row above it.
    pub fn can_move_up(&self, idx: u32) -> (r: bool)
        ensures
            r == (idx > 0),
    {
        idx > 0
    }

    /// Whether the row at `idx` can swap places with the row below it,
    /// which must not be the button row.
    pub fn can_move_down(&self, idx: u32) -> (r: bool)
        ensures
            r == (idx as int + 2 < self.0@.len()),
    {
        (idx as usize) < self.0.len() && self.0.len() - (idx as usize) > 2
    }
}

} // verus!
