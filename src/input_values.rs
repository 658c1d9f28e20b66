//! The values entered for a query's inputs. Each query keeps its own
//! values while another is shown, and gets them back, as far as its inputs
//! still fit them, when it is shown again.
use vstd::prelude::*;

use crate::column::ColumnTypeValue;
use crate::query::{RowData, RowEntry};
use crate::text::{owned, str_eq};

verus! {

/// Whether `p` is a permutation of `0..n`.
pub open spec fn is_permutation(p: Seq<int>, n: int) -> bool {
    &&& p.len() == n
    &&& forall|i: int| 0 <= i < n ==> 0 <= #[trigger] p[i] < n
    &&& forall|i: int, j: int| 0 <= i < n && 0 <= j < n && i != j ==> #[trigger] p[i] != #[trigger] p[j]
}

/// Whether `after` holds the entries of `before` ordered by id, entries of
/// equal id in the order they had.
pub open spec fn sorted_stably_by_id(before: Seq<RowEntry>, after: Seq<RowEntry>) -> bool {
    exists|p: Seq<int>|
        {
            &&& is_permutation(p, before.len() as int)
            &&& after.len() == before.len()
            &&& forall|i: int| 0 <= i < after.len() ==> #[trigger] after[i] == before[p[i]]
            &&& forall|i: int, j: int|
                0 <= i < j < after.len() ==> #[trigger] after[i].id < #[trigger] after[j].id || (
                after[i].id == after[j].id && p[i] < p[j])
        }
}

/// Relies on `slice::sort_by_key`, a stable sort: the entries come out
/// ordered by id, entries of equal id in the order they had.
#[verifier::external_body]
fn sort_by_id(rows: &mut Vec<RowEntry>)
    ensures
        sorted_stably_by_id(old(rows)@, final(rows)@),
{
    rows.sort_by_key(|e| e.id);
}

/// Whether `v` is the value that input `e` starts with, given the values
/// `prior` that its query had: the value at the input's id, when there is
/// one of the input's type, and otherwise the initial value of its type.
pub open spec fn restored_value(
    e: RowEntry,
    prior: Seq<ColumnTypeValue>,
    today: Seq<char>,
    v: ColumnTypeValue,
) -> bool {
    if e.id < prior.len() && prior[e.id as int].spec_column_type() == e.ty {
        v == prior[e.id as int]
    } else {
        v.is_initial(e.ty, today)
    }
}

/// One input field: the input's name and its value.
#[derive(Debug)]
pub struct Value {
    pub name: String,
    pub value: ColumnTypeValue,
}

/// The values of the shown query's inputs, and those kept for the others.
#[derive(Debug)]
pub struct InputValue {
    /// The values kept for each query, by name; no name occurs twice.
    pub data: Vec<(String, Vec<ColumnTypeValue>)>,
    /// The fields of the shown query.
    pub values: Vec<Value>,
    /// The name of the shown query.
    pub show: String,
}

/// The values kept under `name`, if any.
pub open spec fn kept(data: Seq<(String, Vec<ColumnTypeValue>)>, name: Seq<char>) -> Option<
    Seq<ColumnTypeValue>,
> {
    if exists|i: int| 0 <= i < data.len() && #[trigger] data[i].0@ == name {
        let i = choose|i: int| 0 <= i < data.len() && #[trigger] data[i].0@ == name;
        Some(data[i].1@)
    } else {
        None
    }
}

/// Whether no name occurs twice.
pub open spec fn keys_unique(data: Seq<(String, Vec<ColumnTypeValue>)>) -> bool {
    forall|i: int, j: int|
        0 <= i < data.len() && 0 <= j < data.len() && i != j ==> #[trigger] data[i].0@
            != #[trigger] data[j].0@
}

/// The values of a list of fields.
pub open spec fn field_values(values: Seq<Value>) -> Seq<ColumnTypeValue> {
    values.map_values(|v: Value| v.value)
}

impl InputValue {
    /// No query shown, no values kept.
    pub fn new() -> (r: InputValue)
        ensures
            r.wf(),
            r.data@.len() == 0,
            r.values@.len() == 0,
            r.show@.len() == 0,
    {
        InputValue { data: Vec::new(), values: Vec::new(), show: String::new() }
    }

    /// No name is kept twice.
    pub open spec fn wf(&self) -> bool {
        keys_unique(self.data@)
    }

    /// The position of the values kept under `name`.
    fn position(&self, name: &str) -> (r: Option<usize>)
        ensures
            match r {
                Some(i) => i < self.data@.len() && self.data@[i as int].0@ == name@,
                None => forall|i: int| 0 <= i < self.data@.len() ==> #[trigger] self.data@[i].0@ != name@,
            },
    {
        let n = self.data.len();
        let mut i: usize = 0;
        while i < n
            invariant
                n == self.data@.len(),
                i <= n,
                forall|k: int| 0 <= k < i ==> #[trigger] self.data@[k].0@ != name@,
            decreases n - i,
        {
            if str_eq(self.data[i].0.as_str(), name) {
                return Some(i);
            }
            i = i + 1;
        }
        None
    }

    /// Keeps `values` under `name`, in place of what was kept there.
    fn keep(&mut self, name: String, values: Vec<ColumnTypeValue>)
        requires
            old(self).wf(),
        ensures
            final(self).wf(),
            final(self).values@ == old(self).values@,
            final(self).show == old(self).show,
            forall|k: Seq<char>|
                #[trigger] kept(final(self).data@, k) == if k == name@ {
                    Some(values@)
                } else {
                    kept(old(self).data@, k)
                },
    {
        let ghost before = self.data@;
        let ghost vals = values@;
        let ghost key = name@;
        match self.position(name.as_str()) {
            Some(i) => {
                self.data.set(i, (name, values));
                proof {
                    assert forall|k: Seq<char>| #[trigger]
                        kept(self.data@, k) == if k == key {
                            Some(vals)
                        } else {
                            kept(before, k)
                        } by {
                        if k == key {
                            assert(self.data@[i as int].0@ == k);
                        } else {
                            if exists|j: int| 0 <= j < before.len() && #[trigger] before[j].0@ == k {
                                let j = choose|j: int|
                                    0 <= j < before.len() && #[trigger] before[j].0@ == k;
                                assert(self.data@[j].0@ == k);
                            }
                            if exists|j: int|
                                0 <= j < self.data@.len() && #[trigger] self.data@[j].0@ == k {
                                let j = choose|j: int|
                                    0 <= j < self.data@.len() && #[trigger] self.data@[j].0@ == k;
                                assert(before[j].0@ == k);
                            }
                        }
                    }
                }
            },
            None => {
                self.data.push((name, values));
                proof {
                    let n = before.len() as int;
                    assert(self.data@[n].0@ == key);
                    assert forall|k: Seq<char>| #[trigger]
                        kept(self.data@, k) == if k == key {
                            Some(vals)
                        } else {
                            kept(before, k)
                        } by {
                        if k != key {
                            if exists|j: int| 0 <= j < before.len() && #[trigger] before[j].0@ == k {
                                let j = choose|j: int|
                                    0 <= j < before.len() && #[trigger] before[j].0@ == k;
                                assert(self.data@[j].0@ == k);
                            }
                            if exists|j: int|
                                0 <= j < self.data@.len() && #[trigger] self.data@[j].0@ == k {
                                let j = choose|j: int|
                                    0 <= j < self.data@.len() && #[trigger] self.data@[j].0@ == k;
                                assert(before[j].0@ == k);
                            }
                        }
                    }
                }
            },
        }
    }

    /// The values of the shown fields.
    fn current_values(&self) -> (r: Vec<ColumnTypeValue>)
        ensures
            r@ == field_values(self.values@),
    {
        let n = self.values.len();
        let mut r: Vec<ColumnTypeValue> = Vec::new();
        let mut i: usize = 0;
        while i < n
            invariant
                n == self.values@.len(),
                i <= n,
                r@ == field_values(self.values@).take(i as int),
            decreases n - i,
        {
            r.push(self.values[i].value.clone());
            i = i + 1;
            assert(r@ =~= field_values(self.values@).take(i as int));
        }
        assert(field_values(self.values@).take(n as int) =~= field_values(self.values@));
        r
    }

    /// Shows the query `name` with the input declaration `row_data`. The
    /// values of the query shown so far are kept under its name; the new
    /// fields follow the inputs ordered by id, each with the value its query
    /// had at the input's id when that value has the input's type, and the
    /// initial value of the type otherwise, dates starting at `today`.
    pub fn replicate(&mut self, name: String, row_data: RowData, today: &str)
        requires
            old(self).wf(),
        ensures
            final(self).wf(),
            final(self).show@ == name@,
            ({
                let prior = if name@ == old(self).show@ {
                    field_values(old(self).values@)
                } else {
                    match kept(old(self).data@, name@) {
                        Some(vals) => vals,
                        None => Seq::empty(),
                    }
                };
                exists|sorted: Seq<RowEntry>|
                    {
                        &&& sorted_stably_by_id(row_data.0@, sorted)
                        &&& final(self).values@.len() == sorted.len()
                        &&& forall|i: int|
                            #![trigger final(self).values@[i]]
                            0 <= i < sorted.len() ==> final(self).values@[i].name == sorted[i].name
                                && restored_value(
                                sorted[i],
                                prior,
                                today@,
                                final(self).values@[i].value,
                            )
                    }
            }),
            forall|k: Seq<char>|
                #[trigger] kept(final(self).data@, k) == if k == name@ {
                    Some(field_values(final(self).values@))
                } else if k == old(self).show@ {
                    Some(field_values(old(self).values@))
                } else {
                    kept(old(self).data@, k)
                },
    {
        let ghost old_values = field_values(self.values@);
        let ghost old_data = self.data@;
        let ghost old_show = self.show@;
        // keep the values of the query shown so far
        let old_name = self.show.clone();
        self.show = name.clone();
        let current = self.current_values();
        self.keep(old_name, current);
        // the values the query had, if any
        let prior: Vec<ColumnTypeValue> = match self.position(name.as_str()) {
            Some(i) => self.data[i].1.clone(),
            None => Vec::new(),
        };
        proof {
            if exists|j: int| 0 <= j < self.data@.len() && #[trigger] self.data@[j].0@ == name@ {
                let j = choose|j: int| 0 <= j < self.data@.len() && #[trigger] self.data@[j].0@
                    == name@;
                assert(kept(self.data@, name@) == Some(self.data@[j].1@));
            }
            assert(prior@ =~= (if name@ == old_show {
                old_values
            } else {
                match kept(old_data, name@) {
                    Some(vals) => vals,
                    None => Seq::empty(),
                }
            }));
        }
        let mut entries = row_data.0;
        sort_by_id(&mut entries);
        let n = entries.len();
        let mut fields: Vec<Value> = Vec::new();
        let mut vals: Vec<ColumnTypeValue> = Vec::new();
        let mut i: usize = 0;
        while i < n
            invariant
                n == entries@.len(),
                i <= n,
                fields@.len() == i,
                vals@ == field_values(fields@),
                forall|k: int|
                    #![trigger fields@[k]]
                    0 <= k < i ==> fields@[k].name == entries@[k].name && restored_value(
                        entries@[k],
                        prior@,
                        today@,
                        fields@[k].value,
                    ),
            decreases n - i,
        {
            let e = &entries[i];
            let v = if e.id < prior.len() && prior[e.id].is_column_type(e.ty) {
                prior[e.id].clone()
            } else {
                ColumnTypeValue::initial(e.ty, owned(today))
            };
            vals.push(v.clone());
            fields.push(Value { name: e.name.clone(), value: v });
            i = i + 1;
            assert(vals@ =~= field_values(fields@));
        }
        self.values = fields;
        self.keep(name, vals);
    }

    /// The field at `idx` now holds `value`; nothing changes when there is
    /// no such field.
    pub fn set_value(&mut self, idx: usize, value: ColumnTypeValue)
        requires
            old(self).wf(),
        ensures
            final(self).wf(),
            final(self).data@ == old(self).data@,
            final(self).show == old(self).show,
            final(self).values@.len() == old(self).values@.len(),
            idx < old(self).values@.len() ==> final(self).values@ == old(self).values@.update(
                idx as int,
                Value { name: old(self).values@[idx as int].name, value },
            ),
            idx >= old(self).values@.len() ==> final(self).values@ == old(self).values@,
    {
        if idx < self.values.len() {
            self.values[idx].value = value;
            assert(self.values@ =~= old(self).values@.update(
                idx as int,
                Value { name: old(self).values@[idx as int].name, value },
            ));
        }
    }

    /// The name and value of each shown field, in order.
    pub fn get_input_values(&self) -> (r: Vec<(String, ColumnTypeValue)>)
        ensures
            r@.len() == self.values@.len(),
            forall|i: int|
                #![trigger r@[i]]
                0 <= i < r@.len() ==> r@[i].0 == self.values@[i].name && r@[i].1
                    == self.values@[i].value,
    {
        let n = self.values.len();
        let mut r: Vec<(String, ColumnTypeValue)> = Vec::new();
        let mut i: usize = 0;
        while i < n
            invariant
                n == self.values@.len(),
                i <= n,
                r@.len() == i,
                forall|k: int|
                    #![trigger r@[k]]
                    0 <= k < i ==> r@[k].0 == self.values@[k].name && r@[k].1
                        == self.values@[k].value,
            decreases n - i,
        {
            let v = &self.values[i];
            r.push((v.name.clone(), v.value.clone()));
            i = i + 1;
        }
        r
    }
}

/// The inputs as named SQL parameters: each name preceded by `:`.
pub fn named_parameters(values: Vec<(String, ColumnTypeValue)>) -> (r: Vec<(String, ColumnTypeValue)>)
    ensures
        r@.len() == values@.len(),
        forall|i: int|
            #![trigger r@[i]]
            0 <= i < r@.len() ==> r@[i].0@ == seq![':'] + values@[i].0@ && r@[i].1 == values@[i].1,
{
    let n = values.len();
    let mut r: Vec<(String, ColumnTypeValue)> = Vec::new();
    let mut i: usize = 0;
    while i < n
        invariant
            n == values@.len(),
            i <= n,
            r@.len() == i,
            forall|k: int|
                #![trigger r@[k]]
                0 <= k < i ==> r@[k].0@ == seq![':'] + values@[k].0@ && r@[k].1 == values@[k].1,
        decreases n - i,
    {
        let mut name = owned(":");
        proof {
            reveal_strlit(":");
        }
        name.append(values[i].0.as_str());
        r.push((name, values[i].1.clone()));
        i = i + 1;
    }
    r
}

} // verus!
