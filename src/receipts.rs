//! Stores, receipts and the totals of a receipt, as the forms list them,
//! and the rules for what the forms may add.
use vstd::prelude::*;

use crate::text::{i64_text, int_text, is_blank, owned, to_upper, trim, trim_of, upper_of};

verus! {

/// A store as it is listed.
#[derive(Debug)]
pub struct StoreRow {
    pub id: i64,
    pub name: String,
    pub location: String,
}

/// A receipt as it is listed.
#[derive(Debug)]
pub struct ReceiptRow {
    pub id: i64,
    pub store_name: String,
    pub date: String,
}

/// The sum of a receipt's prices in one unit.
#[derive(Debug)]
pub struct TotalRow {
    pub unit: String,
    pub price: i64,
}

/// The sums of a receipt's prices, one for each unit.
#[derive(Debug)]
pub struct Total(pub Vec<TotalRow>);

/// How a store is listed: `name (location) #id`.
pub open spec fn store_label_text(name: Seq<char>, location: Seq<char>, id: i64) -> Seq<char> {
    name + " ("@ + location + ") #"@ + int_text(id as int)
}

/// How a receipt is listed: `date (store) #id`.
pub open spec fn receipt_label_text(date: Seq<char>, store_name: Seq<char>, id: i64) -> Seq<char> {
    date + " ("@ + store_name + ") #"@ + int_text(id as int)
}

/// How one sum is shown: `price unit`.
pub open spec fn total_row_text(row: TotalRow) -> Seq<char> {
    int_text(row.price as int) + " "@ + row.unit@
}

/// How the sums are shown: each sum, separated by `, `.
pub open spec fn total_text(rows: Seq<TotalRow>) -> Seq<char>
    decreases rows.len(),
{
    if rows.len() == 0 {
        Seq::empty()
    } else if rows.len() == 1 {
        total_row_text(rows[0])
    } else {
        total_text(rows.drop_last()) + ", "@ + total_row_text(rows.last())
    }
}

impl StoreRow {
    /// How the store is listed.
    pub fn label(&self) -> (r: String)
        ensures
            r@ == store_label_text(self.name@, self.location@, self.id),
    {
        let mut s = self.name.clone();
        s.append(" (");
        s.append(self.location.as_str());
        s.append(") #");
        let id = i64_text(self.id);
        s.append(id.as_str());
        s
    }
}

impl ReceiptRow {
    /// How the receipt is listed.
    pub fn label(&self) -> (r: String)
        ensures
            r@ == receipt_label_text(self.date@, self.store_name@, self.id),
    {
        let mut s = self.date.clone();
        s.append(" (");
        s.append(self.store_name.as_str());
        s.append(") #");
        let id = i64_text(self.id);
        s.append(id.as_str());
        s
    }
}

impl TotalRow {
    /// How the sum is shown.
    pub fn render(&self) -> (r: String)
        ensures
            r@ == total_row_text(*self),
    {
        let mut s = i64_text(self.price);
        s.append(" ");
        s.append(self.unit.as_str());
        s
    }
}

impl Total {
    /// No sums.
    pub fn new() -> (r: Total)
        ensures
            r.0@.len() == 0,
    {
        Total(Vec::new())
    }

    /// How the sums are shown.
    pub fn render(&self) -> (r: String)
        ensures
            r@ == total_text(self.0@),
    {
        let n = self.0.len();
        if n == 0 {
            return String::new();
        }
        let mut s = self.0[0].render();
        assert(self.0@.take(1).drop_last() =~= Seq::<TotalRow>::empty());
        assert(s@ == total_text(self.0@.take(1)));
        let mut i: usize = 1;
        while i < n
            invariant
                n == self.0@.len(),
                1 <= i <= n,
                s@ == total_text(self.0@.take(i as int)),
            decreases n - i,
        {
            s.append(", ");
            let row = self.0[i].render();
            s.append(row.as_str());
            assert(self.0@.take(i + 1).drop_last() =~= self.0@.take(i as int));
            i = i + 1;
        }
        assert(self.0@.take(n as int) =~= self.0@);
        s
    }
}

/// Which entry to select after a list was loaded again: the first whose id
/// was not listed before, else the last, and none in an empty list.
pub open spec fn row_to_select_spec(old_ids: Seq<i64>, new_ids: Seq<i64>) -> Option<u32> {
    if exists|i: int| 0 <= i < new_ids.len() && !old_ids.contains(#[trigger] new_ids[i]) {
        let i = choose|i: int|
            0 <= i < new_ids.len() && !old_ids.contains(#[trigger] new_ids[i]) && forall|k: int|
                0 <= k < i ==> old_ids.contains(#[trigger] new_ids[k]);
        Some(i as u32)
    } else if new_ids.len() > 0 {
        Some((new_ids.len() - 1) as u32)
    } else {
        None
    }
}

/// Whether `ids` holds `id`.
fn contains_id(ids: &Vec<i64>, id: i64) -> (r: bool)
    ensures
        r == ids@.contains(id),
{
    let n = ids.len();
    let mut i: usize = 0;
    while i < n
        invariant
            n == ids@.len(),
            i <= n,
            forall|k: int| 0 <= k < i ==> #[trigger] ids@[k] != id,
        decreases n - i,
    {
        if ids[i] == id {
            return true;
        }
        i = i + 1;
    }
    false
}

/// Which entry to select after a list was loaded again, given the ids
/// listed before and those listed now: the first new one, else the last.
pub fn row_to_select(old_ids: &Vec<i64>, new_ids: &Vec<i64>) -> (r: Option<u32>)
    requires
        new_ids@.len() <= u32::MAX,
    ensures
        r == row_to_select_spec(old_ids@, new_ids@),
        r is Some ==> r->Some_0 < new_ids@.len(),
{
    let n = new_ids.len();
    let mut i: usize = 0;
    while i < n
        invariant
            n == new_ids@.len(),
            n <= u32::MAX,
            i <= n,
            forall|k: int| 0 <= k < i ==> old_ids@.contains(#[trigger] new_ids@[k]),
        decreases n - i,
    {
        if !contains_id(old_ids, new_ids[i]) {
            proof {
                let j = choose|j: int|
                    0 <= j < new_ids@.len() && !old_ids@.contains(#[trigger] new_ids@[j])
                        && forall|k: int| 0 <= k < j ==> old_ids@.contains(#[trigger] new_ids@[k]);
                if j < i {
                } else if j > i {
                    assert(old_ids@.contains(new_ids@[i as int]));
                }
            }
            return Some(i as u32);
        }
        i = i + 1;
    }
    if n > 0 {
        Some((n - 1) as u32)
    } else {
        None
    }
}

/// The name and location of a store to add, trimmed; none when either is
/// blank.
pub fn store_entry(name: &str, location: &str) -> (r: Option<(String, String)>)
    ensures
        (r is Some) == (!is_blank(name@) && !is_blank(location@)),
        r is Some ==> r->Some_0.0@ == trim_of(name@) && r->Some_0.1@ == trim_of(location@),
{
    let name = trim(name);
    let location = trim(location);
    if !name.is_empty() && !location.is_empty() {
        Some((owned(name), owned(location)))
    } else {
        None
    }
}

/// The name under which an item is recorded: trimmed, and in capitals when
/// `capitalize` is set; none when it is blank.
pub fn item_name(name: &str, capitalize: bool) -> (r: Option<String>)
    ensures
        (r is Some) == !is_blank(name@),
        r is Some && capitalize ==> r->Some_0@ == upper_of(trim_of(name@)),
        r is Some && !capitalize ==> r->Some_0@ == trim_of(name@),
{
    let name = trim(name);
    if name.is_empty() {
        None
    } else if capitalize {
        Some(to_upper(name))
    } else {
        Some(owned(name))
    }
}

} // verus!
