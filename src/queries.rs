//! The list of saved queries, each under a name of its own, and which of
//! them is selected.
use vstd::prelude::*;

use crate::query::{Query, RowData};
use crate::text::{is_blank, owned, str_eq, trim, trim_of};

verus! {

/// Whether some query in `queries` is named `name`.
pub open spec fn has_name(queries: Seq<(String, Query)>, name: Seq<char>) -> bool {
    exists|i: int| 0 <= i < queries.len() && #[trigger] queries[i].0@ == name
}

/// The saved queries and the selection among them.
#[derive(Debug)]
pub struct QueryBook {
    pub queries: Vec<(String, Query)>,
    pub selected_query: Option<usize>,
    pub query_selected: bool,
    /// Whether the text in the field for a new query's name may be used.
    pub new_button_valid: bool,
}

impl QueryBook {
    /// A book of the given queries, nothing selected.
    pub fn new(queries: Vec<(String, Query)>) -> (r: QueryBook)
        ensures
            r.queries@ == queries@,
            r.selected_query is None,
            !r.query_selected,
            !r.new_button_valid,
    {
        QueryBook { queries, selected_query: None, query_selected: false, new_button_valid: false }
    }

    /// Whether some query is named `name`.
    pub fn contains_name(&self, name: &str) -> (r: bool)
        ensures
            r == has_name(self.queries@, name@),
    {
        let n = self.queries.len();
        let mut i: usize = 0;
        while i < n
            invariant
                n == self.queries@.len(),
                i <= n,
                forall|k: int| 0 <= k < i ==> #[trigger] self.queries@[k].0@ != name@,
            decreases n - i,
        {
            if str_eq(self.queries[i].0.as_str(), name) {
                return true;
            }
            i = i + 1;
        }
        false
    }

    /// The names of all queries, in order.
    pub fn names(&self) -> (r: Vec<String>)
        ensures
            r@.len() == self.queries@.len(),
            forall|k: int| 0 <= k < r@.len() ==> #[trigger] r@[k]@ == self.queries@[k].0@,
    {
        let n = self.queries.len();
        let mut names: Vec<String> = Vec::new();
        let mut i: usize = 0;
        while i < n
            invariant
                n == self.queries@.len(),
                i <= n,
                names@.len() == i,
                forall|k: int| 0 <= k < i ==> #[trigger] names@[k]@ == self.queries@[k].0@,
            decreases n - i,
        {
            names.push(self.queries[i].0.clone());
            i = i + 1;
        }
        names
    }

    /// The field for a new query's name now holds `text`: it may be used
    /// when it is not blank and no query has that name yet.
    pub fn new_query_name_changed(&mut self, text: &str)
        ensures
            final(self).new_button_valid == (!is_blank(text@) && !has_name(
                old(self).queries@,
                trim_of(text@),
            )),
            final(self).queries@ == old(self).queries@,
            final(self).selected_query == old(self).selected_query,
            final(self).query_selected == old(self).query_selected,
    {
        let name = trim(text);
        self.new_button_valid = !name.is_empty() && !self.contains_name(name);
    }

    /// Adds an empty query named after the trimmed `text`, unless that is
    /// blank or taken, and selects it; returns its position.
    pub fn new_query(&mut self, text: &str) -> (r: Option<usize>)
        ensures
            (r is Some) == (!is_blank(text@) && !has_name(old(self).queries@, trim_of(text@))),
            r is None ==> final(self).queries@ == old(self).queries@ && final(self).selected_query
                == old(self).selected_query,
            r is Some ==> {
                &&& r->Some_0 == old(self).queries@.len()
                &&& final(self).queries@.len() == old(self).queries@.len() + 1
                &&& final(self).queries@.drop_last() == old(self).queries@
                &&& final(self).queries@.last().0@ == trim_of(text@)
                &&& final(self).queries@.last().1.sql@.len() == 0
                &&& final(self).queries@.last().1.table_header.0@.len() == 0
                &&& final(self).queries@.last().1.query_input.0@.len() == 0
                &&& final(self).selected_query == r
            },
            final(self).query_selected == old(self).query_selected,
    {
        let name = trim(text);
        if name.is_empty() || self.contains_name(name) {
            return None;
        }
        let ghost before = self.queries@;
        self.queries.push((owned(name), Query::new()));
        assert(self.queries@.drop_last() =~= before);
        let id = self.queries.len() - 1;
        self.selected_query = Some(id);
        Some(id)
    }

    /// Stores the edited query at `id` under `name`, and selects it.
    pub fn edit_query_result(&mut self, query: Query, name: String, id: usize)
        ensures
            id < old(self).queries@.len() ==> final(self).queries@ == old(self).queries@.update(
                id as int,
                (name, query),
            ),
            id >= old(self).queries@.len() ==> final(self).queries@ == old(self).queries@,
            final(self).selected_query == Some(id),
            final(self).query_selected == old(self).query_selected,
    {
        if id < self.queries.len() {
            self.queries.set(id, (name, query));
        }
        self.selected_query = Some(id);
    }

    /// Removes the query at `id`.
    pub fn delete_query(&mut self, id: usize)
        requires
            id < old(self).queries@.len(),
        ensures
            final(self).queries@ == old(self).queries@.remove(id as int),
            final(self).selected_query == old(self).selected_query,
            final(self).query_selected == old(self).query_selected,
    {
        self.queries.remove(id);
    }

    /// The selection became `active`; returns the name and the input
    /// declaration of the selected query, if there is one at that position.
    pub fn query_selected(&mut self, active: Option<usize>) -> (r: Option<(String, RowData)>)
        ensures
            final(self).selected_query == active,
            final(self).query_selected == (active is Some),
            final(self).queries@ == old(self).queries@,
            (r is Some) == (active is Some && active->Some_0 < old(self).queries@.len()),
            r is Some ==> {
                let q = old(self).queries@[active->Some_0 as int];
                &&& r->Some_0.0@ == q.0@
                &&& r->Some_0.1.0@ == q.1.query_input.0@
            },
    {
        self.selected_query = active;
        self.query_selected = active.is_some();
        match active {
            Some(id) => {
                if id < self.queries.len() {
                    let entry = &self.queries[id];
                    Some((entry.0.clone(), entry.1.query_input.clone()))
                } else {
                    None
                }
            },
            None => None,
        }
    }
}

} // verus!
