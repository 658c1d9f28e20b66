//! Saved ad-hoc queries: the SQL text, the declared columns of its result
//! and the declared inputs it takes.
use vstd::prelude::*;

use crate::column::ColumnType;

verus! {

/// One declared column or input: its name, its type, and its position in
/// the declaration it was read from.
#[derive(Debug)]
pub struct RowEntry {
    pub name: String,
    pub ty: ColumnType,
    pub id: usize,
}

impl Clone for RowEntry {
    fn clone(&self) -> (r: Self)
        ensures
            r == *self,
    {
        RowEntry { name: self.name.clone(), ty: self.ty, id: self.id }
    }
}

/// An ordered list of declared columns or inputs.
#[derive(Debug)]
pub struct RowData(pub Vec<RowEntry>);

impl Clone for RowData {
    fn clone(&self) -> (r: Self)
        ensures
            r.0@ == self.0@,
    {
        let r = self.0.clone();
        assert(r@ =~= self.0@);
        RowData(r)
    }
}

/// Whether each entry's id is its position in the list.
pub open spec fn numbered(rows: Seq<RowEntry>) -> bool {
    forall|i: int| 0 <= i < rows.len() ==> #[trigger] rows[i].id == i
}

/// Whether two lists declare the same names and types, in the same order.
pub open spec fn same_declarations(a: Seq<RowEntry>, b: Seq<RowEntry>) -> bool {
    &&& a.len() == b.len()
    &&& forall|i: int| 0 <= i < a.len() ==> #[trigger] a[i].name == b[i].name && a[i].ty == b[i].ty
}

impl RowData {
    /// An empty declaration.
    pub fn new() -> (r: RowData)
        ensures
            r.0@.len() == 0,
    {
        RowData(Vec::new())
    }

    /// Gives each entry its position as id; this is done after a list was
    /// read back from storage, where ids are not kept.
    pub fn renumber(&mut self)
        ensures
            same_declarations(final(self).0@, old(self).0@),
            numbered(final(self).0@),
    {
        let n = self.0.len();
        let mut i: usize = 0;
        while i < n
            invariant
                n == self.0@.len(),
                i <= n,
                same_declarations(self.0@, old(self).0@),
                forall|k: int| 0 <= k < i ==> #[trigger] self.0@[k].id == k,
            decreases n - i,
        {
            self.0[i].id = i;
            i = i + 1;
        }
    }
}

/// A saved query: its SQL text, the columns of its result and its inputs.
#[derive(Debug)]
pub struct Query {
    pub sql: String,
    pub table_header: RowData,
    pub query_input: RowData,
}

impl Clone for Query {
    fn clone(&self) -> (r: Self)
        ensures
            r.sql == self.sql,
            r.table_header.0@ == self.table_header.0@,
            r.query_input.0@ == self.query_input.0@,
    {
        Query {
            sql: self.sql.clone(),
            table_header: self.table_header.clone(),
            query_input: self.query_input.clone(),
        }
    }
}

impl Query {
    /// A query with no SQL text, no columns and no inputs.
    pub fn new() -> (r: Query)
        ensures
            r.sql@.len() == 0,
            r.table_header.0@.len() == 0,
            r.query_input.0@.len() == 0,
    {
        Query { sql: String::new(), table_header: RowData::new(), query_input: RowData::new() }
    }

    /// Gives the entries of both declarations their positions as ids.
    pub fn renumber(&mut self)
        ensures
            final(self).sql == old(self).sql,
            same_declarations(final(self).table_header.0@, old(self).table_header.0@),
            same_declarations(final(self).query_input.0@, old(self).query_input.0@),
            numbered(final(self).table_header.0@),
            numbered(final(self).query_input.0@),
    {
        self.table_header.renumber();
        self.query_input.renumber();
    }
}

} // verus!
