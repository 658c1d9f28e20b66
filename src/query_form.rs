//! The form in which a query is created or edited: its name, its SQL text
//! and its two declarations, with a status line for each and the rule for
//! when the form may be accepted.
use vstd::prelude::*;

use crate::query::{Query, RowData};
use crate::text::{is_blank, owned, str_eq, trim, trim_of};
use crate::type_editor::{TypeEditor, Validity};

verus! {

/// Whether `name` is the name of a query other than the one at `id`.
pub open spec fn name_taken(names: Seq<String>, id: int, name: Seq<char>) -> bool {
    exists|i: int| 0 <= i < names.len() && i != id && #[trigger] names[i]@ == name
}

/// The status line of the input declaration for a validity; none for too
/// few rows, since a query may take no input.
pub open spec fn input_status_of(v: Validity) -> Option<Seq<char>> {
    match v {
        Validity::NotEnoughRows => None,
        Validity::NotFilled => Some("All query input entries need a name."@),
        Validity::Duplicates => Some("All query input entries need to be unique."@),
        Validity::Valid => Some(Seq::empty()),
    }
}

/// The status line of the result's declaration for a validity.
pub open spec fn output_status_of(v: Validity) -> Seq<char> {
    match v {
        Validity::NotEnoughRows => "At least one table header entry is required."@,
        Validity::NotFilled => "All table header entries need a name."@,
        Validity::Duplicates => "All table header entries need to be unique."@,
        Validity::Valid => Seq::empty(),
    }
}

/// The state of the query form.
#[derive(Debug)]
pub struct QueryForm {
    pub hidden: bool,
    /// The position of the edited query among all queries.
    pub id: usize,
    /// The names of all queries, the edited one included.
    pub names: Vec<String>,
    pub name_valid: bool,
    pub output_valid: bool,
    pub input_valid: bool,
    pub ok_button_name: String,
    /// The result's declaration as the form was opened with it.
    pub init_query: RowData,
    pub name: String,
    pub sql: String,
    pub input_status: String,
    pub output_status: String,
    pub name_status: String,
}

impl QueryForm {
    /// A hidden form.
    pub fn new() -> (r: QueryForm)
        ensures
            r.hidden,
            r.names@.len() == 0,
            !r.name_valid,
            !r.output_valid,
            !r.input_valid,
    {
        QueryForm {
            hidden: true,
            id: 0,
            names: Vec::new(),
            name_valid: false,
            output_valid: false,
            input_valid: false,
            ok_button_name: String::new(),
            init_query: RowData::new(),
            name: String::new(),
            sql: String::new(),
            input_status: String::new(),
            output_status: String::new(),
            name_status: String::new(),
        }
    }

    /// Shows the form for the query at `id`, named `names[id]`; returns the
    /// result's declaration and the input declaration, for their editors.
    pub fn open(&mut self, query: Query, id: usize, names: Vec<String>, ok_button_name: String) -> (r: (
        RowData,
        RowData,
    ))
        requires
            id < names@.len(),
        ensures
            !final(self).hidden,
            final(self).id == id,
            final(self).names@ == names@,
            final(self).name_valid == (names@[id as int]@.len() > 0),
            final(self).ok_button_name == ok_button_name,
            final(self).name@ == names@[id as int]@,
            final(self).sql == query.sql,
            final(self).init_query.0@ == query.table_header.0@,
            final(self).output_valid == old(self).output_valid,
            final(self).input_valid == old(self).input_valid,
            r.0.0@ == query.table_header.0@,
            r.1.0@ == query.query_input.0@,
    {
        let current_name = names[id].clone();
        self.hidden = false;
        self.id = id;
        self.init_query = query.table_header.clone();
        self.name_valid = !current_name.as_str().is_empty();
        self.ok_button_name = ok_button_name;
        self.name = current_name;
        self.sql = query.sql;
        self.names = names;
        (query.table_header, query.query_input)
    }

    /// Whether the form may be accepted.
    pub fn can_accept(&self) -> (r: bool)
        ensures
            r == (self.name_valid && self.output_valid && self.input_valid),
    {
        self.name_valid && self.output_valid && self.input_valid
    }

    /// The form was accepted with the texts of its name and SQL fields. When
    /// both declarations are valid, the form hides and hands out the edited
    /// query, its trimmed name and its position.
    pub fn accept(&mut self, name: &str, sql: &str, output: &TypeEditor, input: &TypeEditor) -> (r:
        Option<(Query, String, usize)>)
        ensures
            (r is Some) == (old(self).input_valid && old(self).output_valid),
            final(self).hidden == (old(self).hidden || r is Some),
            final(self).id == old(self).id,
            final(self).names@ == old(self).names@,
            r is Some ==> {
                let (q, n, i) = r->Some_0;
                &&& n@ == trim_of(name@)
                &&& q.sql@ == trim_of(sql@)
                &&& i == old(self).id
                &&& q.table_header.0@.len() == output.rows@.len()
                &&& q.query_input.0@.len() == input.rows@.len()
                &&& forall|k: int|
                    #![trigger q.table_header.0@[k]]
                    0 <= k < output.rows@.len() ==> q.table_header.0@[k].name@ == trim_of(
                        output.rows@[k].name@,
                    ) && q.table_header.0@[k].ty == output.rows@[k].ty
                        && q.table_header.0@[k].id == k
                &&& forall|k: int|
                    #![trigger q.query_input.0@[k]]
                    0 <= k < input.rows@.len() ==> q.query_input.0@[k].name@ == trim_of(
                        input.rows@[k].name@,
                    ) && q.query_input.0@[k].ty == input.rows@[k].ty && q.query_input.0@[k].id
                        == k
            },
    {
        if self.input_valid && self.output_valid {
            let table_header = output.get_row_data();
            let query_input = input.get_row_data();
            let query = Query { sql: owned(trim(sql)), table_header, query_input };
            self.hidden = true;
            Some((query, owned(trim(name)), self.id))
        } else {
            None
        }
    }

    /// The form was dismissed.
    pub fn cancel(&mut self)
        ensures
            final(self).hidden,
            final(self).id == old(self).id,
            final(self).names@ == old(self).names@,
    {
        self.hidden = true;
    }

    /// The name field now holds `name`: it must not be blank, and no other
    /// query may have it.
    pub fn name_changed(&mut self, name: &str)
        ensures
            final(self).id == old(self).id,
            final(self).names@ == old(self).names@,
            final(self).hidden == old(self).hidden,
            final(self).name_valid == (!is_blank(name@) && !name_taken(
                old(self).names@,
                old(self).id as int,
                trim_of(name@),
            )),
            is_blank(name@) ==> final(self).name_status@ == "Each query needs a name."@,
            !is_blank(name@) && name_taken(old(self).names@, old(self).id as int, trim_of(name@))
                ==> final(self).name_status@ == "This name is not unique."@,
            final(self).name_valid ==> final(self).name_status@.len() == 0,
    {
        let name = trim(name);
        if !name.is_empty() {
            let n = self.names.len();
            let mut unique = true;
            let mut i: usize = 0;
            while i < n
                invariant
                    n == self.names@.len(),
                    i <= n,
                    unique == !exists|k: int|
                        0 <= k < i && k != self.id && #[trigger] self.names@[k]@ == name@,
                decreases n - i,
            {
                if i != self.id && str_eq(self.names[i].as_str(), name) {
                    unique = false;
                }
                i = i + 1;
            }
            if unique {
                self.name_status = String::new();
                self.name_valid = true;
            } else {
                self.name_status = owned("This name is not unique.");
                self.name_valid = false;
            }
        } else {
            self.name_status = owned("Each query needs a name.");
            self.name_valid = false;
        }
    }

    /// The input declaration now has validity `v`.
    pub fn input_validity_changed(&mut self, v: Validity)
        ensures
            final(self).input_valid == (v == Validity::Valid),
            final(self).output_valid == old(self).output_valid,
            final(self).name_valid == old(self).name_valid,
            final(self).input_status@ == (match input_status_of(v) {
                Some(s) => s,
                None => old(self).input_status@,
            }),
    {
        self.input_valid = v == Validity::Valid;
        match v {
            Validity::NotEnoughRows => {},
            Validity::NotFilled => {
                self.input_status = owned("All query input entries need a name.");
            },
            Validity::Duplicates => {
                self.input_status = owned("All query input entries need to be unique.");
            },
            Validity::Valid => {
                self.input_status = String::new();
            },
        }
    }

    /// The result's declaration now has validity `v`.
    pub fn output_validity_changed(&mut self, v: Validity)
        ensures
            final(self).output_valid == (v == Validity::Valid),
            final(self).input_valid == old(self).input_valid,
            final(self).name_valid == old(self).name_valid,
            final(self).output_status@ == output_status_of(v),
    {
        self.output_valid = v == Validity::Valid;
        match v {
            Validity::NotEnoughRows => {
                self.output_status = owned("At least one table header entry is required.");
            },
            Validity::NotFilled => {
                self.output_status = owned("All table header entries need a name.");
            },
            Validity::Duplicates => {
                self.output_status = owned("All table header entries need to be unique.");
            },
            Validity::Valid => {
                self.output_status = String::new();
            },
        }
    }
}

} // verus!
