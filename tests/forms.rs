use sqlbon::column::{ColumnType, ColumnTypeValue};
use sqlbon::input_values::{named_parameters, InputValue};
use sqlbon::queries::QueryBook;
use sqlbon::query::{Query, RowData, RowEntry};
use sqlbon::query_form::QueryForm;
use sqlbon::type_editor::{TypeEditor, Validity};

fn entry(name: &str, ty: ColumnType, id: usize) -> RowEntry {
    RowEntry { name: name.to_string(), ty, id }
}

fn query(sql: &str, header: Vec<RowEntry>, input: Vec<RowEntry>) -> Query {
    Query { sql: sql.to_string(), table_header: RowData(header), query_input: RowData(input) }
}

#[test]
fn row_data_renumbers_after_reading() {
    let mut q = query(
        "SELECT 1",
        vec![entry("a", ColumnType::String, 9), entry("b", ColumnType::Number, 9)],
        vec![entry("c", ColumnType::Date, 4)],
    );
    q.renumber();
    assert_eq!(q.table_header.0[0].id, 0);
    assert_eq!(q.table_header.0[1].id, 1);
    assert_eq!(q.query_input.0[0].id, 0);
    assert_eq!(q.table_header.0[1].name, "b");
    assert_eq!(q.sql, "SELECT 1");
    let empty = Query::new();
    assert!(empty.sql.is_empty() && empty.table_header.0.is_empty() && empty.query_input.0.is_empty());
}

#[test]
fn query_book_adds_unique_names() {
    let mut book = QueryBook::new(Vec::new());
    book.new_query_name_changed("  ");
    assert!(!book.new_button_valid);
    book.new_query_name_changed(" sums ");
    assert!(book.new_button_valid);
    assert_eq!(book.new_query(" sums "), Some(0));
    assert_eq!(book.queries[0].0, "sums");
    assert_eq!(book.selected_query, Some(0));
    book.new_query_name_changed("sums");
    assert!(!book.new_button_valid);
    assert_eq!(book.new_query("sums"), None);
    assert_eq!(book.new_query("   "), None);
    assert_eq!(book.new_query("other"), Some(1));
    assert_eq!(book.names(), vec!["sums".to_string(), "other".to_string()]);
    book.delete_query(0);
    assert_eq!(book.names(), vec!["other".to_string()]);
}

#[test]
fn query_book_edits_and_selects() {
    let mut book = QueryBook::new(vec![(
        "q".to_string(),
        query("SELECT 1", vec![], vec![entry("day", ColumnType::Date, 0)]),
    )]);
    let picked = book.query_selected(Some(0)).unwrap();
    assert_eq!(picked.0, "q");
    assert_eq!(picked.1 .0[0].name, "day");
    assert!(book.query_selected);
    assert!(book.query_selected(Some(5)).is_none());
    assert!(book.query_selected(None).is_none());
    assert!(!book.query_selected);
    book.edit_query_result(query("SELECT 2", vec![], vec![]), "r".to_string(), 0);
    assert_eq!(book.queries[0].0, "r");
    assert_eq!(book.queries[0].1.sql, "SELECT 2");
    assert_eq!(book.selected_query, Some(0));
    book.edit_query_result(Query::new(), "s".to_string(), 3);
    assert_eq!(book.queries.len(), 1);
    assert_eq!(book.queries[0].0, "r");
}

#[test]
fn query_form_checks_names() {
    let mut form = QueryForm::new();
    let names = vec!["a".to_string(), "b".to_string()];
    let (header, input) = form.open(
        query("SELECT x", vec![entry("x", ColumnType::String, 0)], vec![]),
        1,
        names,
        "edit".to_string(),
    );
    assert_eq!(header.0.len(), 1);
    assert!(input.0.is_empty());
    assert!(!form.hidden);
    assert!(form.name_valid);
    assert_eq!(form.name, "b");
    assert_eq!(form.sql, "SELECT x");
    form.name_changed(" a ");
    assert!(!form.name_valid);
    assert_eq!(form.name_status, "This name is not unique.");
    form.name_changed(" b ");
    assert!(form.name_valid);
    assert_eq!(form.name_status, "");
    form.name_changed("  ");
    assert!(!form.name_valid);
    assert_eq!(form.name_status, "Each query needs a name.");
    form.cancel();
    assert!(form.hidden);
}

#[test]
fn query_form_status_lines() {
    let mut form = QueryForm::new();
    form.output_validity_changed(Validity::NotEnoughRows);
    assert_eq!(form.output_status, "At least one table header entry is required.");
    form.output_validity_changed(Validity::NotFilled);
    assert_eq!(form.output_status, "All table header entries need a name.");
    form.output_validity_changed(Validity::Duplicates);
    assert_eq!(form.output_status, "All table header entries need to be unique.");
    assert!(!form.output_valid);
    form.output_validity_changed(Validity::Valid);
    assert_eq!(form.output_status, "");
    assert!(form.output_valid);
    form.input_validity_changed(Validity::NotFilled);
    assert_eq!(form.input_status, "All query input entries need a name.");
    form.input_validity_changed(Validity::NotEnoughRows);
    assert_eq!(form.input_status, "All query input entries need a name.");
    form.input_validity_changed(Validity::Duplicates);
    assert_eq!(form.input_status, "All query input entries need to be unique.");
    form.input_validity_changed(Validity::Valid);
    assert_eq!(form.input_status, "");
    assert!(form.input_valid);
}

#[test]
fn query_form_accepts_only_valid_declarations() {
    let mut form = QueryForm::new();
    form.open(Query::new(), 0, vec!["q".to_string()], "add".to_string());
    let mut output = TypeEditor::new(1);
    output.replicate(&RowData(vec![entry(" total ", ColumnType::Number, 0)]));
    let input = TypeEditor::new(0);
    assert!(form.accept("q", "SELECT 1", &output, &input).is_none());
    assert!(!form.hidden);
    form.output_validity_changed(Validity::Valid);
    form.input_validity_changed(Validity::Valid);
    assert!(form.can_accept());
    let (q, name, id) = form.accept(" q2 ", " SELECT SUM(price) FROM Item ", &output, &input).unwrap();
    assert_eq!(name, "q2");
    assert_eq!(id, 0);
    assert_eq!(q.sql, "SELECT SUM(price) FROM Item");
    assert_eq!(q.table_header.0[0].name, "total");
    assert_eq!(q.table_header.0[0].ty, ColumnType::Number);
    assert!(q.query_input.0.is_empty());
    assert!(form.hidden);
}

fn values_of(iv: &InputValue) -> Vec<(String, String)> {
    iv.get_input_values()
        .into_iter()
        .map(|(n, v)| {
            let v = match v {
                ColumnTypeValue::String(s) => format!("s:{s}"),
                ColumnTypeValue::Number(n) => format!("n:{n}"),
                ColumnTypeValue::Date(d) => format!("d:{d}"),
            };
            (n, v)
        })
        .collect()
}

#[test]
fn input_values_start_from_types_in_id_order() {
    let mut iv = InputValue::new();
    let data = RowData(vec![
        entry("day", ColumnType::Date, 2),
        entry("who", ColumnType::String, 0),
        entry("count", ColumnType::Number, 1),
    ]);
    iv.replicate("q".to_string(), data, "2024-03-01");
    assert_eq!(iv.show, "q");
    assert_eq!(
        values_of(&iv),
        vec![
            ("who".to_string(), "s:".to_string()),
            ("count".to_string(), "n:0".to_string()),
            ("day".to_string(), "d:2024-03-01".to_string()),
        ]
    );
}

#[test]
fn input_values_are_kept_per_query() {
    let mut iv = InputValue::new();
    let data = || RowData(vec![entry("who", ColumnType::String, 0), entry("count", ColumnType::Number, 1)]);
    iv.replicate("q".to_string(), data(), "2024-03-01");
    iv.values[0].value = ColumnTypeValue::String("ann".to_string());
    iv.values[1].value = ColumnTypeValue::Number(5);
    iv.replicate("r".to_string(), RowData(vec![entry("x", ColumnType::Number, 0)]), "2024-03-01");
    assert_eq!(values_of(&iv), vec![("x".to_string(), "n:0".to_string())]);
    // the count became a date: its old value no longer fits
    let changed = RowData(vec![entry("who2", ColumnType::String, 0), entry("when", ColumnType::Date, 1)]);
    iv.replicate("q".to_string(), changed, "2024-03-02");
    assert_eq!(
        values_of(&iv),
        vec![
            ("who2".to_string(), "s:ann".to_string()),
            ("when".to_string(), "d:2024-03-02".to_string()),
        ]
    );
    // showing the same query again keeps what is shown
    iv.values[1].value = ColumnTypeValue::Date("2020-01-01".to_string());
    let again = RowData(vec![entry("who2", ColumnType::String, 0), entry("when", ColumnType::Date, 1)]);
    iv.replicate("q".to_string(), again, "2024-03-03");
    assert_eq!(values_of(&iv)[1].1, "d:2020-01-01");
    assert_eq!(iv.data.len(), 3);
}

#[test]
fn parameters_are_named_with_colon() {
    let p = named_parameters(vec![
        ("who".to_string(), ColumnTypeValue::String("ann".to_string())),
        ("n".to_string(), ColumnTypeValue::Number(3)),
    ]);
    assert_eq!(p[0].0, ":who");
    assert_eq!(p[1].0, ":n");
    assert!(matches!(p[1].1, ColumnTypeValue::Number(3)));
}

#[test]
fn input_value_fields_can_be_set() {
    let mut iv = InputValue::new();
    iv.replicate("q".to_string(), RowData(vec![entry("n", ColumnType::Number, 0)]), "2024-03-01");
    iv.set_value(0, ColumnTypeValue::Number(42));
    iv.set_value(3, ColumnTypeValue::Number(7));
    assert_eq!(values_of(&iv), vec![("n".to_string(), "n:42".to_string())]);
}
