use sqlbon::column::ColumnType;
use sqlbon::query::{RowData, RowEntry};
use sqlbon::type_editor::{check_duplicates, restore_move_valid, Row, TypeEditor, Validity};

fn flags(e: &TypeEditor) -> Vec<(bool, bool)> {
    e.rows.iter().map(|r| (r.up, r.down)).collect()
}

fn names(e: &TypeEditor) -> Vec<String> {
    e.rows.iter().map(|r| r.name.clone()).collect()
}

fn entry(name: &str, ty: ColumnType, id: usize) -> RowEntry {
    RowEntry { name: name.to_string(), ty, id }
}

#[test]
fn editor_reports_validity_while_typing() {
    let mut e = TypeEditor::new(1);
    assert_eq!(e.add(), None);
    assert_eq!(e.name_changed(0, "a".to_string()), Some(Validity::Valid));
    assert_eq!(e.add(), Some(Validity::NotFilled));
    assert_eq!(e.name_changed(1, " a ".to_string()), Some(Validity::Duplicates));
    assert!(e.rows[1].duplicate);
    assert!(!e.rows[0].duplicate);
    assert_eq!(e.name_changed(1, "b".to_string()), Some(Validity::Valid));
    assert!(!e.rows[1].duplicate);
    assert_eq!(e.name_changed(1, "  ".to_string()), Some(Validity::NotFilled));
    assert_eq!(e.name_changed(1, "".to_string()), None);
    assert_eq!(e.name_changed(1, "a".to_string()), Some(Validity::Duplicates));
    assert_eq!(e.delete(1), Some(Validity::Valid));
    assert_eq!(e.delete(0), Some(Validity::NotEnoughRows));
    assert!(!e.is_filled);
}

#[test]
fn editor_move_flags_stay_exact() {
    let mut e = TypeEditor::new(0);
    for _ in 0..6 {
        e.add();
    }
    e.add_above(3);
    e.delete(0);
    e.move_down(4);
    e.move_up(1);
    let n = e.rows.len();
    for (i, (up, down)) in flags(&e).into_iter().enumerate() {
        assert_eq!(up, i > 0);
        assert_eq!(down, i + 1 < n);
    }
}

#[test]
fn editor_moves_rows() {
    let mut e = TypeEditor::new(1);
    let data = RowData(vec![
        entry("x", ColumnType::String, 0),
        entry("y", ColumnType::Number, 1),
        entry("z", ColumnType::Date, 2),
    ]);
    assert_eq!(e.replicate(&data), Some(Validity::Valid));
    e.move_up(0);
    assert_eq!(names(&e), vec!["x", "y", "z"]);
    e.move_up(2);
    assert_eq!(names(&e), vec!["x", "z", "y"]);
    e.move_down(2);
    assert_eq!(names(&e), vec!["x", "z", "y"]);
    e.move_down(0);
    assert_eq!(names(&e), vec!["z", "x", "y"]);
    assert_eq!(e.rows[0].ty, ColumnType::Date);
    e.type_changed(0, ColumnType::Number);
    assert_eq!(e.rows[0].ty, ColumnType::Number);
    assert_eq!(flags(&e), vec![(false, true), (true, true), (true, false)]);
}

#[test]
fn editor_replicate_reports_each_validity() {
    let mut e = TypeEditor::new(2);
    let one = RowData(vec![entry("x", ColumnType::String, 0)]);
    assert_eq!(e.replicate(&one), Some(Validity::NotEnoughRows));
    let blank = RowData(vec![entry("x", ColumnType::String, 0), entry(" ", ColumnType::String, 1)]);
    assert_eq!(e.replicate(&blank), Some(Validity::NotFilled));
    let dup = RowData(vec![entry("x", ColumnType::String, 0), entry("x ", ColumnType::String, 1)]);
    assert_eq!(e.replicate(&dup), Some(Validity::Duplicates));
    assert!(e.has_duplicates);
    let ok = RowData(vec![entry("x", ColumnType::String, 0), entry("y", ColumnType::Date, 1)]);
    assert_eq!(e.replicate(&ok), Some(Validity::Valid));
    assert_eq!(e.rows.len(), 2);
}

#[test]
fn editor_row_data_is_trimmed_and_numbered() {
    let mut e = TypeEditor::new(0);
    let data = RowData(vec![entry("  price ", ColumnType::Number, 7), entry("day", ColumnType::Date, 3)]);
    e.replicate(&data);
    let out = e.get_row_data();
    assert_eq!(out.0.len(), 2);
    assert_eq!(out.0[0].name, "price");
    assert_eq!(out.0[0].ty, ColumnType::Number);
    assert_eq!(out.0[0].id, 0);
    assert_eq!(out.0[1].name, "day");
    assert_eq!(out.0[1].id, 1);
}

#[test]
fn duplicates_ignore_blank_names() {
    let mut rows = vec![
        Row::new("".to_string(), ColumnType::String),
        Row::new(" ".to_string(), ColumnType::String),
        Row::new("a".to_string(), ColumnType::String),
        Row::new("b".to_string(), ColumnType::String),
        Row::new(" a".to_string(), ColumnType::String),
    ];
    assert!(check_duplicates(&mut rows));
    let marks: Vec<bool> = rows.iter().map(|r| r.duplicate).collect();
    assert_eq!(marks, vec![false, false, false, false, true]);
    rows.remove(4);
    assert!(!check_duplicates(&mut rows));
}

#[test]
fn restore_move_valid_keeps_middle_rows() {
    let mut rows: Vec<Row> = (0..6).map(|_| Row::new(String::new(), ColumnType::String)).collect();
    rows[2].up = false;
    restore_move_valid(&mut rows);
    let f: Vec<(bool, bool)> = rows.iter().map(|r| (r.up, r.down)).collect();
    assert_eq!(
        f,
        vec![(false, true), (true, true), (false, true), (true, true), (true, true), (true, false)]
    );
    let mut single = vec![Row::new(String::new(), ColumnType::String)];
    restore_move_valid(&mut single);
    assert!(!single[0].up && !single[0].down);
}
