use sqlbon::column::{ColumnType, ColumnTypeValue};
use sqlbon::date::date_fields;
use sqlbon::query_error::{ExecQueryErrConv, SqlError, SqlType};
use sqlbon::receipts::{item_name, row_to_select, store_entry, ReceiptRow, StoreRow, Total, TotalRow};
use sqlbon::type_def::{RowChange, TypeDefRows, Validity};

#[test]
fn error_messages_for_mismatches() {
    let e = ExecQueryErrConv::new(
        SqlError::InvalidColumnType(3, "price".to_string(), SqlType::Integer),
        ColumnType::String,
        "Total",
    );
    assert_eq!(
        e.message(),
        "Mismatch between the output type 'Total' (at 3) and the query column type for 'price': column type: `String` <-> query type `Number`"
    );
    let e = ExecQueryErrConv::new(
        SqlError::FromSqlConversionFailure(12, SqlType::Text),
        ColumnType::Date,
        "day",
    );
    assert_eq!(
        e.message(),
        "Mismatch between the output type 'day' (at 12) and the query column type for '<unknown>': column type: `Date` <-> query type `String/Text`"
    );
}

#[test]
fn error_messages_for_other_failures() {
    let m = |e: SqlError| ExecQueryErrConv::empty(e).message();
    assert_eq!(
        m(SqlError::InvalidParameterName(":who".to_string())),
        "The query did not expected to receive a parameter ':who'."
    );
    assert_eq!(
        m(SqlError::InvalidColumnIndex(4)),
        "The query has less columns than the amount of given output types."
    );
    assert_eq!(m(SqlError::InvalidQuery), "The Query is invalid.");
    assert_eq!(
        m(SqlError::MultipleStatement),
        "The query contains multiple statements. Only one is allowed"
    );
    assert_eq!(m(SqlError::Other), "Unknown error");
    let e = ExecQueryErrConv::empty(SqlError::InvalidQuery);
    assert_eq!(e.given_type, ColumnType::String);
    assert!(e.failed_name.is_empty());
}

#[test]
fn totals_are_listed_per_unit() {
    let t = Total(vec![
        TotalRow { unit: "NOK".to_string(), price: 12050 },
        TotalRow { unit: "EUR".to_string(), price: -5 },
    ]);
    assert_eq!(t.render(), "12050 NOK, -5 EUR");
    assert_eq!(Total::new().render(), "");
    let one = Total(vec![TotalRow { unit: "EUR".to_string(), price: 0 }]);
    assert_eq!(one.render(), "0 EUR");
}

#[test]
fn stores_and_receipts_are_labelled() {
    let s = StoreRow { id: 7, name: "Kiwi".to_string(), location: "Oslo".to_string() };
    assert_eq!(s.label(), "Kiwi (Oslo) #7");
    let r = ReceiptRow { id: 12, store_name: "Kiwi".to_string(), date: "2023-05-17".to_string() };
    assert_eq!(r.label(), "2023-05-17 (Kiwi) #12");
}

#[test]
fn selection_prefers_the_new_row() {
    assert_eq!(row_to_select(&vec![1, 2, 3], &vec![1, 2, 3, 4]), Some(3));
    assert_eq!(row_to_select(&vec![1, 3], &vec![1, 2, 3]), Some(1));
    assert_eq!(row_to_select(&vec![1, 2], &vec![1, 2]), Some(1));
    assert_eq!(row_to_select(&vec![], &vec![]), None);
    assert_eq!(row_to_select(&vec![], &vec![5, 6]), Some(0));
}

#[test]
fn store_and_item_entries_are_trimmed() {
    assert_eq!(
        store_entry(" Kiwi ", " Oslo"),
        Some(("Kiwi".to_string(), "Oslo".to_string()))
    );
    assert_eq!(store_entry("Kiwi", "  "), None);
    assert_eq!(store_entry("", "Oslo"), None);
    assert_eq!(item_name("  milk ", false), Some("milk".to_string()));
    assert_eq!(item_name("  milk ", true), Some("MILK".to_string()));
    assert_eq!(item_name("   ", true), None);
}

#[test]
fn dates_are_read_by_field() {
    assert_eq!(date_fields("2023-05-17"), Some((2023, 5, 17)));
    assert_eq!(date_fields("2023-05-17-9"), Some((2023, 5, 17)));
    assert_eq!(date_fields("2023-05"), None);
    assert_eq!(date_fields("2023-xx-17"), None);
    assert_eq!(date_fields(""), None);
    let d = ColumnTypeValue::Date("2023-05-17".to_string());
    assert_eq!(d.calendar_date(), Some((2023, 4, 17)));
    assert_eq!(ColumnTypeValue::Number(3).calendar_date(), None);
}

#[test]
fn grid_rows_follow_their_positions() {
    let mut g = TypeDefRows::new();
    assert!(g.row_iter().is_empty());
    g.add_row(0);
    g.add_row(1);
    g.add_row(0);
    g.add_row(3);
    assert_eq!(g.row_iter(), vec![0, 1, 2, 3]);
    let flags: Vec<(bool, bool)> = g.0.iter().map(|r| (r.up_valid, r.down_valid)).collect();
    assert_eq!(
        flags,
        vec![(false, true), (true, true), (true, true), (true, false), (false, false)]
    );
    g.delete_row(1);
    assert_eq!(g.row_iter(), vec![0, 1, 2]);
    assert!(g.can_move_up(1));
    assert!(!g.can_move_up(0));
    assert!(g.can_move_down(1));
    assert!(!g.can_move_down(2));
    g.replicate(2);
    assert_eq!(g.row_iter(), vec![0, 1]);
    assert_eq!(g.0.len(), 3);
    assert_eq!(g.0[2].idx, 2);
}

#[test]
fn grid_validity_numbers() {
    assert_eq!(Validity::NoRows.number(), 0);
    assert_eq!(Validity::Valid.number(), 3);
    assert_eq!(Validity::from_number(2), Validity::Duplicates);
    assert_eq!(Validity::from_number(42), Validity::Valid);
    assert_eq!(RowChange::from(true), RowChange::Add);
    assert_eq!(RowChange::from(false), RowChange::Delete);
    assert!(bool::from(RowChange::Add));
    assert!(!bool::from(RowChange::Delete));
}
