use sqlbon::column::{ColumnType, ColumnTypeValue, NumberOutOfRange};
use sqlbon::name_status::{store_form_valid, NameStatus};
use sqlbon::text::{blank, str_eq, trimmed};
use sqlbon::unit::Unit;

#[test]
fn unit_from_str_reads_codes() {
    assert_eq!(Unit::from_str("NOK"), Ok(Unit::NOK));
    assert_eq!(Unit::from_str("EUR"), Ok(Unit::EUR));
    assert_eq!(Unit::from_str("USD"), Err(()));
    assert_eq!(Unit::from_str("nok"), Err(()));
    assert_eq!(Unit::from_str(""), Err(()));
}

#[test]
fn unit_from_idx_follows_selector() {
    assert_eq!(Unit::from_idx(0), Ok(Unit::NOK));
    assert_eq!(Unit::from_idx(1), Ok(Unit::EUR));
    assert_eq!(Unit::from_idx(2), Err(()));
    assert_eq!(Unit::try_from(1u32), Ok(Unit::EUR));
    assert_eq!(Unit::try_from(7u32), Err(()));
    for (i, u) in Unit::ALL.iter().enumerate() {
        assert_eq!(u.idx() as usize, i);
    }
}

#[test]
fn unit_scale_and_code() {
    assert_eq!(Unit::NOK.scale(), 100);
    assert_eq!(Unit::EUR.scale(), 100);
    assert_eq!(Unit::NOK.as_str(), "NOK");
    assert_eq!(Unit::EUR.as_str(), "EUR");
    let s: &str = Unit::EUR.into();
    assert_eq!(s, "EUR");
    let parsed: Unit = "NOK".parse().unwrap();
    assert_eq!(parsed, Unit::NOK);
}

#[test]
fn name_status_transitions() {
    let mut s = NameStatus::Invalid;
    s.name_non_empty();
    assert_eq!(s, NameStatus::NonEmpty);
    assert!(!s.is_valid());
    s.connect();
    assert_eq!(s, NameStatus::Valid);
    assert!(s.is_valid());
    s.name_empty();
    assert_eq!(s, NameStatus::Connected);
    s.connect();
    assert_eq!(s, NameStatus::Connected);
    s.name_changed("  milk ");
    assert_eq!(s, NameStatus::Valid);
    s.name_changed("   ");
    assert_eq!(s, NameStatus::Connected);
    let mut t = NameStatus::Invalid;
    t.name_empty();
    assert_eq!(t, NameStatus::Invalid);
    t.connect();
    assert_eq!(t, NameStatus::Connected);
}

#[test]
fn store_form_needs_both_fields() {
    assert!(store_form_valid(NameStatus::Valid, NameStatus::Valid));
    assert!(!store_form_valid(NameStatus::Valid, NameStatus::Connected));
    assert!(!store_form_valid(NameStatus::NonEmpty, NameStatus::Valid));
}

#[test]
fn text_helpers() {
    assert_eq!(trimmed("  a b \t"), "a b");
    assert!(blank(" \n "));
    assert!(blank(""));
    assert!(!blank(" x "));
    assert!(str_eq("abc", "abc"));
    assert!(!str_eq("abc", "abd"));
    assert!(!str_eq("abc", "ab"));
}

#[test]
fn column_type_positions_and_names() {
    assert_eq!(ColumnType::String.idx(), 0);
    assert_eq!(ColumnType::Number.idx(), 1);
    assert_eq!(ColumnType::Date.idx(), 2);
    assert_eq!(u32::from(ColumnType::Date), 2);
    assert_eq!(ColumnType::from_idx(1), Ok(ColumnType::Number));
    assert_eq!(ColumnType::from_idx(3), Err(NumberOutOfRange(3)));
    assert_eq!(ColumnType::try_from(2u32), Ok(ColumnType::Date));
    assert_eq!(ColumnType::String.as_str(), "String");
    assert_eq!(ColumnType::Number.as_str(), "Number");
    assert_eq!(ColumnType::Date.as_str(), "Date");
    assert_eq!(ColumnType::ALL.len(), 3);
}

#[test]
fn column_values_and_types() {
    let v = ColumnTypeValue::initial(ColumnType::Date, "2023-01-02".to_string());
    assert!(matches!(&v, ColumnTypeValue::Date(d) if d == "2023-01-02"));
    assert!(v.is_column_type(ColumnType::Date));
    assert!(!v.is_column_type(ColumnType::String));
    let n = ColumnTypeValue::initial(ColumnType::Number, "2023-01-02".to_string());
    assert!(matches!(n, ColumnTypeValue::Number(0)));
    let s = ColumnTypeValue::initial(ColumnType::String, "2023-01-02".to_string());
    assert!(matches!(&s, ColumnTypeValue::String(t) if t.is_empty()));
    assert_eq!(s.column_type(), ColumnType::String);
}
