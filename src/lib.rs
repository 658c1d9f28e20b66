//! Records purchase receipts and their items, and keeps the ad-hoc queries
//! that are run against them: the rules behind the forms, the query
//! definitions and the row editors, apart from any window or database.
pub mod column;
pub mod date;
pub mod input_values;
pub mod name_status;
pub mod queries;
pub mod query;
pub mod query_error;
pub mod query_form;
pub mod receipts;
pub mod text;
pub mod type_def;
pub mod type_editor;
pub mod unit;
