use mssql_query::json::JsonValue;
use mssql_query::projection::{coerce, project, project_row, Field, ProjectedRow};
use mssql_query::row::{CellData, ColumnType, RawCell, RawRow};
use mssql_query::statement::StatementKind;

fn cell(name: &str, column_type: ColumnType, data: CellData) -> RawCell {
    RawCell { name: name.to_string(), column_type, data }
}

fn text(value: &str) -> CellData {
    CellData::Text(Some(value.to_string()))
}

#[test]
fn json_values_come_from_plain_values() {
    assert_eq!(JsonValue::from_i32(1), JsonValue::Number(1));
    assert_eq!(JsonValue::from_i32(i32::MIN), JsonValue::Number(-2147483648));
    assert_eq!(JsonValue::from_i64(i64::MAX), JsonValue::Number(9223372036854775807));
    assert_eq!(JsonValue::from_i64(-7), JsonValue::Number(-7));
    assert_eq!(JsonValue::from_text("a\"b"), JsonValue::Text("a\"b".to_string()));
    assert_eq!(JsonValue::from_text(""), JsonValue::Text(String::new()));
}

#[test]
fn int4_column_gives_a_number() {
    assert_eq!(coerce(ColumnType::Int4, &CellData::Int32(Some(42))), JsonValue::Number(42));
    assert_eq!(coerce(ColumnType::Int4, &CellData::Int32(Some(0))), JsonValue::Number(0));
    assert_eq!(coerce(ColumnType::Int4, &CellData::Int32(Some(-1))), JsonValue::Number(-1));
}

#[test]
fn int8_column_gives_a_number() {
    assert_eq!(
        coerce(ColumnType::Int8, &CellData::Int64(Some(5_000_000_000))),
        JsonValue::Number(5_000_000_000)
    );
}

#[test]
fn null_integer_is_json_null() {
    assert_eq!(coerce(ColumnType::Int4, &CellData::Int32(None)), JsonValue::Null);
    assert_eq!(coerce(ColumnType::Int8, &CellData::Int64(None)), JsonValue::Null);
}

#[test]
fn integer_column_with_other_content_is_json_null() {
    assert_eq!(coerce(ColumnType::Int4, &CellData::Int64(Some(1))), JsonValue::Null);
    assert_eq!(coerce(ColumnType::Int4, &text("1")), JsonValue::Null);
    assert_eq!(coerce(ColumnType::Int4, &CellData::Other), JsonValue::Null);
    assert_eq!(coerce(ColumnType::Int8, &CellData::Int32(Some(1))), JsonValue::Null);
    assert_eq!(coerce(ColumnType::Int8, &CellData::Other), JsonValue::Null);
}

#[test]
fn other_columns_are_read_as_text() {
    assert_eq!(coerce(ColumnType::NVarchar, &text("abc")), JsonValue::Text("abc".to_string()));
    assert_eq!(coerce(ColumnType::BigVarChar, &text("")), JsonValue::Text(String::new()));
    assert_eq!(coerce(ColumnType::Null, &text("x")), JsonValue::Text("x".to_string()));
}

#[test]
fn other_columns_that_hold_no_text_are_json_null() {
    assert_eq!(coerce(ColumnType::NVarchar, &CellData::Text(None)), JsonValue::Null);
    assert_eq!(coerce(ColumnType::Float8, &CellData::Other), JsonValue::Null);
    assert_eq!(coerce(ColumnType::Bit, &CellData::Other), JsonValue::Null);
    assert_eq!(coerce(ColumnType::Datetime2, &CellData::Other), JsonValue::Null);
    assert_eq!(coerce(ColumnType::Intn, &CellData::Int32(Some(3))), JsonValue::Null);
    assert_eq!(coerce(ColumnType::Int2, &CellData::Int32(Some(3))), JsonValue::Null);
}

#[test]
fn projected_row_keeps_every_column() {
    let raw = RawRow {
        cells: vec![
            cell("id", ColumnType::Int4, CellData::Int32(Some(7))),
            cell("total", ColumnType::Int8, CellData::Int64(None)),
            cell("name", ColumnType::NVarchar, text("ann")),
            cell("price", ColumnType::Float8, CellData::Other),
        ],
    };
    let row = project_row(&raw);
    assert_eq!(row.len(), 4);
    assert_eq!(row.get("id"), Some(&JsonValue::Number(7)));
    assert_eq!(row.get("total"), Some(&JsonValue::Null));
    assert_eq!(row.get("name"), Some(&JsonValue::Text("ann".to_string())));
    assert_eq!(row.get("price"), Some(&JsonValue::Null));
    assert_eq!(row.get("missing"), None);
    let mut names: Vec<&str> = row.fields().iter().map(|f| f.name.as_str()).collect();
    names.sort();
    assert_eq!(names, vec!["id", "name", "price", "total"]);
}

#[test]
fn row_without_columns_projects_to_an_empty_row() {
    let row = project_row(&RawRow { cells: Vec::new() });
    assert_eq!(row.len(), 0);
    assert_eq!(row.get(""), None);
}

#[test]
fn a_repeated_column_name_keeps_the_later_value() {
    let raw = RawRow {
        cells: vec![
            cell("x", ColumnType::Int4, CellData::Int32(Some(1))),
            cell("y", ColumnType::Int4, CellData::Int32(Some(2))),
            cell("x", ColumnType::NVarchar, text("later")),
        ],
    };
    let row = project_row(&raw);
    assert_eq!(row.len(), 2);
    assert_eq!(row.get("x"), Some(&JsonValue::Text("later".to_string())));
    assert_eq!(row.get("y"), Some(&JsonValue::Number(2)));
}

#[test]
fn insert_enters_and_replaces() {
    let mut row = ProjectedRow::new();
    assert_eq!(row.len(), 0);
    row.insert("a".to_string(), JsonValue::Number(1));
    row.insert("b".to_string(), JsonValue::Null);
    row.insert("a".to_string(), JsonValue::Text("z".to_string()));
    assert_eq!(row.len(), 2);
    assert_eq!(row.get("a"), Some(&JsonValue::Text("z".to_string())));
    assert_eq!(row.get("b"), Some(&JsonValue::Null));
    assert_eq!(row.get("A"), None);
    let mut fields: Vec<Field> = row.fields().clone();
    fields.sort_by_key(|field| field.name.clone());
    assert_eq!(
        fields,
        vec![
            Field { name: "a".to_string(), value: JsonValue::Text("z".to_string()) },
            Field { name: "b".to_string(), value: JsonValue::Null },
        ]
    );
}

fn two_rows() -> Vec<RawRow> {
    vec![
        RawRow {
            cells: vec![
                cell("id", ColumnType::Int4, CellData::Int32(Some(1))),
                cell("name", ColumnType::NVarchar, text("a")),
            ],
        },
        RawRow {
            cells: vec![
                cell("id", ColumnType::Int4, CellData::Int32(None)),
                cell("name", ColumnType::NVarchar, CellData::Text(None)),
            ],
        },
    ]
}

#[test]
fn row_producing_statement_projects_each_row_in_order() {
    let result = project(StatementKind::RowProducing, &two_rows());
    let rows = result.rows();
    assert_eq!(rows.len(), 2);
    assert_eq!(rows[0].get("id"), Some(&JsonValue::Number(1)));
    assert_eq!(rows[0].get("name"), Some(&JsonValue::Text("a".to_string())));
    assert_eq!(rows[1].get("id"), Some(&JsonValue::Null));
    assert_eq!(rows[1].get("name"), Some(&JsonValue::Null));
}

#[test]
fn rows_of_one_result_set_have_the_same_keys() {
    let result = project(StatementKind::RowProducing, &two_rows());
    let keys = |i: usize| -> Vec<String> {
        let mut names: Vec<String> =
            result.rows()[i].fields().iter().map(|f| f.name.clone()).collect();
        names.sort();
        names
    };
    assert_eq!(keys(0), keys(1));
}

#[test]
fn row_affecting_statement_has_no_rows() {
    let result = project(StatementKind::RowAffecting, &two_rows());
    assert_eq!(result.rows().len(), 0);
    let nothing = project(StatementKind::RowAffecting, &Vec::new());
    assert_eq!(nothing.rows().len(), 0);
}

#[test]
fn projecting_the_same_rows_again_gives_the_same_result() {
    let first = project(StatementKind::RowProducing, &two_rows());
    let second = project(StatementKind::RowProducing, &two_rows());
    assert_eq!(first.rows().len(), second.rows().len());
    for i in 0..first.rows().len() {
        assert_eq!(first.rows()[i].len(), second.rows()[i].len());
        for field in first.rows()[i].fields() {
            assert_eq!(second.rows()[i].get(&field.name), Some(&field.value));
        }
    }
}
