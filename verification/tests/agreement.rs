use mssql_query::json::JsonValue;
use mssql_query::projection::coerce;
use mssql_query::row::{CellData, ColumnType};
use std::borrow::Cow;
use tiberius::{ColumnData, FromSql};

/// What the database client's typed reads and serde_json make of a cell.
fn read_with_client(column_type: ColumnType, data: &ColumnData<'static>) -> serde_json::Value {
    match column_type {
        ColumnType::Int4 => match i32::from_sql(data) {
            Ok(Some(value)) => serde_json::to_value(value).unwrap_or(serde_json::Value::Null),
            _ => serde_json::Value::Null,
        },
        ColumnType::Int8 => match i64::from_sql(data) {
            Ok(Some(value)) => serde_json::to_value(value).unwrap_or(serde_json::Value::Null),
            _ => serde_json::Value::Null,
        },
        _ => match <&str>::from_sql(data) {
            Ok(Some(value)) => serde_json::to_value(value).unwrap_or(serde_json::Value::Null),
            _ => serde_json::Value::Null,
        },
    }
}

fn cell_data(data: &ColumnData<'static>) -> CellData {
    match data {
        ColumnData::I32(value) => CellData::Int32(*value),
        ColumnData::I64(value) => CellData::Int64(*value),
        ColumnData::String(value) => CellData::Text(value.as_ref().map(|s| s.to_string())),
        _ => CellData::Other,
    }
}

fn as_serde(value: JsonValue) -> serde_json::Value {
    match value {
        JsonValue::Null => serde_json::Value::Null,
        JsonValue::Number(n) => serde_json::Value::from(n),
        JsonValue::Text(s) => serde_json::Value::from(s),
    }
}

fn samples() -> Vec<ColumnData<'static>> {
    vec![
        ColumnData::U8(None),
        ColumnData::U8(Some(1)),
        ColumnData::I16(None),
        ColumnData::I16(Some(-2)),
        ColumnData::I32(None),
        ColumnData::I32(Some(0)),
        ColumnData::I32(Some(i32::MIN)),
        ColumnData::I32(Some(i32::MAX)),
        ColumnData::I64(None),
        ColumnData::I64(Some(i64::MIN)),
        ColumnData::I64(Some(i64::MAX)),
        ColumnData::F32(Some(1.5)),
        ColumnData::F64(None),
        ColumnData::F64(Some(-0.25)),
        ColumnData::Bit(Some(true)),
        ColumnData::String(None),
        ColumnData::String(Some(Cow::Borrowed(""))),
        ColumnData::String(Some(Cow::Owned("12".to_string()))),
        ColumnData::String(Some(Cow::Borrowed("żółć \"quoted\""))),
        ColumnData::Guid(None),
        ColumnData::Binary(Some(Cow::Borrowed(&[1u8, 2, 3]))),
        ColumnData::Numeric(None),
    ]
}

fn column_types() -> Vec<ColumnType> {
    vec![
        ColumnType::Null,
        ColumnType::Bit,
        ColumnType::Int1,
        ColumnType::Int2,
        ColumnType::Int4,
        ColumnType::Int8,
        ColumnType::Float4,
        ColumnType::Float8,
        ColumnType::Intn,
        ColumnType::Guid,
        ColumnType::Numericn,
        ColumnType::Datetime2,
        ColumnType::BigVarBin,
        ColumnType::BigVarChar,
        ColumnType::NVarchar,
        ColumnType::NChar,
        ColumnType::Text,
        ColumnType::SSVariant,
    ]
}

#[test]
fn coercion_agrees_with_the_typed_reads_of_the_client() {
    for column_type in column_types() {
        for data in samples() {
            let expected = read_with_client(column_type, &data);
            let got = as_serde(coerce(column_type, &cell_data(&data)));
            assert_eq!(got, expected, "column {:?}, data {:?}", column_type, data);
        }
    }
}

#[test]
fn json_values_agree_with_serde_json() {
    for v in [i32::MIN, -1, 0, 1, i32::MAX] {
        assert_eq!(as_serde(JsonValue::from_i32(v)), serde_json::to_value(v).unwrap());
    }
    for v in [i64::MIN, -1, 0, 1, i64::MAX] {
        assert_eq!(as_serde(JsonValue::from_i64(v)), serde_json::to_value(v).unwrap());
    }
    for v in ["", "abc", "line\nbreak", "ところ"] {
        assert_eq!(as_serde(JsonValue::from_text(v)), serde_json::to_value(v).unwrap());
    }
}
