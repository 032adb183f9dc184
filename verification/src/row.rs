//! Rows as the server returns them: column-typed cells, before projection.

use vstd::prelude::*;

verus! {

/// The declared type of a result column.
#[derive(Clone, Copy, Debug, PartialEq, Eq, Structural)]
pub enum ColumnType {
    Null,
    Bit,
    Int1,
    Int2,
    Int4,
    Int8,
    Datetime4,
    Float4,
    Float8,
    Money,
    Datetime,
    Money4,
    Guid,
    Intn,
    Bitn,
    Decimaln,
    Numericn,
    Floatn,
    Datetimen,
    Daten,
    Timen,
    Datetime2,
    DatetimeOffsetn,
    BigVarBin,
    BigVarChar,
    BigBinary,
    BigChar,
    NVarchar,
    NChar,
    Xml,
    Udt,
    Text,
    Image,
    NText,
    SSVariant,
}

/// What a cell holds, as far as projection reads it. `None` is a SQL null.
#[derive(Clone, Debug, PartialEq, Eq)]
pub enum CellData {
    /// A 32-bit integer.
    Int32(Option<i32>),
    /// A 64-bit integer.
    Int64(Option<i64>),
    /// Character data.
    Text(Option<String>),
    /// A value of any other shape: it reads neither as an integer nor as text.
    Other,
}

/// The mathematical value of a [`CellData`].
pub ghost enum CellModel {
    Int32(Option<i32>),
    Int64(Option<i64>),
    Text(Option<Seq<char>>),
    Other,
}

impl View for CellData {
    type V = CellModel;

    open spec fn view(&self) -> CellModel {
        match self {
            CellData::Int32(v) => CellModel::Int32(*v),
            CellData::Int64(v) => CellModel::Int64(*v),
            CellData::Text(Some(s)) => CellModel::Text(Some(s@)),
            CellData::Text(None) => CellModel::Text(None),
            CellData::Other => CellModel::Other,
        }
    }
}

/// One cell of a row: the column it belongs to and what it holds.
#[derive(Clone, Debug, PartialEq, Eq)]
pub struct RawCell {
    pub name: String,
    pub column_type: ColumnType,
    pub data: CellData,
}

/// The mathematical value of a [`RawCell`].
pub ghost struct CellView {
    pub name: Seq<char>,
    pub column_type: ColumnType,
    pub data: CellModel,
}

impl View for RawCell {
    type V = CellView;

    open spec fn view(&self) -> CellView {
        CellView { name: self.name@, column_type: self.column_type, data: self.data@ }
    }
}

/// One row of a result set: its cells in the declared order of the columns.
#[derive(Clone, Debug, PartialEq, Eq)]
pub struct RawRow {
    pub cells: Vec<RawCell>,
}

impl View for RawRow {
    type V = Seq<CellView>;

    open spec fn view(&self) -> Seq<CellView> {
        Seq::new(self.cells@.len(), |i: int| self.cells@[i]@)
    }
}

/// The column names of a row, in order.
pub open spec fn column_names(cells: Seq<CellView>) -> Seq<Seq<char>> {
    Seq::new(cells.len(), |i: int| cells[i].name)
}

} // verus!
