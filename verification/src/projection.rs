//! Projection of column-typed rows into JSON-ready rows.

use crate::json::{JsonModel, JsonValue};
use crate::row::{column_names, CellData, CellModel, CellView, ColumnType, RawRow};
use crate::statement::StatementKind;
use vstd::prelude::*;

verus! {

/// One entry of a projected row.
#[derive(Clone, Debug, PartialEq, Eq)]
pub struct Field {
    pub name: String,
    pub value: JsonValue,
}

impl View for Field {
    type V = (Seq<char>, JsonModel);

    open spec fn view(&self) -> (Seq<char>, JsonModel) {
        (self.name@, self.value@)
    }
}

/// The values of a sequence of fields.
pub open spec fn field_views(fields: Seq<Field>) -> Seq<(Seq<char>, JsonModel)> {
    Seq::new(fields.len(), |i: int| fields[i]@)
}

/// The mapping that results from entering the fields one after another; a
/// later field replaces an earlier one of the same name.
pub open spec fn fields_map(fields: Seq<(Seq<char>, JsonModel)>) -> Map<Seq<char>, JsonModel>
    decreases fields.len(),
{
    if fields.len() == 0 {
        Map::empty()
    } else {
        fields_map(fields.drop_last()).insert(fields.last().0, fields.last().1)
    }
}

/// No name occurs twice among the fields.
pub open spec fn distinct_names(fields: Seq<(Seq<char>, JsonModel)>) -> bool {
    forall|i: int, j: int| 0 <= i < j < fields.len() ==> fields[i].0 != fields[j].0
}

/// The keys of `fields_map(fields)` are the names that occur in `fields`,
/// and there are finitely many.
pub proof fn lemma_fields_map_keys(fields: Seq<(Seq<char>, JsonModel)>)
    ensures
        fields_map(fields).dom().finite(),
        forall|k: Seq<char>| #[trigger]
            fields_map(fields).contains_key(k) <==> exists|i: int|
                0 <= i < fields.len() && #[trigger] fields[i].0 == k,
    decreases fields.len(),
{
    if fields.len() > 0 {
        let front = fields.drop_last();
        lemma_fields_map_keys(front);
        assert forall|k: Seq<char>| #[trigger]
            fields_map(fields).contains_key(k) implies exists|i: int|
            0 <= i < fields.len() && #[trigger] fields[i].0 == k by {
            if k == fields.last().0 {
                assert(fields[fields.len() - 1].0 == k);
            } else {
                assert(fields_map(front).contains_key(k));
                let i = choose|i: int| 0 <= i < front.len() && #[trigger] front[i].0 == k;
                assert(fields[i].0 == k);
            }
        }
        assert forall|k: Seq<char>|
            (exists|i: int|
                0 <= i < fields.len() && #[trigger] fields[i].0 == k) implies #[trigger]
            fields_map(fields).contains_key(k) by {
            let i = choose|i: int| 0 <= i < fields.len() && #[trigger] fields[i].0 == k;
            if i < fields.len() - 1 {
                assert(front[i].0 == k);
            }
        }
    }
}

/// Among fields with distinct names, each name maps to the value of its field.
pub proof fn lemma_fields_map_value(fields: Seq<(Seq<char>, JsonModel)>, i: int)
    requires
        distinct_names(fields),
        0 <= i < fields.len(),
    ensures
        fields_map(fields).contains_key(fields[i].0),
        fields_map(fields)[fields[i].0] == fields[i].1,
    decreases fields.len(),
{
    if i < fields.len() - 1 {
        let front = fields.drop_last();
        assert(front[i] == fields[i]);
        lemma_fields_map_value(front, i);
    }
}

/// Among fields with distinct names, there are as many keys as fields.
pub proof fn lemma_fields_map_len(fields: Seq<(Seq<char>, JsonModel)>)
    requires
        distinct_names(fields),
    ensures
        fields_map(fields).dom().finite(),
        fields_map(fields).dom().len() == fields.len(),
    decreases fields.len(),
{
    lemma_fields_map_keys(fields);
    if fields.len() > 0 {
        let front = fields.drop_last();
        lemma_fields_map_len(front);
        lemma_fields_map_keys(front);
        if fields_map(front).contains_key(fields.last().0) {
            let i = choose|i: int| 0 <= i < front.len() && #[trigger] front[i].0 == fields.last().0;
            assert(fields[i].0 == fields[fields.len() - 1].0);
        }
        assert(fields_map(fields).dom() =~= fields_map(front).dom().insert(fields.last().0));
    }
}

/// Replacing the value of one field, among fields with distinct names, is
/// entering that name with the new value.
proof fn lemma_fields_map_replace(fields: Seq<(Seq<char>, JsonModel)>, i: int, value: JsonModel)
    requires
        distinct_names(fields),
        0 <= i < fields.len(),
    ensures
        fields_map(fields.update(i, (fields[i].0, value))) == fields_map(fields).insert(
            fields[i].0,
            value,
        ),
    decreases fields.len(),
{
    let after = fields.update(i, (fields[i].0, value));
    let front = fields.drop_last();
    if i == fields.len() - 1 {
        assert(after.drop_last() =~= front);
    } else {
        assert(front[i] == fields[i]);
        lemma_fields_map_replace(front, i, value);
        assert(after.drop_last() =~= front.update(i, (fields[i].0, value)));
        assert(fields[i].0 != fields[fields.len() - 1].0);
    }
    assert(fields_map(after) =~= fields_map(fields).insert(fields[i].0, value));
}

/// A projected row: a mapping from column name to JSON value, held as one
/// entry for each name.
#[derive(Debug)]
pub struct ProjectedRow {
    fields: Vec<Field>,
}

impl View for ProjectedRow {
    type V = Map<Seq<char>, JsonModel>;

    closed spec fn view(&self) -> Map<Seq<char>, JsonModel> {
        fields_map(field_views(self.fields@))
    }
}

impl ProjectedRow {
    #[verifier::type_invariant]
    spec fn names_are_distinct(self) -> bool {
        distinct_names(field_views(self.fields@))
    }

    /// The row without entries.
    pub fn new() -> (row: ProjectedRow)
        ensures
            row@ == Map::<Seq<char>, JsonModel>::empty(),
    {
        ProjectedRow { fields: Vec::new() }
    }

    /// The position of the entry named `name`, if there is one.
    fn position(&self, name: &String) -> (found: Option<usize>)
        ensures
            match found {
                Some(i) => i < self.fields@.len() && self.fields@[i as int].name@ == name@,
                None => forall|k: int|
                    0 <= k < self.fields@.len() ==> (#[trigger] self.fields@[k]).name@ != name@,
            },
    {
        let mut i: usize = 0;
        while i < self.fields.len()
            invariant
                i <= self.fields@.len(),
                forall|k: int| 0 <= k < i ==> (#[trigger] self.fields@[k]).name@ != name@,
            decreases self.fields@.len() - i,
        {
            if self.fields[i].name == *name {
                return Some(i);
            }
            i = i + 1;
        }
        None
    }

    /// Enters `value` under `name`, in place of the value that stood there if
    /// the name was present.
    pub fn insert(&mut self, name: String, value: JsonValue)
        ensures
            final(self)@ == old(self)@.insert(name@, value@),
    {
        let mut taken = ProjectedRow::new();
        std::mem::swap(self, &mut taken);
        proof {
            use_type_invariant(&taken);
        }
        let found = taken.position(&name);
        let mut fields = taken.fields;
        let ghost before = field_views(fields@);
        match found {
            Some(i) => {
                proof {
                    lemma_fields_map_replace(before, i as int, value@);
                }
                fields.set(i, Field { name, value });
                assert(field_views(fields@) =~= before.update(i as int, (name@, value@)));
            },
            None => {
                fields.push(Field { name, value });
                assert(field_views(fields@).drop_last() =~= before);
                assert(field_views(fields@).last() == (name@, value@));
                assert forall|a: int, b: int| 0 <= a < b < fields@.len() implies field_views(
                    fields@,
                )[a].0 != field_views(fields@)[b].0 by {
                    assert(field_views(fields@)[a] == before[a]);
                    if b < before.len() {
                        assert(field_views(fields@)[b] == before[b]);
                    }
                }
            },
        }
        *self = ProjectedRow { fields };
    }

    /// The value entered under `name`, if there is one.
    pub fn get(&self, name: &str) -> (value: Option<&JsonValue>)
        ensures
            match value {
                Some(v) => self@.contains_key(name@) && v@ == self@[name@],
                None => !self@.contains_key(name@),
            },
    {
        proof {
            use_type_invariant(self);
            lemma_fields_map_keys(field_views(self.fields@));
        }
        let key = name.to_owned();
        match self.position(&key) {
            Some(i) => {
                proof {
                    lemma_fields_map_value(field_views(self.fields@), i as int);
                }
                Some(&self.fields[i].value)
            },
            None => {
                assert forall|k: int| 0 <= k < self.fields@.len() implies (
                #[trigger] field_views(self.fields@)[k]).0 != name@ by {
                    assert(self.fields@[k].name@ != name@);
                }
                None
            },
        }
    }

    /// The number of entries.
    pub fn len(&self) -> (n: usize)
        ensures
            self@.dom().finite(),
            n == self@.dom().len(),
    {
        proof {
            use_type_invariant(self);
            lemma_fields_map_len(field_views(self.fields@));
        }
        self.fields.len()
    }

    /// The entries of the row: one for each name, and together they make up
    /// the mapping.
    pub fn fields(&self) -> (fields: &Vec<Field>)
        ensures
            distinct_names(field_views(fields@)),
            fields_map(field_views(fields@)) == self@,
    {
        proof {
            use_type_invariant(self);
        }
        &self.fields
    }
}

/// The JSON value that a cell is coerced to: a number for an integer read
/// from a column of the matching integer type, a string for text read from a
/// column of any other type, and null for everything else.
pub open spec fn coerced(column_type: ColumnType, data: CellModel) -> JsonModel {
    match column_type {
        ColumnType::Int4 => match data {
            CellModel::Int32(Some(v)) => JsonModel::Number(v as int),
            _ => JsonModel::Null,
        },
        ColumnType::Int8 => match data {
            CellModel::Int64(Some(v)) => JsonModel::Number(v as int),
            _ => JsonModel::Null,
        },
        _ => match data {
            CellModel::Text(Some(s)) => JsonModel::Text(s),
            _ => JsonModel::Null,
        },
    }
}

/// The entries that the cells of a row give, one for each cell, in order.
pub open spec fn projected_fields(cells: Seq<CellView>) -> Seq<(Seq<char>, JsonModel)> {
    Seq::new(cells.len(), |i: int| (cells[i].name, coerced(cells[i].column_type, cells[i].data)))
}

/// The projection of one row.
pub open spec fn projected_row(cells: Seq<CellView>) -> Map<Seq<char>, JsonModel> {
    fields_map(projected_fields(cells))
}

/// The values of a sequence of rows.
pub open spec fn row_views(rows: Seq<RawRow>) -> Seq<Seq<CellView>> {
    Seq::new(rows.len(), |i: int| rows[i]@)
}

/// The projection of the rows collected for a statement of the given kind.
pub open spec fn projected(kind: StatementKind, rows: Seq<Seq<CellView>>) -> Seq<
    Map<Seq<char>, JsonModel>,
> {
    match kind {
        StatementKind::RowProducing => Seq::new(rows.len(), |i: int| projected_row(rows[i])),
        StatementKind::RowAffecting => Seq::empty(),
    }
}

/// Coerces one cell to its JSON value.
pub fn coerce(column_type: ColumnType, data: &CellData) -> (json: JsonValue)
    ensures
        json@ == coerced(column_type, data@),
{
    match column_type {
        ColumnType::Int4 => match data {
            CellData::Int32(Some(v)) => JsonValue::from_i32(*v),
            _ => JsonValue::Null,
        },
        ColumnType::Int8 => match data {
            CellData::Int64(Some(v)) => JsonValue::from_i64(*v),
            _ => JsonValue::Null,
        },
        _ => match data {
            CellData::Text(Some(s)) => JsonValue::from_text(s.as_str()),
            _ => JsonValue::Null,
        },
    }
}

/// Projects one row: every cell is entered under its column's name with its
/// coerced value, in the declared order of the columns.
pub fn project_row(raw: &RawRow) -> (row: ProjectedRow)
    ensures
        row@ == projected_row(raw@),
{
    let mut row = ProjectedRow::new();
    let mut i: usize = 0;
    while i < raw.cells.len()
        invariant
            i <= raw.cells@.len(),
            row@ == projected_row(raw@.take(i as int)),
        decreases raw.cells@.len() - i,
    {
        let cell = &raw.cells[i];
        let json = coerce(cell.column_type, &cell.data);
        proof {
            let now = projected_fields(raw@.take(i + 1));
            assert(now.drop_last() =~= projected_fields(raw@.take(i as int)));
            assert(now.last() == (cell.name@, json@));
        }
        row.insert(cell.name.clone(), json);
        i = i + 1;
    }
    assert(raw@.take(i as int) =~= raw@);
    row
}

/// The rows that one request returns, in the order of the result set.
#[derive(Debug)]
pub struct QueryResult {
    rows: Vec<ProjectedRow>,
}

impl View for QueryResult {
    type V = Seq<Map<Seq<char>, JsonModel>>;

    closed spec fn view(&self) -> Seq<Map<Seq<char>, JsonModel>> {
        Seq::new(self.rows@.len(), |i: int| self.rows@[i]@)
    }
}

impl QueryResult {
    /// The result that holds `rows`.
    pub fn new(rows: Vec<ProjectedRow>) -> (result: QueryResult)
        ensures
            result@ == Seq::new(rows@.len(), |i: int| rows@[i]@),
    {
        QueryResult { rows }
    }

    /// The rows of the result.
    pub fn rows(&self) -> (rows: &Vec<ProjectedRow>)
        ensures
            self@ == Seq::new(rows@.len(), |i: int| rows@[i]@),
    {
        &self.rows
    }
}

/// Projects the rows collected for a statement. For a row-producing
/// statement each row is projected, in order; for a row-affecting one the
/// result is empty, whatever was collected.
pub fn project(kind: StatementKind, rows: &Vec<RawRow>) -> (result: QueryResult)
    ensures
        result@ == projected(kind, row_views(rows@)),
        kind == StatementKind::RowAffecting ==> result@.len() == 0,
{
    let mut out: Vec<ProjectedRow> = Vec::new();
    match kind {
        StatementKind::RowAffecting => {},
        StatementKind::RowProducing => {
            let mut i: usize = 0;
            while i < rows.len()
                invariant
                    i <= rows@.len(),
                    out@.len() == i,
                    forall|k: int| 0 <= k < i ==> (#[trigger] out@[k])@ == projected_row(rows@[k]@),
                decreases rows@.len() - i,
            {
                out.push(project_row(&rows[i]));
                i = i + 1;
            }
        },
    }
    let result = QueryResult::new(out);
    assert(result@ =~= projected(kind, row_views(rows@)));
    result
}

/// No column is left out of a projected row: its keys are exactly the names
/// of the row's columns.
pub proof fn lemma_every_column_is_present(cells: Seq<CellView>)
    ensures
        forall|i: int| 0 <= i < cells.len() ==> projected_row(cells).contains_key(#[trigger] cells[i].name),
        forall|k: Seq<char>| #[trigger]
            projected_row(cells).contains_key(k) ==> exists|i: int|
                0 <= i < cells.len() && #[trigger] cells[i].name == k,
{
    let fields = projected_fields(cells);
    lemma_fields_map_keys(fields);
    assert forall|i: int| 0 <= i < cells.len() implies projected_row(cells).contains_key(
        #[trigger] cells[i].name,
    ) by {
        assert(fields[i].0 == cells[i].name);
    }
    assert forall|k: Seq<char>| #[trigger] projected_row(cells).contains_key(k) implies exists|
        i: int,
    |
        0 <= i < cells.len() && #[trigger] cells[i].name == k by {
        let i = choose|i: int| 0 <= i < fields.len() && #[trigger] fields[i].0 == k;
        assert(cells[i].name == k);
    }
}

/// Rows with the same columns have the same keys, whatever their cells hold.
pub proof fn lemma_same_columns_same_keys(a: Seq<CellView>, b: Seq<CellView>)
    requires
        column_names(a) == column_names(b),
    ensures
        projected_row(a).dom() == projected_row(b).dom(),
{
    lemma_every_column_is_present(a);
    lemma_every_column_is_present(b);
    assert(a.len() == column_names(a).len());
    assert(b.len() == column_names(b).len());
    assert forall|k: Seq<char>| projected_row(a).contains_key(k) == projected_row(b).contains_key(
        k,
    ) by {
        if projected_row(a).contains_key(k) {
            let i = choose|i: int| 0 <= i < a.len() && #[trigger] a[i].name == k;
            assert(column_names(a)[i] == column_names(b)[i]);
            assert(b[i].name == k);
        }
        if projected_row(b).contains_key(k) {
            let i = choose|i: int| 0 <= i < b.len() && #[trigger] b[i].name == k;
            assert(column_names(a)[i] == column_names(b)[i]);
            assert(a[i].name == k);
        }
    }
    assert(projected_row(a).dom() =~= projected_row(b).dom());
}

/// No column name occurs twice in the row.
pub open spec fn distinct_columns(cells: Seq<CellView>) -> bool {
    forall|i: int, j: int| 0 <= i < j < cells.len() ==> cells[i].name != cells[j].name
}

/// In a row whose column names are distinct, every column's name maps to
/// the coerced value of its cell.
pub proof fn lemma_column_maps_to_its_coercion(cells: Seq<CellView>, i: int)
    requires
        distinct_columns(cells),
        0 <= i < cells.len(),
    ensures
        projected_row(cells).contains_key(cells[i].name),
        projected_row(cells)[cells[i].name] == coerced(cells[i].column_type, cells[i].data),
{
    let fields = projected_fields(cells);
    assert forall|a: int, b: int| 0 <= a < b < fields.len() implies fields[a].0 != fields[b].0 by {
        assert(cells[a].name != cells[b].name);
    }
    lemma_fields_map_value(fields, i);
}

/// A SQL null in a 32-bit integer column is projected to an explicit JSON
/// null under the column's name: the key is present and its value is null.
pub proof fn lemma_null_integer_is_json_null(cells: Seq<CellView>, i: int)
    requires
        distinct_columns(cells),
        0 <= i < cells.len(),
        cells[i].column_type == ColumnType::Int4,
        cells[i].data == CellModel::Int32(None),
    ensures
        projected_row(cells).contains_key(cells[i].name),
        projected_row(cells)[cells[i].name] == JsonModel::Null,
{
    lemma_column_maps_to_its_coercion(cells, i);
}

/// In a column that is neither a 32-bit nor a 64-bit integer column, a cell
/// that does not hold a text is projected to an explicit JSON null.
pub proof fn lemma_unreadable_text_is_json_null(cells: Seq<CellView>, i: int)
    requires
        distinct_columns(cells),
        0 <= i < cells.len(),
        cells[i].column_type != ColumnType::Int4,
        cells[i].column_type != ColumnType::Int8,
        !(cells[i].data matches CellModel::Text(Some(_))),
    ensures
        projected_row(cells).contains_key(cells[i].name),
        projected_row(cells)[cells[i].name] == JsonModel::Null,
{
    lemma_column_maps_to_its_coercion(cells, i);
}

/// Projection depends on nothing but the kind of the statement and the
/// values of the collected rows: collecting the same rows again gives the
/// same result.
pub proof fn lemma_projection_is_repeatable(
    kind: StatementKind,
    first: Vec<RawRow>,
    second: Vec<RawRow>,
    first_result: QueryResult,
    second_result: QueryResult,
)
    requires
        row_views(first@) == row_views(second@),
        first_result@ == projected(kind, row_views(first@)),
        second_result@ == projected(kind, row_views(second@)),
    ensures
        first_result@ == second_result@,
{
}

/// A row-affecting statement has an empty result, whatever rows were
/// collected for it.
pub proof fn lemma_row_affecting_is_empty(rows: Seq<Seq<CellView>>)
    ensures
        projected(StatementKind::RowAffecting, rows).len() == 0,
{
}

} // verus!
