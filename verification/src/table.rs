//! The normalised table: ordered, named columns of one common length, whose
//! cells are scalars or whole tables.

use vstd::prelude::*;

verus! {

/// What the present cells of a column hold.
#[derive(Debug, Clone, Copy, PartialEq, Eq, Structural)]
pub enum ColumnKind {
    Logical,
    Integer,
    Double,
    Text,
    Nested,
}

/// One cell of a table. A `Double` holds the bit pattern of the number; a
/// `Nested` cell holds a complete table.
#[derive(Debug, PartialEq, Eq)]
pub enum Cell {
    Missing,
    Logical(bool),
    Integer(i32),
    Double(u64),
    Text(String),
    Nested(Table),
}

/// A named column.
#[derive(Debug, PartialEq, Eq)]
pub struct Column {
    pub name: String,
    pub kind: ColumnKind,
    pub cells: Vec<Cell>,
}

/// A table: a row count and the columns in their order.
#[derive(Debug, PartialEq, Eq)]
pub struct Table {
    pub rows: usize,
    pub columns: Vec<Column>,
}

/// The mathematical value of a cell.
pub enum CellModel {
    Missing,
    Logical(bool),
    Integer(i32),
    Double(u64),
    Text(Seq<char>),
    Nested(TableModel),
}

/// The mathematical value of a column.
pub struct ColumnModel {
    pub name: Seq<char>,
    pub kind: ColumnKind,
    pub cells: Seq<CellModel>,
}

/// The mathematical value of a table.
pub struct TableModel {
    pub rows: nat,
    pub columns: Seq<ColumnModel>,
}

/// The value of a cell: what it holds, a text by its characters and a
/// nested table by its own value.
pub open spec fn cell_model(cell: Cell) -> CellModel
    decreases cell,
{
    match cell {
        Cell::Missing => CellModel::Missing,
        Cell::Logical(b) => CellModel::Logical(b),
        Cell::Integer(i) => CellModel::Integer(i),
        Cell::Double(bits) => CellModel::Double(bits),
        Cell::Text(s) => CellModel::Text(s@),
        Cell::Nested(t) => CellModel::Nested(table_model(t)),
    }
}

/// The value of a column: its name by its characters, its kind, and the
/// values of its cells in order.
pub open spec fn column_model(column: Column) -> ColumnModel
    decreases column,
{
    ColumnModel {
        name: column.name@,
        kind: column.kind,
        cells: Seq::new(
            column.cells@.len(),
            |i: int|
                if 0 <= i < column.cells@.len() {
                    cell_model(column.cells@[i])
                } else {
                    CellModel::Missing
                },
        ),
    }
}

/// The value of a table: its row count and the values of its columns in
/// order.
pub open spec fn table_model(table: Table) -> TableModel
    decreases table,
{
    TableModel {
        rows: table.rows as nat,
        columns: Seq::new(
            table.columns@.len(),
            |j: int|
                if 0 <= j < table.columns@.len() {
                    column_model(table.columns@[j])
                } else {
                    arbitrary()
                },
        ),
    }
}

impl View for Cell {
    type V = CellModel;

    open spec fn view(&self) -> CellModel {
        cell_model(*self)
    }
}

impl View for Column {
    type V = ColumnModel;

    open spec fn view(&self) -> ColumnModel {
        column_model(*self)
    }
}

impl View for Table {
    type V = TableModel;

    open spec fn view(&self) -> TableModel {
        table_model(*self)
    }
}

/// The values of a run of cells, in order.
pub open spec fn cells_model(cells: Seq<Cell>) -> Seq<CellModel> {
    Seq::new(cells.len(), |i: int| cells[i]@)
}

/// The values of a run of rows, in order.
pub open spec fn rows_model(rows: Seq<Vec<Cell>>) -> Seq<Seq<CellModel>> {
    Seq::new(rows.len(), |i: int| cells_model(rows[i]@))
}

/// The values of a run of columns, in order.
pub open spec fn columns_model(columns: Seq<Column>) -> Seq<ColumnModel> {
    Seq::new(columns.len(), |j: int| columns[j]@)
}

/// A cell is in order for a column of a kind when it is missing or holds a
/// value of that kind; a nested table must itself be well formed.
pub open spec fn cell_wf(cell: CellModel, kind: ColumnKind) -> bool
    decreases cell,
{
    match cell {
        CellModel::Missing => true,
        CellModel::Logical(_) => kind == ColumnKind::Logical,
        CellModel::Integer(_) => kind == ColumnKind::Integer,
        CellModel::Double(_) => kind == ColumnKind::Double,
        CellModel::Text(_) => kind == ColumnKind::Text,
        CellModel::Nested(t) => kind == ColumnKind::Nested && table_wf(t),
    }
}

/// A column is in order for a row count when it has that many cells, each
/// in order for the column's kind.
pub open spec fn column_wf(column: ColumnModel, rows: nat) -> bool
    decreases column,
{
    &&& column.cells.len() == rows
    &&& forall|i: int|
        0 <= i < column.cells.len() ==> cell_wf(#[trigger] column.cells[i], column.kind)
}

/// A table is well formed when every column is in order for its row count.
pub open spec fn table_wf(table: TableModel) -> bool
    decreases table,
{
    forall|j: int| 0 <= j < table.columns.len() ==> column_wf(#[trigger] table.columns[j], table.rows)
}

impl ColumnModel {
    /// Whether some row of the column holds a value.
    pub open spec fn informative(self) -> bool {
        exists|i: int| 0 <= i < self.cells.len() && !(#[trigger] self.cells[i] is Missing)
    }
}

impl TableModel {
    /// The table with no columns and the given number of rows.
    pub open spec fn bare(rows: nat) -> TableModel {
        TableModel { rows, columns: Seq::empty() }
    }

    /// Every column has as many cells as the table has rows, every cell is
    /// of its column's kind, and every nested table is well formed in turn.
    pub open spec fn wf(self) -> bool {
        table_wf(self)
    }

    /// The number of cells in each column is the table's row count. This is
    /// the part of well-formedness that looks no further than the table's
    /// own columns, whatever their cells hold.
    pub open spec fn rectangular(self) -> bool {
        forall|j: int| 0 <= j < self.columns.len() ==> (#[trigger] self.columns[j]).cells.len() == self.rows
    }
}

/// The model of a table is made of the models of its columns.
pub proof fn table_model_columns(table: Table)
    ensures
        table@.rows == table.rows,
        table@.columns == columns_model(table.columns@),
{
    assert(table@.columns =~= columns_model(table.columns@));
}

/// The model of a column is made of the models of its cells.
pub proof fn column_model_cells(column: Column)
    ensures
        column@.name == column.name@,
        column@.kind == column.kind,
        column@.cells == cells_model(column.cells@),
{
    assert(column@.cells =~= cells_model(column.cells@));
}

/// A well-formed table is rectangular.
pub proof fn wf_is_rectangular(table: TableModel)
    requires
        table.wf(),
    ensures
        table.rectangular(),
{
    assert forall|j: int| 0 <= j < table.columns.len() implies (#[trigger] table.columns[j]).cells.len()
        == table.rows by {
        assert(column_wf(table.columns[j], table.rows));
    }
}

/// The place of the first column with the given name among the columns
/// from `start` on.
pub open spec fn position_from(columns: Seq<Column>, name: Seq<char>, start: int) -> Option<int>
    decreases columns.len() - start,
{
    if start < 0 || start >= columns.len() {
        None
    } else if columns[start].name@ == name {
        Some(start)
    } else {
        position_from(columns, name, start + 1)
    }
}

impl Table {
    /// The table with the given number of rows and no columns.
    pub fn bare(rows: usize) -> (table: Table)
        ensures
            table@ == TableModel::bare(rows as nat),
            table@.wf(),
    {
        let table = Table { rows, columns: Vec::new() };
        proof {
            table_model_columns(table);
            assert(table@.columns =~= Seq::empty());
        }
        table
    }

    /// The place of the first column with the given name.
    pub fn position(&self, name: &str) -> (r: Option<usize>)
        ensures
            match r {
                Some(at) => position_from(self.columns@, name@, 0) == Some(at as int) && at
                    < self.columns@.len() && self.columns@[at as int].name@ == name@,
                None => position_from(self.columns@, name@, 0) is None,
            },
    {
        let wanted: String = name.to_owned();
        let mut j: usize = 0;
        while j < self.columns.len()
            invariant
                j <= self.columns@.len(),
                wanted@ == name@,
                position_from(self.columns@, name@, 0) == position_from(self.columns@, name@, j as int),
            decreases self.columns@.len() - j,
        {
            if self.columns[j].name == wanted {
                return Some(j);
            }
            j += 1;
        }
        None
    }

    /// The first column with the given name.
    pub fn column<'a>(&'a self, name: &str) -> (r: Option<&'a Column>)
        ensures
            match r {
                Some(column) => position_from(self.columns@, name@, 0) is Some && *column
                    == self.columns@[position_from(self.columns@, name@, 0).unwrap()],
                None => position_from(self.columns@, name@, 0) is None,
            },
    {
        match self.position(name) {
            Some(at) => Some(&self.columns[at]),
            None => None,
        }
    }
}

impl Cell {
    /// Whether the cell is in order for a column of the given kind.
    pub fn suits(&self, kind: ColumnKind) -> (r: bool)
        ensures
            r == cell_wf(self@, kind),
        decreases self,
    {
        match self {
            Cell::Missing => true,
            Cell::Logical(_) => kind == ColumnKind::Logical,
            Cell::Integer(_) => kind == ColumnKind::Integer,
            Cell::Double(_) => kind == ColumnKind::Double,
            Cell::Text(_) => kind == ColumnKind::Text,
            Cell::Nested(table) => kind == ColumnKind::Nested && table.is_well_formed(),
        }
    }
}

impl Column {
    /// Whether the column is in order for a table of the given row count.
    pub fn suits(&self, rows: usize) -> (r: bool)
        ensures
            r == column_wf(self@, rows as nat),
        decreases self,
    {
        if self.cells.len() != rows {
            return false;
        }
        let mut i: usize = 0;
        while i < self.cells.len()
            invariant
                i <= self.cells@.len(),
                self.cells@.len() == rows,
                forall|k: int| 0 <= k < i ==> cell_wf(#[trigger] self@.cells[k], self.kind),
            decreases self.cells@.len() - i,
        {
            if !self.cells[i].suits(self.kind) {
                assert(!cell_wf(self@.cells[i as int], self@.kind));
                return false;
            }
            i += 1;
        }
        true
    }
}

impl Table {
    /// Whether the table is well formed.
    pub fn is_well_formed(&self) -> (r: bool)
        ensures
            r == self@.wf(),
        decreases self,
    {
        let mut j: usize = 0;
        while j < self.columns.len()
            invariant
                j <= self.columns@.len(),
                forall|k: int| 0 <= k < j ==> column_wf(#[trigger] self@.columns[k], self@.rows),
            decreases self.columns@.len() - j,
        {
            if !self.columns[j].suits(self.rows) {
                assert(!column_wf(self@.columns[j as int], self@.rows));
                return false;
            }
            j += 1;
        }
        true
    }
}

} // verus!
