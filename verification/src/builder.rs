//! The table builder: a run of rows becomes a table whose columns are the
//! declared fields, in declared order.

use crate::schema::{Field, rows_fit};
use crate::table::{
    Cell, CellModel, Column, ColumnModel, Table, TableModel, column_model_cells, column_wf,
    columns_model, rows_model, table_model_columns,
};
use vstd::prelude::*;

verus! {

/// The column that a field makes of a run of rows: the field's name and
/// kind, and from each row the cell at the field's place.
pub open spec fn column_of(fields: Seq<Field>, rows: Seq<Seq<CellModel>>, j: int) -> ColumnModel {
    ColumnModel {
        name: fields[j].name@,
        kind: fields[j].kind,
        cells: Seq::new(rows.len(), |i: int| rows[i][j]),
    }
}

/// The table of a run of rows: one row each, one column for each field.
pub open spec fn table_of(fields: Seq<Field>, rows: Seq<Seq<CellModel>>) -> TableModel {
    TableModel {
        rows: rows.len(),
        columns: Seq::new(fields.len(), |j: int| column_of(fields, rows, j)),
    }
}

/// The table of a run of rows is rectangular, and well formed where the
/// rows suit the fields.
pub proof fn table_of_is_well_formed(fields: Seq<Field>, rows: Seq<Seq<CellModel>>)
    ensures
        table_of(fields, rows).rectangular(),
        rows_fit(rows, fields) ==> table_of(fields, rows).wf(),
{
    let table = table_of(fields, rows);
    if rows_fit(rows, fields) {
        assert forall|j: int| 0 <= j < table.columns.len() implies column_wf(
            #[trigger] table.columns[j],
            table.rows,
        ) by {
            let column = table.columns[j];
            assert forall|i: int| 0 <= i < column.cells.len() implies crate::table::cell_wf(
                #[trigger] column.cells[i],
                column.kind,
            ) by {
                assert(crate::schema::row_fits(rows[i], fields));
                assert(crate::schema::cell_fits(rows[i][j], fields[j]));
            }
        }
    }
}

/// Builds the table of a run of rows.
///
/// Each row has one cell for each field. The table has the rows in their
/// order and one column for each field, in the order of the fields, named
/// and typed as the field says. No rows give a table of no rows and all the
/// columns.
pub fn table_from_rows(fields: &Vec<Field>, rows: Vec<Vec<Cell>>) -> (table: Table)
    requires
        forall|i: int| 0 <= i < rows@.len() ==> (#[trigger] rows@[i])@.len() == fields@.len(),
    ensures
        table@ == table_of(fields@, rows_model(rows@)),
        table@.rectangular(),
        rows_fit(rows_model(rows@), fields@) ==> table@.wf(),
{
    let width = fields.len();
    let height = rows.len();
    let mut columns: Vec<Column> = Vec::new();
    let mut j: usize = 0;
    while j < width
        invariant
            width == fields@.len(),
            j <= width,
            columns@.len() == j,
            forall|k: int|
                0 <= k < j ==> {
                    &&& (#[trigger] columns@[k]).name@ == fields@[k].name@
                    &&& columns@[k].kind == fields@[k].kind
                    &&& columns@[k].cells@.len() == 0
                },
        decreases width - j,
    {
        let field = &fields[j];
        columns.push(Column { name: field.name.to_owned(), kind: field.kind, cells: Vec::new() });
        j += 1;
    }
    for row in it: rows.into_iter()
        invariant
            it.seq() == rows@,
            width == fields@.len(),
            columns@.len() == width,
            forall|i: int| 0 <= i < rows@.len() ==> (#[trigger] rows@[i])@.len() == width,
            forall|k: int|
                0 <= k < width ==> {
                    &&& (#[trigger] columns@[k]).name@ == fields@[k].name@
                    &&& columns@[k].kind == fields@[k].kind
                    &&& columns@[k].cells@.len() == it.index()
                },
            forall|i: int, k: int|
                0 <= i < it.index() && 0 <= k < width ==> columns@[k].cells@[i] == rows@[i]@[k],
    {
        let ghost done = it.index();
        assert(row == rows@[done]);
        let mut k: usize = 0;
        for cell in jt: row.into_iter()
            invariant
                jt.seq() == row@,
                k == jt.index(),
                row@.len() == width,
                width == fields@.len(),
                columns@.len() == width,
                row == rows@[done],
                0 <= done < rows@.len(),
                forall|c: int|
                    0 <= c < width ==> {
                        &&& (#[trigger] columns@[c]).name@ == fields@[c].name@
                        &&& columns@[c].kind == fields@[c].kind
                        &&& columns@[c].cells@.len() == if c < jt.index() {
                            done + 1
                        } else {
                            done
                        }
                    },
                forall|i: int, c: int|
                    0 <= i < done && 0 <= c < width ==> columns@[c].cells@[i] == rows@[i]@[c],
                forall|c: int| 0 <= c < jt.index() ==> columns@[c].cells@[done] == row@[c],
        {
            columns[k].cells.push(cell);
            k += 1;
        }
    }
    let table = Table { rows: height, columns };
    proof {
        let model = table_of(fields@, rows_model(rows@));
        table_model_columns(table);
        assert forall|c: int| 0 <= c < width implies #[trigger] table@.columns[c] == model.columns[c] by {
            column_model_cells(table.columns@[c]);
            assert(table@.columns[c].cells =~= model.columns[c].cells);
        }
        assert(table@.columns =~= model.columns);
        table_of_is_well_formed(fields@, rows_model(rows@));
    }
    table
}

} // verus!
