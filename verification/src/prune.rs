//! Column pruning: a column stays in a table exactly when some row of it
//! holds a value.

use crate::table::{Cell, Column, ColumnModel, Table, TableModel, column_wf, columns_model, table_model_columns};
use vstd::prelude::*;

verus! {

/// The test that pruning applies to each column.
pub open spec fn keeps() -> spec_fn(ColumnModel) -> bool {
    |column: ColumnModel| column.informative()
}

impl TableModel {
    /// The table without the columns that are missing in every row. The
    /// row count and the order of the columns that stay are unchanged.
    pub open spec fn pruned(self) -> TableModel {
        TableModel { rows: self.rows, columns: self.columns.filter(keeps()) }
    }
}

/// Filtering a sequence whose items all pass the test changes nothing.
pub proof fn filter_of_all_passing<A>(s: Seq<A>, pred: spec_fn(A) -> bool)
    requires
        forall|i: int| 0 <= i < s.len() ==> pred(#[trigger] s[i]),
    ensures
        s.filter(pred) == s,
    decreases s.len(),
{
    reveal(Seq::filter);
    if s.len() > 0 {
        let front = s.drop_last();
        assert forall|i: int| 0 <= i < front.len() implies pred(#[trigger] front[i]) by {
            assert(front[i] == s[i]);
        }
        filter_of_all_passing(front, pred);
        assert(pred(s.last()));
        assert(front.push(s.last()) =~= s);
    }
}

/// Filtering a sequence none of whose items pass the test leaves nothing.
pub proof fn filter_of_none_passing<A>(s: Seq<A>, pred: spec_fn(A) -> bool)
    requires
        forall|i: int| 0 <= i < s.len() ==> !pred(#[trigger] s[i]),
    ensures
        s.filter(pred) == Seq::<A>::empty(),
    decreases s.len(),
{
    reveal(Seq::filter);
    if s.len() > 0 {
        let front = s.drop_last();
        assert forall|i: int| 0 <= i < front.len() implies !pred(#[trigger] front[i]) by {
            assert(front[i] == s[i]);
        }
        filter_of_none_passing(front, pred);
        assert(!pred(s.last()));
    } else {
        assert(s =~= Seq::<A>::empty());
    }
}

/// Pruning leaves alone a table in which no column is missing throughout.
pub proof fn pruning_keeps_informative_table(table: TableModel)
    requires
        forall|j: int| 0 <= j < table.columns.len() ==> (#[trigger] table.columns[j]).informative(),
    ensures
        table.pruned() == table,
{
    filter_of_all_passing(table.columns, keeps());
}

/// Pruning a pruned table changes nothing.
pub proof fn pruning_is_idempotent(table: TableModel)
    ensures
        table.pruned().pruned() == table.pruned(),
{
    let once = table.pruned();
    assert forall|j: int| 0 <= j < once.columns.len() implies (#[trigger] once.columns[j]).informative() by {
        table.columns.lemma_filter_pred(keeps(), j);
    }
    pruning_keeps_informative_table(once);
}

/// Pruning keeps the row count, keeps only columns of the table, and so
/// keeps a well-formed table well formed.
pub proof fn pruning_keeps_well_formed(table: TableModel)
    ensures
        table.pruned().rows == table.rows,
        table.pruned().columns.len() <= table.columns.len(),
        table.rectangular() ==> table.pruned().rectangular(),
        table.wf() ==> table.pruned().wf(),
{
    let once = table.pruned();
    table.columns.lemma_filter_len(keeps());
    assert forall|j: int| 0 <= j < once.columns.len() implies table.columns.contains(
        #[trigger] once.columns[j],
    ) by {
        assert(once.columns.contains(once.columns[j]));
        table.columns.lemma_filter_contains_rev(keeps(), once.columns[j]);
    }
    if table.rectangular() {
        assert forall|j: int| 0 <= j < once.columns.len() implies (#[trigger] once.columns[j]).cells.len()
            == once.rows by {
            assert(table.columns.contains(once.columns[j]));
            let k = choose|k: int| 0 <= k < table.columns.len() && table.columns[k] == once.columns[j];
            assert(table.columns[k].cells.len() == table.rows);
        }
    }
    if table.wf() {
        assert forall|j: int| 0 <= j < once.columns.len() implies column_wf(
            #[trigger] once.columns[j],
            once.rows,
        ) by {
            assert(table.columns.contains(once.columns[j]));
            let k = choose|k: int| 0 <= k < table.columns.len() && table.columns[k] == once.columns[j];
            assert(column_wf(table.columns[k], table.rows));
        }
    }
}

/// Pruning a rectangular table without rows leaves no column.
pub proof fn pruning_empties_table_without_rows(table: TableModel)
    requires
        table.rectangular(),
        table.rows == 0,
    ensures
        table.pruned() == TableModel::bare(0),
{
    assert forall|j: int| 0 <= j < table.columns.len() implies !keeps()(#[trigger] table.columns[j]) by {
        assert(table.columns[j].cells.len() == 0);
    }
    filter_of_none_passing(table.columns, keeps());
}

/// Whether some row of the column holds a value.
pub fn column_is_informative(column: &Column) -> (r: bool)
    ensures
        r == column@.informative(),
{
    let mut i: usize = 0;
    while i < column.cells.len()
        invariant
            i <= column.cells@.len(),
            forall|k: int| 0 <= k < i ==> column@.cells[k] is Missing,
        decreases column.cells@.len() - i,
    {
        match &column.cells[i] {
            Cell::Missing => {},
            _ => {
                assert(!(column@.cells[i as int] is Missing));
                return true;
            },
        }
        i += 1;
    }
    false
}

/// Removes the columns that are missing in every row.
///
/// The result has the same row count and holds, in their order, exactly the
/// columns in which some row has a value. A present nested table counts as a
/// value whatever it holds. A table may lose all its columns this way.
pub fn drop_empty_columns(table: Table) -> (pruned: Table)
    ensures
        pruned@ == table@.pruned(),
        table@.wf() ==> pruned@.wf(),
        table@.rectangular() ==> pruned@.rectangular(),
{
    let Table { rows, columns } = table;
    let ghost all = columns_model(columns@);
    let mut kept: Vec<Column> = Vec::new();
    proof {
        reveal(Seq::filter);
        assert(all.take(0) =~= Seq::<ColumnModel>::empty());
        assert(columns_model(kept@) =~= all.take(0).filter(keeps()));
    }
    for column in it: columns.into_iter()
        invariant
            it.seq() == columns@,
            all == columns_model(columns@),
            columns_model(kept@) == all.take(it.index()).filter(keeps()),
    {
        let ghost done = it.index();
        let ghost before = columns_model(kept@);
        let keep = column_is_informative(&column);
        proof {
            reveal(Seq::filter);
            assert(all.take(done + 1).drop_last() =~= all.take(done));
            assert(all.take(done + 1).last() == column@);
        }
        if keep {
            kept.push(column);
            assert(columns_model(kept@) =~= before.push(column@));
        }
    }
    let pruned = Table { rows, columns: kept };
    proof {
        assert(all.take(all.len() as int) =~= all);
        table_model_columns(table);
        table_model_columns(pruned);
        assert(pruned@ == table@.pruned());
        pruning_keeps_well_formed(table@);
    }
    pruned
}

} // verus!
