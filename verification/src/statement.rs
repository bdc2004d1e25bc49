//! The text of the one statement that each entity is read with.

use crate::schema::ColumnView;
use crate::schema::Entity;
use vstd::prelude::*;

verus! {

/// The names of the columns, in their order, with a comma and a blank
/// between two of them.
pub open spec fn select_list(columns: Seq<ColumnView>) -> Seq<char>
    decreases columns.len(),
{
    if columns.len() == 0 {
        Seq::empty()
    } else if columns.len() == 1 {
        columns[0].name
    } else {
        select_list(columns.drop_last()) + ", "@ + columns.last().name
    }
}

/// The statement that reads the whole table of an entity: every column of
/// the entity by its name, in the entity's order, and no condition, order or
/// limit.
pub open spec fn select_text(entity: Entity) -> Seq<char> {
    "SELECT "@ + select_list(entity.columns()) + " FROM "@ + entity.table()
}

/// The statement that reads the whole table of an entity.
pub fn select_statement(entity: Entity) -> (sql: String)
    ensures
        sql@ == select_text(entity),
{
    let columns = entity.column_list();
    let mut sql = String::from_str("SELECT ");
    let mut i: usize = 0;
    while i < columns.len()
        invariant
            i <= columns.len(),
            columns.deep_view() == entity.columns(),
            sql@ == "SELECT "@ + select_list(entity.columns().take(i as int)),
        decreases columns.len() - i,
    {
        let ghost head = entity.columns().take(i as int);
        let ghost next = entity.columns().take(i + 1);
        assert(next.drop_last() =~= head);
        assert(next.last() == columns[i as int]@);
        if i > 0 {
            sql.append(", ");
        }
        sql.append(columns[i].name);
        assert(sql@ =~= "SELECT "@ + select_list(next));
        i += 1;
    }
    assert(entity.columns().take(i as int) =~= entity.columns());
    sql.append(" FROM ");
    sql.append(entity.table_name());
    sql
}

} // verus!
