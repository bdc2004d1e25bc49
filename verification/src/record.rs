//! What every record type has in common.

use crate::cell::Cell;
use crate::decode::decodes_to;
use crate::decode::given_up_for;
use crate::decode::Datum;
use crate::decode::Fault;
use crate::schema::Entity;
use vstd::prelude::*;

verus! {

/// A typed record of one entity: a flat value with one field per column.
pub trait Record: Sized {
    /// The entity that the record is a row of.
    spec fn entity() -> Entity;

    /// The record's fields, in the order of the entity's columns.
    spec fn fields(&self) -> Seq<Datum>;

    /// The entity that the record is a row of.
    fn entity_tag() -> (e: Entity)
        ensures
            e == Self::entity(),
    ;

    /// Decodes one row: each field from the cell at the position of its
    /// column. The row is given up at the first required column, in the
    /// order of the select list, that has no readable value.
    fn from_row(row: &Vec<Cell>) -> (r: Result<Self, Fault>)
        ensures
            match r {
                Ok(record) => decodes_to(
                    Self::entity().columns(),
                    row.deep_view(),
                    record.fields(),
                ),
                Err(fault) => given_up_for(Self::entity().columns(), row.deep_view(), fault),
            },
    ;
}

} // verus!
