//! The accessors: what a sweep over a table answers.
//!
//! Each accessor takes what the gateway brought back from one sweep and
//! answers with the table's records or with the error that the call fails
//! with. Nothing is kept between two calls.

use crate::cell::Cell;
use crate::cell::CellView;
use crate::decode::decode_row;
use crate::decode::lemma_decode_row_fault;
use crate::decode::lemma_decode_row_fields;
use crate::decode::Datum;
use crate::decode::Fault;
use crate::inventory::InventoryHistory;
use crate::inventory::InventoryItem;
use crate::inventory::InventoryReorder;
use crate::order::Order;
use crate::product::DesignFile;
use crate::product::Product;
use crate::product::Sample;
use crate::production::CostingSheet;
use crate::production::ProductionPlan;
use crate::production::Resource;
use crate::record::Record;
use crate::schema::ColumnView;
use crate::schema::Entity;
use crate::schema::Policy;
use crate::user::User;
use vstd::prelude::*;

verus! {

/// What the gateway brings back from one sweep over a table.
#[derive(Clone, Debug, PartialEq, Eq)]
pub enum Fetch {
    /// The database at `path` could not be opened: the file is missing or
    /// locked.
    Unavailable { path: String, detail: String },
    /// The statement was refused: its text does not fit the stored schema.
    Unprepared { detail: String },
    /// The sweep ran. `rows` holds the cells of each row that was read, in
    /// the order of storage; `failure` is set if the storage engine failed
    /// before the end of the table, and then no row after the failure was
    /// read.
    Swept { rows: Vec<Vec<Cell>>, failure: Option<String> },
}

/// The mathematical value of a [`Fetch`].
pub enum FetchView {
    Unavailable { path: Seq<char>, detail: Seq<char> },
    Unprepared { detail: Seq<char> },
    Swept { rows: Seq<Seq<CellView>>, failure: Option<Seq<char>> },
}

/// The text of an optional message.
pub open spec fn detail_view(detail: Option<String>) -> Option<Seq<char>> {
    match detail {
        Some(s) => Some(s@),
        None => None,
    }
}

impl View for Fetch {
    type V = FetchView;

    open spec fn view(&self) -> FetchView {
        match self {
            Fetch::Unavailable { path, detail } => FetchView::Unavailable {
                path: path@,
                detail: detail@,
            },
            Fetch::Unprepared { detail } => FetchView::Unprepared { detail: detail@ },
            Fetch::Swept { rows, failure } => FetchView::Swept {
                rows: rows.deep_view(),
                failure: detail_view(*failure),
            },
        }
    }
}

/// Why a call of an accessor fails.
#[derive(Clone, Debug, PartialEq, Eq)]
pub enum AccessError {
    /// The database could not be opened.
    ConnectionFailure { path: String, detail: String },
    /// The statement was refused.
    StatementPrepareFailure { detail: String },
    /// The storage engine failed during the sweep.
    QueryExecutionFailure { entity: Entity, detail: String },
    /// A row could not be decoded. `row` counts the rows of the sweep from
    /// zero.
    RowDecodeFailure { entity: Entity, row: usize, fault: Fault },
}

/// The mathematical value of an [`AccessError`].
pub enum AccessErrorView {
    ConnectionFailure { path: Seq<char>, detail: Seq<char> },
    StatementPrepareFailure { detail: Seq<char> },
    QueryExecutionFailure { entity: Entity, detail: Seq<char> },
    RowDecodeFailure { entity: Entity, row: int, fault: Fault },
}

impl View for AccessError {
    type V = AccessErrorView;

    open spec fn view(&self) -> AccessErrorView {
        match self {
            AccessError::ConnectionFailure { path, detail } => AccessErrorView::ConnectionFailure {
                path: path@,
                detail: detail@,
            },
            AccessError::StatementPrepareFailure { detail } => {
                AccessErrorView::StatementPrepareFailure { detail: detail@ }
            },
            AccessError::QueryExecutionFailure { entity, detail } => {
                AccessErrorView::QueryExecutionFailure { entity: *entity, detail: detail@ }
            },
            AccessError::RowDecodeFailure { entity, row, fault } => {
                AccessErrorView::RowDecodeFailure {
                    entity: *entity,
                    row: *row as int,
                    fault: *fault,
                }
            },
        }
    }
}

/// The fields of a row that decodes, and nothing for one that does not.
pub open spec fn decoded(columns: Seq<ColumnView>) -> spec_fn(Seq<CellView>) -> Option<
    Seq<Datum>,
> {
    |row: Seq<CellView>|
        match decode_row(columns, row) {
            Ok(fields) => Some(fields),
            Err(_) => None,
        }
}

/// The rows that decode, decoded, in their order.
pub open spec fn kept(columns: Seq<ColumnView>, rows: Seq<Seq<CellView>>) -> Seq<Seq<Datum>> {
    rows.filter_map(decoded(columns))
}

/// Whether row `i` is the first row of the sweep that does not decode.
pub open spec fn first_given_up(
    columns: Seq<ColumnView>,
    rows: Seq<Seq<CellView>>,
    i: int,
) -> bool {
    &&& 0 <= i < rows.len()
    &&& decode_row(columns, rows[i]) is Err
    &&& forall|j: int| 0 <= j < i ==> (#[trigger] decode_row(columns, rows[j])) is Ok
}

/// What a sweep that ran answers under a row policy.
///
/// Skipping, the call succeeds whatever the rows hold: it answers with the
/// rows that decode, and a failure of the storage engine only ends the sweep.
/// Failing fast, the call fails with the fault of the first row that does not
/// decode; if every row decodes, it fails with the storage engine's failure
/// if there is one, and answers with all the rows if there is none.
pub open spec fn sweep_answer(
    policy: Policy,
    entity: Entity,
    rows: Seq<Seq<CellView>>,
    failure: Option<Seq<char>>,
) -> Result<Seq<Seq<Datum>>, AccessErrorView> {
    let columns = entity.columns();
    if policy == Policy::FailFast && exists|i: int| first_given_up(columns, rows, i) {
        let i = choose|i: int| first_given_up(columns, rows, i);
        Err(
            AccessErrorView::RowDecodeFailure {
                entity,
                row: i,
                fault: decode_row(columns, rows[i])->Err_0,
            },
        )
    } else if policy == Policy::FailFast && failure is Some {
        Err(AccessErrorView::QueryExecutionFailure { entity, detail: failure->0 })
    } else {
        Ok(kept(columns, rows))
    }
}

/// What an accessor answers to what the gateway brought back.
///
/// A database that cannot be opened and a statement that is refused fail the
/// call of every accessor. A sweep that ran is answered under the policy of
/// the entity.
pub open spec fn answer(entity: Entity, fetch: FetchView) -> Result<
    Seq<Seq<Datum>>,
    AccessErrorView,
> {
    match fetch {
        FetchView::Unavailable { path, detail } => Err(
            AccessErrorView::ConnectionFailure { path, detail },
        ),
        FetchView::Unprepared { detail } => Err(
            AccessErrorView::StatementPrepareFailure { detail },
        ),
        FetchView::Swept { rows, failure } => sweep_answer(entity.policy(), entity, rows, failure),
    }
}

/// The fields of each record of a list.
pub open spec fn models<R: Record>(records: Seq<R>) -> Seq<Seq<Datum>> {
    Seq::new(records.len(), |i: int| records[i].fields())
}

/// The mathematical value of what an accessor returns.
pub open spec fn listing<R: Record>(result: Result<Vec<R>, AccessError>) -> Result<
    Seq<Seq<Datum>>,
    AccessErrorView,
> {
    match result {
        Ok(records) => Ok(models(records@)),
        Err(error) => Err(error@),
    }
}

/// The first row that does not decode is the only one of its kind.
pub proof fn lemma_first_given_up_unique(
    columns: Seq<ColumnView>,
    rows: Seq<Seq<CellView>>,
    i: int,
    k: int,
)
    requires
        first_given_up(columns, rows, i),
        first_given_up(columns, rows, k),
    ensures
        i == k,
{
    if i < k {
        assert(decode_row(columns, rows[i]) is Ok);
    } else if k < i {
        assert(decode_row(columns, rows[k]) is Ok);
    }
}

/// Decodes the rows of a sweep under a row policy.
pub fn collect<R: Record>(policy: Policy, rows: Vec<Vec<Cell>>, failure: Option<String>) -> (r:
    Result<Vec<R>, AccessError>)
    ensures
        listing(r) == sweep_answer(policy, R::entity(), rows.deep_view(), detail_view(failure)),
{
    let entity = R::entity_tag();
    let ghost columns = entity.columns();
    let ghost all = rows.deep_view();
    let mut records: Vec<R> = Vec::new();
    let mut i: usize = 0;
    while i < rows.len()
        invariant
            i <= rows.len(),
            all == rows.deep_view(),
            columns == R::entity().columns(),
            entity == R::entity(),
            models(records@) == kept(columns, all.take(i as int)),
            policy == Policy::FailFast ==> forall|j: int|
                0 <= j < i ==> (#[trigger] decode_row(columns, all[j])) is Ok,
        decreases rows.len() - i,
    {
        let ghost before = records@;
        proof {
            all.lemma_filter_map_take_succ(decoded(columns), i as int);
        }
        match R::from_row(&rows[i]) {
            Ok(record) => {
                proof {
                    lemma_decode_row_fields(columns, all[i as int], record.fields());
                }
                records.push(record);
                assert(models(records@) =~= models(before).push(record.fields()));
            },
            Err(fault) => {
                proof {
                    lemma_decode_row_fault(columns, all[i as int], fault);
                }
                if policy == Policy::FailFast {
                    proof {
                        assert(first_given_up(columns, all, i as int));
                        let k = choose|k: int| first_given_up(columns, all, k);
                        lemma_first_given_up_unique(columns, all, i as int, k);
                    }
                    return Err(AccessError::RowDecodeFailure { entity, row: i, fault });
                }
            },
        }
        i += 1;
    }
    proof {
        assert(all.take(i as int) =~= all);
        if policy == Policy::FailFast {
            assert forall|k: int| !first_given_up(columns, all, k) by {
                if 0 <= k < all.len() {
                    assert(decode_row(columns, all[k]) is Ok);
                }
            }
        }
    }
    match failure {
        Some(detail) => {
            if policy == Policy::FailFast {
                Err(AccessError::QueryExecutionFailure { entity, detail })
            } else {
                Ok(records)
            }
        },
        None => Ok(records),
    }
}

/// Lists the records of an entity out of what the gateway brought back.
pub fn list<R: Record>(fetch: Fetch) -> (r: Result<Vec<R>, AccessError>)
    ensures
        listing(r) == answer(R::entity(), fetch@),
{
    match fetch {
        Fetch::Unavailable { path, detail } => Err(AccessError::ConnectionFailure { path, detail }),
        Fetch::Unprepared { detail } => Err(AccessError::StatementPrepareFailure { detail }),
        Fetch::Swept { rows, failure } => collect(R::entity_tag().policy(), rows, failure),
    }
}

/// All the users that decode, in the order of storage. A row that does not
/// decode is left out.
pub fn get_users(fetch: Fetch) -> (r: Result<Vec<User>, AccessError>)
    ensures
        listing(r) == answer(Entity::User, fetch@),
{
    list(fetch)
}

/// All the products that decode, in the order of storage. A row that does not
/// decode is left out.
pub fn get_products(fetch: Fetch) -> (r: Result<Vec<Product>, AccessError>)
    ensures
        listing(r) == answer(Entity::Product, fetch@),
{
    list(fetch)
}

/// All the orders, in the order of storage. One row that does not decode
/// fails the call, and so does a failure of the storage engine.
pub fn get_orders(fetch: Fetch) -> (r: Result<Vec<Order>, AccessError>)
    ensures
        listing(r) == answer(Entity::Order, fetch@),
{
    list(fetch)
}

/// All the samples that decode, in the order of storage. A row that does not
/// decode is left out.
pub fn get_samples(fetch: Fetch) -> (r: Result<Vec<Sample>, AccessError>)
    ensures
        listing(r) == answer(Entity::Sample, fetch@),
{
    list(fetch)
}

/// All the design files that decode, in the order of storage. A row that does
/// not decode is left out.
pub fn get_design_files(fetch: Fetch) -> (r: Result<Vec<DesignFile>, AccessError>)
    ensures
        listing(r) == answer(Entity::DesignFile, fetch@),
{
    list(fetch)
}

/// All the costing sheets that decode, in the order of storage. A row that
/// does not decode is left out.
pub fn get_costing_sheets(fetch: Fetch) -> (r: Result<Vec<CostingSheet>, AccessError>)
    ensures
        listing(r) == answer(Entity::CostingSheet, fetch@),
{
    list(fetch)
}

/// All the production plans that decode, in the order of storage. A row that
/// does not decode is left out.
pub fn get_production_plans(fetch: Fetch) -> (r: Result<Vec<ProductionPlan>, AccessError>)
    ensures
        listing(r) == answer(Entity::ProductionPlan, fetch@),
{
    list(fetch)
}

/// All the resources that decode, in the order of storage. A row that does not
/// decode is left out.
pub fn get_resources(fetch: Fetch) -> (r: Result<Vec<Resource>, AccessError>)
    ensures
        listing(r) == answer(Entity::Resource, fetch@),
{
    list(fetch)
}

/// All the inventory items that decode, in the order of storage. A row that
/// does not decode is left out.
pub fn get_inventory_items(fetch: Fetch) -> (r: Result<Vec<InventoryItem>, AccessError>)
    ensures
        listing(r) == answer(Entity::InventoryItem, fetch@),
{
    list(fetch)
}

/// All the entries of the inventory history that decode, in the order of
/// storage. A row that does not decode is left out.
pub fn get_inventory_history(fetch: Fetch) -> (r: Result<Vec<InventoryHistory>, AccessError>)
    ensures
        listing(r) == answer(Entity::InventoryHistory, fetch@),
{
    list(fetch)
}

/// All the inventory reorders that decode, in the order of storage. A row that
/// does not decode is left out.
pub fn get_inventory_reorders(fetch: Fetch) -> (r: Result<Vec<InventoryReorder>, AccessError>)
    ensures
        listing(r) == answer(Entity::InventoryReorder, fetch@),
{
    list(fetch)
}

} // verus!
