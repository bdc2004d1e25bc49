//! What holds of every sweep, whatever the table holds.

use crate::access::answer;
use crate::access::decoded;
use crate::access::first_given_up;
use crate::access::kept;
use crate::access::sweep_answer;
use crate::access::AccessErrorView;
use crate::access::FetchView;
use crate::cell::cell_at;
use crate::cell::CellView;
use crate::decode::decode_row;
use crate::decode::decodes_to;
use crate::decode::lemma_decode_row_fields;
use crate::decode::stops_at;
use crate::decode::Amount;
use crate::decode::Datum;
use crate::decode::Fault;
use crate::decode::FaultKind;
use crate::schema::ColumnView;
use crate::schema::Entity;
use crate::schema::Kind;
use crate::schema::Policy;
use vstd::prelude::*;
use vstd::utf8::encode_utf8;
use vstd::utf8::encode_utf8_decode_utf8;
use vstd::utf8::encode_utf8_valid_utf8;

verus! {

/// A sweep over an empty table answers with no record and never fails,
/// whatever the entity and under either policy.
pub proof fn lemma_empty_table(policy: Policy, entity: Entity)
    ensures
        sweep_answer(policy, entity, Seq::empty(), None) == Ok::<
            Seq<Seq<Datum>>,
            AccessErrorView,
        >(Seq::empty()),
        answer(entity, FetchView::Swept { rows: Seq::empty(), failure: None }) == Ok::<
            Seq<Seq<Datum>>,
            AccessErrorView,
        >(Seq::empty()),
{
    let rows = Seq::<Seq<CellView>>::empty();
    assert forall|i: int| !first_given_up(entity.columns(), rows, i) by {}
    assert(kept(entity.columns(), rows) =~= Seq::empty());
}

/// A database that cannot be opened fails the call of every accessor with a
/// connection failure that bears the gateway's path and message, and a
/// refused statement with a failure to prepare.
pub proof fn lemma_gateway_failures(entity: Entity, path: Seq<char>, detail: Seq<char>)
    ensures
        answer(entity, FetchView::Unavailable { path, detail }) == Err::<
            Seq<Seq<Datum>>,
            AccessErrorView,
        >(AccessErrorView::ConnectionFailure { path, detail }),
        answer(entity, FetchView::Unprepared { detail }) == Err::<
            Seq<Seq<Datum>>,
            AccessErrorView,
        >(AccessErrorView::StatementPrepareFailure { detail }),
{
}

/// The rows that are kept of two runs of rows, one after the other, are
/// those kept of the first and then those kept of the second: no row has a
/// say in what becomes of another.
pub proof fn lemma_kept_concat(
    columns: Seq<ColumnView>,
    first: Seq<Seq<CellView>>,
    second: Seq<Seq<CellView>>,
)
    ensures
        kept(columns, first + second) == kept(columns, first) + kept(columns, second),
    decreases second.len(),
{
    if second.len() == 0 {
        assert(first + second =~= first);
        assert(kept(columns, second) =~= Seq::empty());
        assert(kept(columns, first) + kept(columns, second) =~= kept(columns, first));
    } else {
        let all = first + second;
        assert(all.drop_last() =~= first + second.drop_last());
        assert(all.last() == second.last());
        lemma_kept_concat(columns, first, second.drop_last());
        assert(kept(columns, all) =~= kept(columns, first) + kept(columns, second));
    }
}

/// For every entity but the orders, a row with an unreadable required column
/// is dropped and leaves no trace: the accessor answers what it would answer
/// if the row were not in the table, and it does not fail.
pub proof fn lemma_skipped_row_leaves_no_trace(
    entity: Entity,
    before: Seq<Seq<CellView>>,
    bad: Seq<CellView>,
    after: Seq<Seq<CellView>>,
    failure: Option<Seq<char>>,
    column: int,
)
    requires
        entity != Entity::Order,
        0 <= column < entity.columns().len(),
        entity.columns()[column].required,
        entity.columns()[column].read(cell_at(bad, column)) is Err,
    ensures
        answer(entity, FetchView::Swept { rows: before + seq![bad] + after, failure }) == answer(
            entity,
            FetchView::Swept { rows: before + after, failure },
        ),
        answer(entity, FetchView::Swept { rows: before + seq![bad] + after, failure }) is Ok,
{
    let columns = entity.columns();
    lemma_given_up_iff_required_unreadable(columns, bad);
    let one = seq![bad];
    assert(one.drop_last() =~= Seq::empty());
    assert(kept(columns, one.drop_last()) =~= Seq::empty());
    assert(kept(columns, one) =~= Seq::empty());
    lemma_kept_concat(columns, before, one);
    lemma_kept_concat(columns, before + one, after);
    lemma_kept_concat(columns, before, after);
    assert(kept(columns, before) + kept(columns, one) =~= kept(columns, before));
}

/// If some row up to `i` does not decode, one of them is the first.
pub proof fn lemma_first_given_up_exists(
    columns: Seq<ColumnView>,
    rows: Seq<Seq<CellView>>,
    i: int,
) -> (k: int)
    requires
        0 <= i < rows.len(),
        decode_row(columns, rows[i]) is Err,
    ensures
        0 <= k <= i,
        first_given_up(columns, rows, k),
    decreases i,
{
    if exists|j: int| 0 <= j < i && decode_row(columns, rows[j]) is Err {
        let j = choose|j: int| 0 <= j < i && decode_row(columns, rows[j]) is Err;
        lemma_first_given_up_exists(columns, rows, j)
    } else {
        i
    }
}

/// Under the fail-fast policy one row that does not decode, anywhere in the
/// table, fails the whole call: with the fault of the first such row.
pub proof fn lemma_fail_fast_fails(
    entity: Entity,
    rows: Seq<Seq<CellView>>,
    failure: Option<Seq<char>>,
    i: int,
)
    requires
        0 <= i < rows.len(),
        decode_row(entity.columns(), rows[i]) is Err,
    ensures
        sweep_answer(Policy::FailFast, entity, rows, failure) matches Err(
            AccessErrorView::RowDecodeFailure { entity: e, row, fault },
        ) && e == entity && 0 <= row <= i && first_given_up(entity.columns(), rows, row)
            && decode_row(entity.columns(), rows[row]) == Err::<Seq<Datum>, Fault>(fault),
{
    let columns = entity.columns();
    let k = lemma_first_given_up_exists(columns, rows, i);
    let chosen = choose|k: int| first_given_up(columns, rows, k);
    if i < chosen {
        assert(decode_row(columns, rows[i]) is Ok);
    }
}

/// One unreadable column in one order, anywhere in the table, fails the
/// whole call of the orders' accessor: every column of an order is required.
pub proof fn lemma_one_bad_order_fails_the_call(
    rows: Seq<Seq<CellView>>,
    failure: Option<Seq<char>>,
    row: int,
    column: int,
)
    requires
        0 <= row < rows.len(),
        0 <= column < Entity::Order.columns().len(),
        Entity::Order.columns()[column].read(cell_at(rows[row], column)) is Err,
    ensures
        answer(Entity::Order, FetchView::Swept { rows, failure }) is Err,
{
    lemma_given_up_iff_required_unreadable(Entity::Order.columns(), rows[row]);
    lemma_fail_fast_fails(Entity::Order, rows, failure, row);
}

/// Under the fail-fast policy the call succeeds exactly when every row
/// decodes and the storage engine did not fail, and then it answers with a
/// record for every row.
pub proof fn lemma_fail_fast_all_or_nothing(
    entity: Entity,
    rows: Seq<Seq<CellView>>,
    failure: Option<Seq<char>>,
)
    ensures
        sweep_answer(Policy::FailFast, entity, rows, failure) is Ok <==> failure is None && forall|
            i: int,
        |
            0 <= i < rows.len() ==> (#[trigger] decode_row(entity.columns(), rows[i])) is Ok,
        sweep_answer(Policy::FailFast, entity, rows, failure) matches Ok(records) ==> records
            == Seq::new(rows.len(), |i: int| decode_row(entity.columns(), rows[i])->Ok_0),
{
    let columns = entity.columns();
    if exists|i: int| 0 <= i < rows.len() && decode_row(columns, rows[i]) is Err {
        let i = choose|i: int| 0 <= i < rows.len() && decode_row(columns, rows[i]) is Err;
        lemma_fail_fast_fails(entity, rows, failure, i);
    } else {
        assert forall|k: int| !first_given_up(columns, rows, k) by {}
        let records = Seq::new(rows.len(), |i: int| decode_row(columns, rows[i])->Ok_0);
        lemma_kept_of_decoding_rows(columns, rows, records);
    }
}

/// If the field of some column up to `i` cannot be read, the decoding of the
/// row stops at one of them.
pub proof fn lemma_stops_somewhere(columns: Seq<ColumnView>, row: Seq<CellView>, i: int) -> (k:
    int)
    requires
        0 <= i < columns.len(),
        columns[i].read(cell_at(row, i)) is Err,
    ensures
        0 <= k <= i,
        stops_at(columns, row, k),
    decreases i,
{
    if exists|j: int| 0 <= j < i && columns[j].read(cell_at(row, j)) is Err {
        let j = choose|j: int| 0 <= j < i && columns[j].read(cell_at(row, j)) is Err;
        lemma_stops_somewhere(columns, row, j)
    } else {
        i
    }
}

/// The fields of a row follow the select list: a row that decodes has one
/// field for each column, and the field at each position is what the column
/// at that position reads from the cell at that position.
pub proof fn lemma_fields_follow_columns(columns: Seq<ColumnView>, row: Seq<CellView>)
    requires
        decode_row(columns, row) is Ok,
    ensures
        decodes_to(columns, row, decode_row(columns, row)->Ok_0),
{
    assert forall|i: int| 0 <= i < columns.len() implies columns[i].read(cell_at(row, i)) is Ok by {
        if columns[i].read(cell_at(row, i)) is Err {
            let k = lemma_stops_somewhere(columns, row, i);
        }
    }
}

/// A row is given up exactly when a required column has no readable value.
pub proof fn lemma_given_up_iff_required_unreadable(columns: Seq<ColumnView>, row: Seq<CellView>)
    ensures
        decode_row(columns, row) is Err <==> exists|i: int|
            0 <= i < columns.len() && columns[i].required && (#[trigger] columns[i].read(
                cell_at(row, i),
            )) is Err,
{
    if decode_row(columns, row) is Err {
        let k = choose|k: int| stops_at(columns, row, k);
        assert(columns[k].required && columns[k].read(cell_at(row, k)) is Err);
    }
    if exists|i: int|
        0 <= i < columns.len() && columns[i].required && (#[trigger] columns[i].read(
            cell_at(row, i),
        )) is Err {
        let i = choose|i: int|
            0 <= i < columns.len() && columns[i].required && (#[trigger] columns[i].read(
                cell_at(row, i),
            )) is Err;
        let k = lemma_stops_somewhere(columns, row, i);
    }
}

/// The cell that a field is stored as.
///
/// Text is stored by its UTF-8 bytes, an integer of either width as an
/// integer, a truth value as one or zero, a real number by its bits, a whole
/// amount as an integer, and an absent field as a null.
pub open spec fn stored(field: Datum) -> CellView {
    match field {
        Datum::Absent => CellView::Null,
        Datum::Text(text) => CellView::Text(encode_utf8(text)),
        Datum::Integer(i) => CellView::Integer(i),
        Datum::Int32(i) => CellView::Integer(i as i64),
        Datum::Real(Amount::Bits(bits)) => CellView::Real(bits),
        Datum::Real(Amount::Whole(i)) => CellView::Integer(i),
        Datum::Flag(flag) => CellView::Integer(
            if flag {
                1i64
            } else {
                0i64
            },
        ),
    }
}

/// Whether a field is one that the column can hold: of the column's type,
/// or absent if the column is optional.
pub open spec fn fits(column: ColumnView, field: Datum) -> bool {
    match (column.kind, field) {
        (_, Datum::Absent) => !column.required,
        (Kind::Text, Datum::Text(_)) => true,
        (Kind::Integer, Datum::Integer(_)) => true,
        (Kind::Int32, Datum::Int32(_)) => true,
        (Kind::Real, Datum::Real(_)) => true,
        (Kind::Flag, Datum::Flag(_)) => true,
        _ => false,
    }
}

/// Whether the fields are those of a record of these columns.
pub open spec fn fit(columns: Seq<ColumnView>, fields: Seq<Datum>) -> bool {
    &&& fields.len() == columns.len()
    &&& forall|i: int| 0 <= i < columns.len() ==> fits(#[trigger] columns[i], fields[i])
}

/// The row that a record is stored as.
pub open spec fn stored_row(fields: Seq<Datum>) -> Seq<CellView> {
    Seq::new(fields.len(), |i: int| stored(fields[i]))
}

/// A field that is stored and read again is the field that it was.
pub proof fn lemma_round_trip_field(column: ColumnView, field: Datum)
    requires
        fits(column, field),
    ensures
        column.read(Some(stored(field))) == Ok::<Datum, FaultKind>(field),
{
    if let Datum::Text(text) = field {
        encode_utf8_valid_utf8(text);
        encode_utf8_decode_utf8(text);
    }
}

/// A record that is stored and read again is the record that it was: every
/// field with the value it had, an optional field present if it was set and
/// absent if it was not.
pub proof fn lemma_round_trip_row(columns: Seq<ColumnView>, fields: Seq<Datum>)
    requires
        fit(columns, fields),
    ensures
        decode_row(columns, stored_row(fields)) == Ok::<Seq<Datum>, Fault>(fields),
{
    let row = stored_row(fields);
    assert forall|i: int| 0 <= i < columns.len() implies #[trigger] columns[i].read(
        cell_at(row, i),
    ) == Ok::<Datum, FaultKind>(fields[i]) by {
        lemma_round_trip_field(columns[i], fields[i]);
    }
    lemma_decode_row_fields(columns, row, fields);
}

/// A table that holds the stored rows of some records, swept without a
/// failure of the storage engine, answers with exactly those records in
/// their order, whatever the entity and under either policy.
pub proof fn lemma_round_trip_table(policy: Policy, entity: Entity, records: Seq<Seq<Datum>>)
    requires
        forall|k: int| 0 <= k < records.len() ==> fit(entity.columns(), #[trigger] records[k]),
    ensures
        sweep_answer(
            policy,
            entity,
            Seq::new(records.len(), |k: int| stored_row(records[k])),
            None,
        ) == Ok::<Seq<Seq<Datum>>, AccessErrorView>(records),
{
    let columns = entity.columns();
    let rows = Seq::new(records.len(), |k: int| stored_row(records[k]));
    assert forall|k: int| 0 <= k < rows.len() implies decode_row(columns, #[trigger] rows[k])
        == Ok::<Seq<Datum>, Fault>(records[k]) by {
        lemma_round_trip_row(columns, records[k]);
    }
    assert forall|k: int| !first_given_up(columns, rows, k) by {}
    lemma_kept_of_decoding_rows(columns, rows, records);
}

/// Round trip: records that are stored in the table of their entity and then
/// listed by its accessor come back as they were, in their order, whichever
/// the entity.
pub proof fn lemma_round_trip(entity: Entity, records: Seq<Seq<Datum>>)
    requires
        forall|k: int| 0 <= k < records.len() ==> fit(entity.columns(), #[trigger] records[k]),
    ensures
        answer(
            entity,
            FetchView::Swept {
                rows: Seq::new(records.len(), |k: int| stored_row(records[k])),
                failure: None,
            },
        ) == Ok::<Seq<Seq<Datum>>, AccessErrorView>(records),
{
    lemma_round_trip_table(entity.policy(), entity, records);
}

/// Of rows that all decode, all are kept.
pub proof fn lemma_kept_of_decoding_rows(
    columns: Seq<ColumnView>,
    rows: Seq<Seq<CellView>>,
    records: Seq<Seq<Datum>>,
)
    requires
        rows.len() == records.len(),
        forall|k: int|
            0 <= k < rows.len() ==> decode_row(columns, #[trigger] rows[k]) == Ok::<
                Seq<Datum>,
                Fault,
            >(records[k]),
    ensures
        kept(columns, rows) == records,
    decreases rows.len(),
{
    if rows.len() == 0 {
        assert(kept(columns, rows) =~= records);
    } else {
        lemma_kept_of_decoding_rows(columns, rows.drop_last(), records.drop_last());
        assert(decode_row(columns, rows[rows.len() - 1]) == Ok::<Seq<Datum>, Fault>(
            records[rows.len() - 1],
        ));
        assert(decoded(columns)(rows.last()) == Some(records.last()));
        assert(kept(columns, rows) =~= records);
    }
}

} // verus!
