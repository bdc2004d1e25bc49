//! From cells to fields: how a cell is read as the type its column is
//! declared with, and when a row is given up.

use crate::cell::cell_at;
use crate::cell::cell_in;
use crate::cell::Cell;
use crate::cell::CellView;
use crate::cell::StorageClass;
use crate::schema::ColumnView;
use crate::schema::Kind;
use crate::text::text_of_bytes;
use vstd::prelude::*;
use vstd::utf8::decode_utf8;
use vstd::utf8::valid_utf8;

verus! {

/// A floating-point amount, held without floating-point arithmetic.
///
/// A column declared as real may hold a real number or an integer. The first
/// is kept by the bit pattern of its 64-bit IEEE 754 form, the second as the
/// integer it is: widening it is left to whoever needs a float.
#[derive(Clone, Copy, Debug, PartialEq, Eq, Structural)]
pub enum Amount {
    /// The bit pattern of a stored real number.
    Bits(u64),
    /// A stored integer, standing for the real number nearest to it.
    Whole(i64),
}

/// The mathematical value of one field of a record.
pub enum Datum {
    /// No value: the optional column was null or could not be read.
    Absent,
    Text(Seq<char>),
    Integer(i64),
    Int32(i32),
    Real(Amount),
    Flag(bool),
}

/// Why a cell cannot be read as the type of its column.
#[derive(Clone, Copy, Debug, PartialEq, Eq, Structural)]
pub enum FaultKind {
    /// The row has no cell at the column's position.
    MissingColumn,
    /// The cell is of a storage class that the column's type is not read
    /// from; a null in a required column is of this kind.
    WrongType(StorageClass),
    /// The cell holds an integer outside the range of the column's type.
    OutOfRange(i64),
    /// The cell holds text that is not well-formed UTF-8.
    MalformedText,
}

/// The fault that a row is given up for.
#[derive(Clone, Copy, Debug, PartialEq, Eq, Structural)]
pub struct Fault {
    /// The position of the column in the select list, from zero.
    pub column: usize,
    pub kind: FaultKind,
}

/// A cell read as a given type.
///
/// Text is read from text cells alone and must be well-formed UTF-8. The
/// integer types and the truth value are read from integer cells alone: a
/// 32-bit integer must be in range, a truth value is true for every integer
/// but zero. A real is read from a real or an integer cell. A null cell is
/// read as no type.
pub open spec fn convert(kind: Kind, cell: CellView) -> Result<Datum, FaultKind> {
    match (kind, cell) {
        (Kind::Text, CellView::Text(bytes)) => if valid_utf8(bytes) {
            Ok(Datum::Text(decode_utf8(bytes)))
        } else {
            Err(FaultKind::MalformedText)
        },
        (Kind::Integer, CellView::Integer(i)) => Ok(Datum::Integer(i)),
        (Kind::Int32, CellView::Integer(i)) => if i32::MIN <= i <= i32::MAX {
            Ok(Datum::Int32(i as i32))
        } else {
            Err(FaultKind::OutOfRange(i))
        },
        (Kind::Real, CellView::Real(bits)) => Ok(Datum::Real(Amount::Bits(bits))),
        (Kind::Real, CellView::Integer(i)) => Ok(Datum::Real(Amount::Whole(i))),
        (Kind::Flag, CellView::Integer(i)) => Ok(Datum::Flag(i != 0)),
        _ => Err(FaultKind::WrongType(cell.class())),
    }
}

/// The field that a column of the given type makes of the cell at its
/// position, if the row has one.
///
/// A required column passes on what the conversion says. An optional column
/// never fails: whatever cannot be read, a null among it, is an absent field.
pub open spec fn field(kind: Kind, required: bool, cell: Option<CellView>) -> Result<
    Datum,
    FaultKind,
> {
    let found = match cell {
        Some(c) => convert(kind, c),
        None => Err(FaultKind::MissingColumn),
    };
    if required || found is Ok {
        found
    } else {
        Ok(Datum::Absent)
    }
}

impl ColumnView {
    /// The field that this column makes of a cell.
    pub open spec fn read(self, cell: Option<CellView>) -> Result<Datum, FaultKind> {
        field(self.kind, self.required, cell)
    }
}

/// Whether the decoding of `row` stops at column `i`: it is the first column,
/// in the order of the list, whose field cannot be read.
pub open spec fn stops_at(columns: Seq<ColumnView>, row: Seq<CellView>, i: int) -> bool {
    &&& 0 <= i < columns.len()
    &&& columns[i].read(cell_at(row, i)) is Err
    &&& forall|j: int| 0 <= j < i ==> (#[trigger] columns[j].read(cell_at(row, j))) is Ok
}

/// Whether `fields` are the fields of `row`: one for each column, each read
/// from the cell at the column's position.
pub open spec fn decodes_to(columns: Seq<ColumnView>, row: Seq<CellView>, fields: Seq<Datum>) -> bool {
    &&& fields.len() == columns.len()
    &&& forall|i: int|
        0 <= i < columns.len() ==> #[trigger] columns[i].read(cell_at(row, i)) == Ok::<
            Datum,
            FaultKind,
        >(fields[i])
}

/// What a row decodes to under a list of columns: its fields in the order of
/// the columns, or the fault of the first column that cannot be read.
pub open spec fn decode_row(columns: Seq<ColumnView>, row: Seq<CellView>) -> Result<
    Seq<Datum>,
    Fault,
> {
    if exists|i: int| stops_at(columns, row, i) {
        let i = choose|i: int| stops_at(columns, row, i);
        Err(Fault { column: i as usize, kind: columns[i].read(cell_at(row, i))->Err_0 })
    } else {
        Ok(Seq::new(columns.len(), |i: int| columns[i].read(cell_at(row, i))->Ok_0))
    }
}

/// A row decodes to the fields that are read from it column by column.
pub proof fn lemma_decode_row_fields(
    columns: Seq<ColumnView>,
    row: Seq<CellView>,
    fields: Seq<Datum>,
)
    requires
        decodes_to(columns, row, fields),
    ensures
        decode_row(columns, row) == Ok::<Seq<Datum>, Fault>(fields),
{
    assert forall|i: int| !stops_at(columns, row, i) by {
        if 0 <= i < columns.len() {
            assert(columns[i].read(cell_at(row, i)) is Ok);
        }
    }
    assert(fields =~= Seq::new(columns.len(), |i: int| columns[i].read(cell_at(row, i))->Ok_0));
}

/// A row is given up for the fault of the column that its decoding stops at.
pub proof fn lemma_decode_row_fault(columns: Seq<ColumnView>, row: Seq<CellView>, fault: Fault)
    requires
        stops_at(columns, row, fault.column as int),
        columns[fault.column as int].read(cell_at(row, fault.column as int)) == Err::<
            Datum,
            FaultKind,
        >(fault.kind),
    ensures
        decode_row(columns, row) == Err::<Seq<Datum>, Fault>(fault),
{
    let k = fault.column as int;
    let i = choose|i: int| stops_at(columns, row, i);
    if i < k {
        assert(columns[i].read(cell_at(row, i)) is Ok);
    } else if k < i {
        assert(columns[k].read(cell_at(row, k)) is Ok);
    }
}

/// The text of an optional field.
pub open spec fn text_or_absent(text: Option<String>) -> Datum {
    match text {
        Some(s) => Datum::Text(s@),
        None => Datum::Absent,
    }
}

/// The integer of an optional field.
pub open spec fn integer_or_absent(number: Option<i64>) -> Datum {
    match number {
        Some(i) => Datum::Integer(i),
        None => Datum::Absent,
    }
}

/// The amount of an optional field.
pub open spec fn real_or_absent(amount: Option<Amount>) -> Datum {
    match amount {
        Some(a) => Datum::Real(a),
        None => Datum::Absent,
    }
}

/// The truth value of an optional field.
pub open spec fn flag_or_absent(flag: Option<bool>) -> Datum {
    match flag {
        Some(b) => Datum::Flag(b),
        None => Datum::Absent,
    }
}

/// Reads a cell as text.
pub fn convert_text(cell: &Cell) -> (r: Result<String, FaultKind>)
    ensures
        match convert(Kind::Text, cell@) {
            Ok(d) => r matches Ok(s) && d == Datum::Text(s@),
            Err(kind) => r == Err::<String, FaultKind>(kind),
        },
{
    match cell {
        Cell::Text(bytes) => match text_of_bytes(bytes) {
            Some(s) => Ok(s),
            None => Err(FaultKind::MalformedText),
        },
        _ => Err(FaultKind::WrongType(cell.class())),
    }
}

/// Reads a cell as a 64-bit integer.
pub fn convert_integer(cell: &Cell) -> (r: Result<i64, FaultKind>)
    ensures
        match convert(Kind::Integer, cell@) {
            Ok(d) => r matches Ok(i) && d == Datum::Integer(i),
            Err(kind) => r == Err::<i64, FaultKind>(kind),
        },
{
    match cell {
        Cell::Integer(i) => Ok(*i),
        _ => Err(FaultKind::WrongType(cell.class())),
    }
}

/// Reads a cell as a 32-bit integer.
pub fn convert_int32(cell: &Cell) -> (r: Result<i32, FaultKind>)
    ensures
        match convert(Kind::Int32, cell@) {
            Ok(d) => r matches Ok(i) && d == Datum::Int32(i),
            Err(kind) => r == Err::<i32, FaultKind>(kind),
        },
{
    match cell {
        Cell::Integer(i) => if -0x8000_0000 <= *i && *i <= 0x7fff_ffff {
            Ok(*i as i32)
        } else {
            Err(FaultKind::OutOfRange(*i))
        },
        _ => Err(FaultKind::WrongType(cell.class())),
    }
}

/// Reads a cell as a floating-point amount.
pub fn convert_real(cell: &Cell) -> (r: Result<Amount, FaultKind>)
    ensures
        match convert(Kind::Real, cell@) {
            Ok(d) => r matches Ok(a) && d == Datum::Real(a),
            Err(kind) => r == Err::<Amount, FaultKind>(kind),
        },
{
    match cell {
        Cell::Real(bits) => Ok(Amount::Bits(*bits)),
        Cell::Integer(i) => Ok(Amount::Whole(*i)),
        _ => Err(FaultKind::WrongType(cell.class())),
    }
}

/// Reads a cell as a truth value.
pub fn convert_flag(cell: &Cell) -> (r: Result<bool, FaultKind>)
    ensures
        match convert(Kind::Flag, cell@) {
            Ok(d) => r matches Ok(b) && d == Datum::Flag(b),
            Err(kind) => r == Err::<bool, FaultKind>(kind),
        },
{
    match cell {
        Cell::Integer(i) => Ok(*i != 0),
        _ => Err(FaultKind::WrongType(cell.class())),
    }
}

/// Whether `fault` is what `row` is given up for: its decoding stops at the
/// fault's column, for the fault's reason.
pub open spec fn given_up_for(columns: Seq<ColumnView>, row: Seq<CellView>, fault: Fault) -> bool {
    &&& stops_at(columns, row, fault.column as int)
    &&& columns[fault.column as int].read(cell_at(row, fault.column as int)) == Err::<
        Datum,
        FaultKind,
    >(fault.kind)
}

/// Reads the cell at position `i` as the text of a required column.
pub fn required_text(row: &Vec<Cell>, i: usize) -> (r: Result<String, Fault>)
    ensures
        match field(Kind::Text, true, cell_at(row.deep_view(), i as int)) {
            Ok(d) => r matches Ok(x) && d == Datum::Text(x@),
            Err(kind) => r == Err::<String, Fault>(Fault { column: i, kind }),
        },
{
    match cell_in(row, i) {
        Some(cell) => match convert_text(cell) {
            Ok(x) => Ok(x),
            Err(kind) => Err(Fault { column: i, kind }),
        },
        None => Err(Fault { column: i, kind: FaultKind::MissingColumn }),
    }
}

/// Reads the cell at position `i` as the integer of a required column.
pub fn required_integer(row: &Vec<Cell>, i: usize) -> (r: Result<i64, Fault>)
    ensures
        match field(Kind::Integer, true, cell_at(row.deep_view(), i as int)) {
            Ok(d) => r matches Ok(x) && d == Datum::Integer(x),
            Err(kind) => r == Err::<i64, Fault>(Fault { column: i, kind }),
        },
{
    match cell_in(row, i) {
        Some(cell) => match convert_integer(cell) {
            Ok(x) => Ok(x),
            Err(kind) => Err(Fault { column: i, kind }),
        },
        None => Err(Fault { column: i, kind: FaultKind::MissingColumn }),
    }
}

/// Reads the cell at position `i` as the 32-bit integer of a
/// required column.
pub fn required_int32(row: &Vec<Cell>, i: usize) -> (r: Result<i32, Fault>)
    ensures
        match field(Kind::Int32, true, cell_at(row.deep_view(), i as int)) {
            Ok(d) => r matches Ok(x) && d == Datum::Int32(x),
            Err(kind) => r == Err::<i32, Fault>(Fault { column: i, kind }),
        },
{
    match cell_in(row, i) {
        Some(cell) => match convert_int32(cell) {
            Ok(x) => Ok(x),
            Err(kind) => Err(Fault { column: i, kind }),
        },
        None => Err(Fault { column: i, kind: FaultKind::MissingColumn }),
    }
}

/// Reads the cell at position `i` as the amount of a required column.
pub fn required_real(row: &Vec<Cell>, i: usize) -> (r: Result<Amount, Fault>)
    ensures
        match field(Kind::Real, true, cell_at(row.deep_view(), i as int)) {
            Ok(d) => r matches Ok(x) && d == Datum::Real(x),
            Err(kind) => r == Err::<Amount, Fault>(Fault { column: i, kind }),
        },
{
    match cell_in(row, i) {
        Some(cell) => match convert_real(cell) {
            Ok(x) => Ok(x),
            Err(kind) => Err(Fault { column: i, kind }),
        },
        None => Err(Fault { column: i, kind: FaultKind::MissingColumn }),
    }
}

/// Reads the cell at position `i` as the text of an optional column: absent
/// where the cell is null, is no text, or is missing.
pub fn optional_text(row: &Vec<Cell>, i: usize) -> (r: Option<String>)
    ensures
        field(Kind::Text, false, cell_at(row.deep_view(), i as int)) == Ok::<Datum, FaultKind>(
            text_or_absent(r),
        ),
{
    match cell_in(row, i) {
        Some(cell) => match convert_text(cell) {
            Ok(x) => Some(x),
            Err(_) => None,
        },
        None => None,
    }
}

/// Reads the cell at position `i` as the integer of an optional column.
pub fn optional_integer(row: &Vec<Cell>, i: usize) -> (r: Option<i64>)
    ensures
        field(Kind::Integer, false, cell_at(row.deep_view(), i as int)) == Ok::<Datum, FaultKind>(
            integer_or_absent(r),
        ),
{
    match cell_in(row, i) {
        Some(cell) => match convert_integer(cell) {
            Ok(x) => Some(x),
            Err(_) => None,
        },
        None => None,
    }
}

/// Reads the cell at position `i` as the amount of an optional column.
pub fn optional_real(row: &Vec<Cell>, i: usize) -> (r: Option<Amount>)
    ensures
        field(Kind::Real, false, cell_at(row.deep_view(), i as int)) == Ok::<Datum, FaultKind>(
            real_or_absent(r),
        ),
{
    match cell_in(row, i) {
        Some(cell) => match convert_real(cell) {
            Ok(x) => Some(x),
            Err(_) => None,
        },
        None => None,
    }
}

/// Reads the cell at position `i` as the truth value of an optional
/// column.
pub fn optional_flag(row: &Vec<Cell>, i: usize) -> (r: Option<bool>)
    ensures
        field(Kind::Flag, false, cell_at(row.deep_view(), i as int)) == Ok::<Datum, FaultKind>(
            flag_or_absent(r),
        ),
{
    match cell_in(row, i) {
        Some(cell) => match convert_flag(cell) {
            Ok(x) => Some(x),
            Err(_) => None,
        },
        None => None,
    }
}

} // verus!
