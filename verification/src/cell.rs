//! Raw column values, as the storage engine hands them out.

use vstd::prelude::*;

verus! {

/// The five fundamental storage classes of a stored value.
#[derive(Clone, Copy, Debug, PartialEq, Eq, Structural)]
pub enum StorageClass {
    Null,
    Integer,
    Real,
    Text,
    Blob,
}

/// One column of one row, not yet interpreted.
///
/// A real number is held by the bit pattern of its 64-bit IEEE 754 form, a
/// text by its bytes: whether they are well-formed UTF-8 is found out when
/// the cell is read as text.
#[derive(Clone, Debug, PartialEq, Eq)]
pub enum Cell {
    Null,
    Integer(i64),
    Real(u64),
    Text(Vec<u8>),
    Blob(Vec<u8>),
}

/// The mathematical value of a [`Cell`].
pub enum CellView {
    Null,
    Integer(i64),
    Real(u64),
    Text(Seq<u8>),
    Blob(Seq<u8>),
}

impl CellView {
    /// The storage class of the value.
    pub open spec fn class(self) -> StorageClass {
        match self {
            CellView::Null => StorageClass::Null,
            CellView::Integer(_) => StorageClass::Integer,
            CellView::Real(_) => StorageClass::Real,
            CellView::Text(_) => StorageClass::Text,
            CellView::Blob(_) => StorageClass::Blob,
        }
    }
}

impl View for Cell {
    type V = CellView;

    open spec fn view(&self) -> CellView {
        match self {
            Cell::Null => CellView::Null,
            Cell::Integer(i) => CellView::Integer(*i),
            Cell::Real(bits) => CellView::Real(*bits),
            Cell::Text(bytes) => CellView::Text(bytes@),
            Cell::Blob(bytes) => CellView::Blob(bytes@),
        }
    }
}

impl DeepView for Cell {
    type V = CellView;

    open spec fn deep_view(&self) -> CellView {
        self@
    }
}

impl Cell {
    /// The storage class of the cell.
    pub fn class(&self) -> (c: StorageClass)
        ensures
            c == self@.class(),
    {
        match self {
            Cell::Null => StorageClass::Null,
            Cell::Integer(_) => StorageClass::Integer,
            Cell::Real(_) => StorageClass::Real,
            Cell::Text(_) => StorageClass::Text,
            Cell::Blob(_) => StorageClass::Blob,
        }
    }
}

/// The cell at position `i` of a row, if the row is that long.
pub open spec fn cell_at(row: Seq<CellView>, i: int) -> Option<CellView> {
    if 0 <= i < row.len() {
        Some(row[i])
    } else {
        None
    }
}

/// The cell at position `i` of a row, if the row is that long.
pub fn cell_in(row: &Vec<Cell>, i: usize) -> (c: Option<&Cell>)
    ensures
        c.deep_view() == cell_at(row.deep_view(), i as int),
{
    if i < row.len() {
        Some(&row[i])
    } else {
        None
    }
}

} // verus!
