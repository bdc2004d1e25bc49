//! The words that an error is told in.

use crate::access::AccessError;
use crate::access::AccessErrorView;
use crate::cell::StorageClass;
use crate::decode::Fault;
use crate::decode::FaultKind;
use crate::schema::Entity;
use vstd::prelude::*;

verus! {

/// The character of one decimal digit.
pub open spec fn digit(d: nat) -> char {
    if d == 0 {
        '0'
    } else if d == 1 {
        '1'
    } else if d == 2 {
        '2'
    } else if d == 3 {
        '3'
    } else if d == 4 {
        '4'
    } else if d == 5 {
        '5'
    } else if d == 6 {
        '6'
    } else if d == 7 {
        '7'
    } else if d == 8 {
        '8'
    } else {
        '9'
    }
}

/// A natural number in decimal digits, without leading zeros.
pub open spec fn decimal(n: nat) -> Seq<char>
    decreases n,
{
    if n < 10 {
        seq![digit(n)]
    } else {
        decimal(n / 10).push(digit(n % 10))
    }
}

/// An integer in decimal digits, with a minus sign if it is negative.
pub open spec fn signed_decimal(i: int) -> Seq<char> {
    if i < 0 {
        "-"@ + decimal((-i) as nat)
    } else {
        decimal(i as nat)
    }
}

impl StorageClass {
    /// The name of the storage class.
    pub open spec fn name(self) -> Seq<char> {
        match self {
            StorageClass::Null => "Null"@,
            StorageClass::Integer => "Integer"@,
            StorageClass::Real => "Real"@,
            StorageClass::Text => "Text"@,
            StorageClass::Blob => "Blob"@,
        }
    }

    /// The name of the storage class.
    pub fn name_text(self) -> (name: &'static str)
        ensures
            name@ == self.name(),
    {
        match self {
            StorageClass::Null => "Null",
            StorageClass::Integer => "Integer",
            StorageClass::Real => "Real",
            StorageClass::Text => "Text",
            StorageClass::Blob => "Blob",
        }
    }
}

/// The name of the column at a position of an entity's select list; no name
/// at a position that the list does not have.
pub open spec fn column_name(entity: Entity, column: int) -> Seq<char> {
    if 0 <= column < entity.columns().len() {
        entity.columns()[column].name
    } else {
        Seq::empty()
    }
}

/// What a fault of a row of an entity is told as.
pub open spec fn fault_text(entity: Entity, fault: Fault) -> Seq<char> {
    let at = decimal(fault.column as nat);
    match fault.kind {
        FaultKind::MissingColumn => "Invalid column index: "@ + at,
        FaultKind::WrongType(class) => "Invalid column type "@ + class.name() + " at index: "@
            + at + ", name: "@ + column_name(entity, fault.column as int),
        FaultKind::OutOfRange(value) => "Integer "@ + signed_decimal(value as int)
            + " out of range at index "@ + at,
        FaultKind::MalformedText => "Conversion error from type Text at index: "@ + at
            + ", invalid utf-8 sequence"@,
    }
}

impl AccessErrorView {
    /// What the error is told as: what failed, then a colon, then the
    /// gateway's own message or the fault of the row.
    pub open spec fn message(self) -> Seq<char> {
        match self {
            AccessErrorView::ConnectionFailure { path, detail } => "Failed to open DB at "@ + path
                + ": "@ + detail,
            AccessErrorView::StatementPrepareFailure { detail } => "Failed to prepare statement: "@
                + detail,
            AccessErrorView::QueryExecutionFailure { entity, detail } => "Failed to collect "@
                + entity.label() + ": "@ + detail,
            AccessErrorView::RowDecodeFailure { entity, row, fault } => "Failed to collect "@
                + entity.label() + ": "@ + fault_text(entity, fault),
        }
    }
}

/// One decimal digit as text.
fn digit_text(d: u64) -> (text: &'static str)
    requires
        d < 10,
    ensures
        text@ == seq![digit(d as nat)],
{
    proof {
        reveal_strlit("0");
        reveal_strlit("1");
        reveal_strlit("2");
        reveal_strlit("3");
        reveal_strlit("4");
        reveal_strlit("5");
        reveal_strlit("6");
        reveal_strlit("7");
        reveal_strlit("8");
        reveal_strlit("9");
    }
    let text = if d == 0 {
        "0"
    } else if d == 1 {
        "1"
    } else if d == 2 {
        "2"
    } else if d == 3 {
        "3"
    } else if d == 4 {
        "4"
    } else if d == 5 {
        "5"
    } else if d == 6 {
        "6"
    } else if d == 7 {
        "7"
    } else if d == 8 {
        "8"
    } else {
        "9"
    };
    assert(text@ =~= seq![digit(d as nat)]);
    text
}

/// Writes a natural number in decimal digits at the end of a text.
fn append_decimal(text: &mut String, n: u64)
    ensures
        final(text)@ == old(text)@ + decimal(n as nat),
    decreases n,
{
    if n >= 10 {
        append_decimal(text, n / 10);
    }
    text.append(digit_text(n % 10));
    assert(text@ =~= old(text)@ + decimal(n as nat));
}

/// Writes an integer in decimal digits, with its sign, at the end of a text.
fn append_signed_decimal(text: &mut String, i: i64)
    ensures
        final(text)@ == old(text)@ + signed_decimal(i as int),
{
    if i < 0 {
        text.append("-");
        let magnitude: u64 = (-(i as i128)) as u64;
        append_decimal(text, magnitude);
        assert(text@ =~= old(text)@ + signed_decimal(i as int));
    } else {
        append_decimal(text, i as u64);
    }
}

/// Writes what a fault of a row of an entity is told as at the end of a text.
fn append_fault(text: &mut String, entity: Entity, fault: Fault)
    ensures
        final(text)@ == old(text)@ + fault_text(entity, fault),
{
    match fault.kind {
        FaultKind::MissingColumn => {
            text.append("Invalid column index: ");
            append_decimal(text, fault.column as u64);
        },
        FaultKind::WrongType(class) => {
            let columns = entity.column_list();
            text.append("Invalid column type ");
            text.append(class.name_text());
            text.append(" at index: ");
            append_decimal(text, fault.column as u64);
            text.append(", name: ");
            if fault.column < columns.len() {
                text.append(columns[fault.column].name);
            }
        },
        FaultKind::OutOfRange(value) => {
            text.append("Integer ");
            append_signed_decimal(text, value);
            text.append(" out of range at index ");
            append_decimal(text, fault.column as u64);
        },
        FaultKind::MalformedText => {
            text.append("Conversion error from type Text at index: ");
            append_decimal(text, fault.column as u64);
            text.append(", invalid utf-8 sequence");
        },
    }
    assert(text@ =~= old(text)@ + fault_text(entity, fault));
}

impl AccessError {
    /// What the error is told as to whoever made the call.
    pub fn message(&self) -> (text: String)
        ensures
            text@ == self@.message(),
    {
        match self {
            AccessError::ConnectionFailure { path, detail } => {
                let mut text = String::from_str("Failed to open DB at ");
                text.append(path.as_str());
                text.append(": ");
                text.append(detail.as_str());
                text
            },
            AccessError::StatementPrepareFailure { detail } => {
                let mut text = String::from_str("Failed to prepare statement: ");
                text.append(detail.as_str());
                text
            },
            AccessError::QueryExecutionFailure { entity, detail } => {
                let mut text = String::from_str("Failed to collect ");
                text.append(entity.label_text());
                text.append(": ");
                text.append(detail.as_str());
                text
            },
            AccessError::RowDecodeFailure { entity, row, fault } => {
                let mut text = String::from_str("Failed to collect ");
                text.append(entity.label_text());
                text.append(": ");
                append_fault(&mut text, *entity, *fault);
                text
            },
        }
    }
}

} // verus!
