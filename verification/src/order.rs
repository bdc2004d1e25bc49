//! Orders.

use crate::cell::Cell;
use crate::decode::required_int32;
use crate::decode::required_integer;
use crate::decode::required_real;
use crate::decode::required_text;
use crate::decode::Amount;
use crate::decode::Datum;
use crate::decode::Fault;
use crate::record::Record;
use crate::schema::Entity;
use vstd::prelude::*;

verus! {

/// One order. The fields bear the names of their columns.
#[allow(non_snake_case)]
#[derive(Clone, Debug, PartialEq, Eq)]
pub struct Order {
    pub id: String,
    pub orderNumber: String,
    pub productId: String,
    pub quantity: i32,
    pub status: String,
    pub totalValue: Amount,
    pub customerName: String,
    pub productType: String,
    pub assignedTo: String,
    pub validDate: i64,
    pub createdAt: i64,
    pub updatedAt: i64,
}

impl Record for Order {
    open spec fn entity() -> Entity {
        Entity::Order
    }

    open spec fn fields(&self) -> Seq<Datum> {
        seq![
            Datum::Text(self.id@),
            Datum::Text(self.orderNumber@),
            Datum::Text(self.productId@),
            Datum::Int32(self.quantity),
            Datum::Text(self.status@),
            Datum::Real(self.totalValue),
            Datum::Text(self.customerName@),
            Datum::Text(self.productType@),
            Datum::Text(self.assignedTo@),
            Datum::Integer(self.validDate),
            Datum::Integer(self.createdAt),
            Datum::Integer(self.updatedAt),
        ]
    }

    fn entity_tag() -> (e: Entity) {
        Entity::Order
    }

    #[allow(non_snake_case)]
    fn from_row(row: &Vec<Cell>) -> (r: Result<Order, Fault>) {
        let id = required_text(row, 0)?;
        let orderNumber = required_text(row, 1)?;
        let productId = required_text(row, 2)?;
        let quantity = required_int32(row, 3)?;
        let status = required_text(row, 4)?;
        let totalValue = required_real(row, 5)?;
        let customerName = required_text(row, 6)?;
        let productType = required_text(row, 7)?;
        let assignedTo = required_text(row, 8)?;
        let validDate = required_integer(row, 9)?;
        let createdAt = required_integer(row, 10)?;
        let updatedAt = required_integer(row, 11)?;
        Ok(
            Order {
                id,
                orderNumber,
                productId,
                quantity,
                status,
                totalValue,
                customerName,
                productType,
                assignedTo,
                validDate,
                createdAt,
                updatedAt,
            },
        )
    }
}

} // verus!
