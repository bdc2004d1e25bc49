//! The inventory: items, their history, and reorders.

use crate::cell::Cell;
use crate::decode::optional_text;
use crate::decode::required_integer;
use crate::decode::required_real;
use crate::decode::required_text;
use crate::decode::text_or_absent;
use crate::decode::Amount;
use crate::decode::Datum;
use crate::decode::Fault;
use crate::record::Record;
use crate::schema::Entity;
use vstd::prelude::*;

verus! {

/// One item in stock.
#[derive(Clone, Debug, PartialEq, Eq)]
pub struct InventoryItem {
    pub id: String,
    pub name: String,
    pub category: String,
    pub current_stock: i64,
    pub min_stock: i64,
    pub max_stock: i64,
    pub unit: String,
    pub unit_cost: Amount,
    pub total_value: Amount,
    pub location: String,
    pub last_updated: String,
    pub supplier: Option<String>,
    pub created_at: String,
    pub updated_at: String,
}

impl Record for InventoryItem {
    open spec fn entity() -> Entity {
        Entity::InventoryItem
    }

    open spec fn fields(&self) -> Seq<Datum> {
        seq![
            Datum::Text(self.id@),
            Datum::Text(self.name@),
            Datum::Text(self.category@),
            Datum::Integer(self.current_stock),
            Datum::Integer(self.min_stock),
            Datum::Integer(self.max_stock),
            Datum::Text(self.unit@),
            Datum::Real(self.unit_cost),
            Datum::Real(self.total_value),
            Datum::Text(self.location@),
            Datum::Text(self.last_updated@),
            text_or_absent(self.supplier),
            Datum::Text(self.created_at@),
            Datum::Text(self.updated_at@),
        ]
    }

    fn entity_tag() -> (e: Entity) {
        Entity::InventoryItem
    }

    fn from_row(row: &Vec<Cell>) -> (r: Result<InventoryItem, Fault>) {
        let id = required_text(row, 0)?;
        let name = required_text(row, 1)?;
        let category = required_text(row, 2)?;
        let current_stock = required_integer(row, 3)?;
        let min_stock = required_integer(row, 4)?;
        let max_stock = required_integer(row, 5)?;
        let unit = required_text(row, 6)?;
        let unit_cost = required_real(row, 7)?;
        let total_value = required_real(row, 8)?;
        let location = required_text(row, 9)?;
        let last_updated = required_text(row, 10)?;
        let supplier = optional_text(row, 11);
        let created_at = required_text(row, 12)?;
        let updated_at = required_text(row, 13)?;
        Ok(
            InventoryItem {
                id,
                name,
                category,
                current_stock,
                min_stock,
                max_stock,
                unit,
                unit_cost,
                total_value,
                location,
                last_updated,
                supplier,
                created_at,
                updated_at,
            },
        )
    }
}

/// One change of an item's stock.
#[derive(Clone, Debug, PartialEq, Eq)]
pub struct InventoryHistory {
    pub id: String,
    pub item_id: String,
    pub action: String,
    pub quantity_change: i64,
    pub previous_stock: i64,
    pub new_stock: i64,
    pub note: Option<String>,
    pub user: Option<String>,
    pub created_at: String,
}

impl Record for InventoryHistory {
    open spec fn entity() -> Entity {
        Entity::InventoryHistory
    }

    open spec fn fields(&self) -> Seq<Datum> {
        seq![
            Datum::Text(self.id@),
            Datum::Text(self.item_id@),
            Datum::Text(self.action@),
            Datum::Integer(self.quantity_change),
            Datum::Integer(self.previous_stock),
            Datum::Integer(self.new_stock),
            text_or_absent(self.note),
            text_or_absent(self.user),
            Datum::Text(self.created_at@),
        ]
    }

    fn entity_tag() -> (e: Entity) {
        Entity::InventoryHistory
    }

    fn from_row(row: &Vec<Cell>) -> (r: Result<InventoryHistory, Fault>) {
        let id = required_text(row, 0)?;
        let item_id = required_text(row, 1)?;
        let action = required_text(row, 2)?;
        let quantity_change = required_integer(row, 3)?;
        let previous_stock = required_integer(row, 4)?;
        let new_stock = required_integer(row, 5)?;
        let note = optional_text(row, 6);
        let user = optional_text(row, 7);
        let created_at = required_text(row, 8)?;
        Ok(
            InventoryHistory {
                id,
                item_id,
                action,
                quantity_change,
                previous_stock,
                new_stock,
                note,
                user,
                created_at,
            },
        )
    }
}

/// One reorder of an item.
#[derive(Clone, Debug, PartialEq, Eq)]
pub struct InventoryReorder {
    pub id: String,
    pub item_id: String,
    pub quantity: i64,
    pub supplier: Option<String>,
    pub status: String,
    pub note: Option<String>,
    pub user: Option<String>,
    pub created_at: String,
}

impl Record for InventoryReorder {
    open spec fn entity() -> Entity {
        Entity::InventoryReorder
    }

    open spec fn fields(&self) -> Seq<Datum> {
        seq![
            Datum::Text(self.id@),
            Datum::Text(self.item_id@),
            Datum::Integer(self.quantity),
            text_or_absent(self.supplier),
            Datum::Text(self.status@),
            text_or_absent(self.note),
            text_or_absent(self.user),
            Datum::Text(self.created_at@),
        ]
    }

    fn entity_tag() -> (e: Entity) {
        Entity::InventoryReorder
    }

    fn from_row(row: &Vec<Cell>) -> (r: Result<InventoryReorder, Fault>) {
        let id = required_text(row, 0)?;
        let item_id = required_text(row, 1)?;
        let quantity = required_integer(row, 2)?;
        let supplier = optional_text(row, 3);
        let status = required_text(row, 4)?;
        let note = optional_text(row, 5);
        let user = optional_text(row, 6);
        let created_at = required_text(row, 7)?;
        Ok(
            InventoryReorder {
                id,
                item_id,
                quantity,
                supplier,
                status,
                note,
                user,
                created_at,
            },
        )
    }
}

} // verus!
