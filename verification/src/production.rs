//! Costing and production planning.

use crate::cell::Cell;
use crate::decode::required_integer;
use crate::decode::required_real;
use crate::decode::required_text;
use crate::decode::Amount;
use crate::decode::Datum;
use crate::decode::Fault;
use crate::record::Record;
use crate::schema::Entity;
use vstd::prelude::*;

verus! {

/// One costing sheet. The cost breakdown and the tax configuration are kept as the text they are stored as.
#[derive(Clone, Debug, PartialEq, Eq)]
pub struct CostingSheet {
    pub id: String,
    pub name: String,
    pub profit_margin: Amount,
    pub selected_currency: String,
    pub cost_breakdown: String,
    pub tax_config: String,
    pub created_at: String,
    pub updated_at: String,
}

impl Record for CostingSheet {
    open spec fn entity() -> Entity {
        Entity::CostingSheet
    }

    open spec fn fields(&self) -> Seq<Datum> {
        seq![
            Datum::Text(self.id@),
            Datum::Text(self.name@),
            Datum::Real(self.profit_margin),
            Datum::Text(self.selected_currency@),
            Datum::Text(self.cost_breakdown@),
            Datum::Text(self.tax_config@),
            Datum::Text(self.created_at@),
            Datum::Text(self.updated_at@),
        ]
    }

    fn entity_tag() -> (e: Entity) {
        Entity::CostingSheet
    }

    fn from_row(row: &Vec<Cell>) -> (r: Result<CostingSheet, Fault>) {
        let id = required_text(row, 0)?;
        let name = required_text(row, 1)?;
        let profit_margin = required_real(row, 2)?;
        let selected_currency = required_text(row, 3)?;
        let cost_breakdown = required_text(row, 4)?;
        let tax_config = required_text(row, 5)?;
        let created_at = required_text(row, 6)?;
        let updated_at = required_text(row, 7)?;
        Ok(
            CostingSheet {
                id,
                name,
                profit_margin,
                selected_currency,
                cost_breakdown,
                tax_config,
                created_at,
                updated_at,
            },
        )
    }
}

/// One production plan.
#[derive(Clone, Debug, PartialEq, Eq)]
pub struct ProductionPlan {
    pub id: String,
    pub product_name: String,
    pub quantity: i64,
    pub start_date: String,
    pub end_date: String,
    pub status: String,
    pub progress: i64,
    pub assigned_workers: i64,
    pub estimated_hours: i64,
    pub actual_hours: i64,
    pub priority: String,
    pub created_at: String,
    pub updated_at: String,
}

impl Record for ProductionPlan {
    open spec fn entity() -> Entity {
        Entity::ProductionPlan
    }

    open spec fn fields(&self) -> Seq<Datum> {
        seq![
            Datum::Text(self.id@),
            Datum::Text(self.product_name@),
            Datum::Integer(self.quantity),
            Datum::Text(self.start_date@),
            Datum::Text(self.end_date@),
            Datum::Text(self.status@),
            Datum::Integer(self.progress),
            Datum::Integer(self.assigned_workers),
            Datum::Integer(self.estimated_hours),
            Datum::Integer(self.actual_hours),
            Datum::Text(self.priority@),
            Datum::Text(self.created_at@),
            Datum::Text(self.updated_at@),
        ]
    }

    fn entity_tag() -> (e: Entity) {
        Entity::ProductionPlan
    }

    fn from_row(row: &Vec<Cell>) -> (r: Result<ProductionPlan, Fault>) {
        let id = required_text(row, 0)?;
        let product_name = required_text(row, 1)?;
        let quantity = required_integer(row, 2)?;
        let start_date = required_text(row, 3)?;
        let end_date = required_text(row, 4)?;
        let status = required_text(row, 5)?;
        let progress = required_integer(row, 6)?;
        let assigned_workers = required_integer(row, 7)?;
        let estimated_hours = required_integer(row, 8)?;
        let actual_hours = required_integer(row, 9)?;
        let priority = required_text(row, 10)?;
        let created_at = required_text(row, 11)?;
        let updated_at = required_text(row, 12)?;
        Ok(
            ProductionPlan {
                id,
                product_name,
                quantity,
                start_date,
                end_date,
                status,
                progress,
                assigned_workers,
                estimated_hours,
                actual_hours,
                priority,
                created_at,
                updated_at,
            },
        )
    }
}

/// One production resource.
#[derive(Clone, Debug, PartialEq, Eq)]
pub struct Resource {
    pub id: String,
    pub name: String,
    pub type_: String,
    pub capacity: i64,
    pub allocated: i64,
    pub available: i64,
    pub efficiency: i64,
    pub created_at: String,
    pub updated_at: String,
}

impl Record for Resource {
    open spec fn entity() -> Entity {
        Entity::Resource
    }

    open spec fn fields(&self) -> Seq<Datum> {
        seq![
            Datum::Text(self.id@),
            Datum::Text(self.name@),
            Datum::Text(self.type_@),
            Datum::Integer(self.capacity),
            Datum::Integer(self.allocated),
            Datum::Integer(self.available),
            Datum::Integer(self.efficiency),
            Datum::Text(self.created_at@),
            Datum::Text(self.updated_at@),
        ]
    }

    fn entity_tag() -> (e: Entity) {
        Entity::Resource
    }

    fn from_row(row: &Vec<Cell>) -> (r: Result<Resource, Fault>) {
        let id = required_text(row, 0)?;
        let name = required_text(row, 1)?;
        let type_ = required_text(row, 2)?;
        let capacity = required_integer(row, 3)?;
        let allocated = required_integer(row, 4)?;
        let available = required_integer(row, 5)?;
        let efficiency = required_integer(row, 6)?;
        let created_at = required_text(row, 7)?;
        let updated_at = required_text(row, 8)?;
        Ok(
            Resource {
                id,
                name,
                type_,
                capacity,
                allocated,
                available,
                efficiency,
                created_at,
                updated_at,
            },
        )
    }
}

} // verus!
