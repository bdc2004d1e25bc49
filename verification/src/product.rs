//! Products, and the samples and design files made of them.

use crate::cell::Cell;
use crate::decode::flag_or_absent;
use crate::decode::integer_or_absent;
use crate::decode::optional_flag;
use crate::decode::optional_integer;
use crate::decode::optional_real;
use crate::decode::optional_text;
use crate::decode::real_or_absent;
use crate::decode::required_text;
use crate::decode::text_or_absent;
use crate::decode::Amount;
use crate::decode::Datum;
use crate::decode::Fault;
use crate::record::Record;
use crate::schema::Entity;
use vstd::prelude::*;

verus! {

/// One product under development.
#[derive(Clone, Debug, PartialEq, Eq)]
pub struct Product {
    pub id: String,
    pub name: String,
    pub sku: Option<String>,
    pub category: Option<String>,
    pub season: Option<String>,
    pub designer: Option<String>,
    pub status: String,
    pub development_stage: String,
    pub actual_hours: Option<Amount>,
    pub priority: String,
    pub created_at: String,
    pub updated_at: String,
}

impl Record for Product {
    open spec fn entity() -> Entity {
        Entity::Product
    }

    open spec fn fields(&self) -> Seq<Datum> {
        seq![
            Datum::Text(self.id@),
            Datum::Text(self.name@),
            text_or_absent(self.sku),
            text_or_absent(self.category),
            text_or_absent(self.season),
            text_or_absent(self.designer),
            Datum::Text(self.status@),
            Datum::Text(self.development_stage@),
            real_or_absent(self.actual_hours),
            Datum::Text(self.priority@),
            Datum::Text(self.created_at@),
            Datum::Text(self.updated_at@),
        ]
    }

    fn entity_tag() -> (e: Entity) {
        Entity::Product
    }

    fn from_row(row: &Vec<Cell>) -> (r: Result<Product, Fault>) {
        let id = required_text(row, 0)?;
        let name = required_text(row, 1)?;
        let sku = optional_text(row, 2);
        let category = optional_text(row, 3);
        let season = optional_text(row, 4);
        let designer = optional_text(row, 5);
        let status = required_text(row, 6)?;
        let development_stage = required_text(row, 7)?;
        let actual_hours = optional_real(row, 8);
        let priority = required_text(row, 9)?;
        let created_at = required_text(row, 10)?;
        let updated_at = required_text(row, 11)?;
        Ok(
            Product {
                id,
                name,
                sku,
                category,
                season,
                designer,
                status,
                development_stage,
                actual_hours,
                priority,
                created_at,
                updated_at,
            },
        )
    }
}

/// One sample made of a product. `product_id` names the product; the reference is not followed here.
#[derive(Clone, Debug, PartialEq, Eq)]
pub struct Sample {
    pub id: String,
    pub product_id: String,
    pub type_: String,
    pub status: String,
    pub notes: Option<String>,
    pub version: Option<i64>,
    pub feedback: Option<String>,
    pub approved_by: Option<String>,
    pub created_at: String,
}

impl Record for Sample {
    open spec fn entity() -> Entity {
        Entity::Sample
    }

    open spec fn fields(&self) -> Seq<Datum> {
        seq![
            Datum::Text(self.id@),
            Datum::Text(self.product_id@),
            Datum::Text(self.type_@),
            Datum::Text(self.status@),
            text_or_absent(self.notes),
            integer_or_absent(self.version),
            text_or_absent(self.feedback),
            text_or_absent(self.approved_by),
            Datum::Text(self.created_at@),
        ]
    }

    fn entity_tag() -> (e: Entity) {
        Entity::Sample
    }

    fn from_row(row: &Vec<Cell>) -> (r: Result<Sample, Fault>) {
        let id = required_text(row, 0)?;
        let product_id = required_text(row, 1)?;
        let type_ = required_text(row, 2)?;
        let status = required_text(row, 3)?;
        let notes = optional_text(row, 4);
        let version = optional_integer(row, 5);
        let feedback = optional_text(row, 6);
        let approved_by = optional_text(row, 7);
        let created_at = required_text(row, 8)?;
        Ok(
            Sample {
                id,
                product_id,
                type_,
                status,
                notes,
                version,
                feedback,
                approved_by,
                created_at,
            },
        )
    }
}

/// One design file of a product.
#[derive(Clone, Debug, PartialEq, Eq)]
pub struct DesignFile {
    pub id: String,
    pub product_id: String,
    pub file_name: String,
    pub file_type: Option<String>,
    pub url: Option<String>,
    pub version: Option<i64>,
    pub is_latest: Option<bool>,
    pub uploaded_by: Option<String>,
    pub uploaded_at: String,
}

impl Record for DesignFile {
    open spec fn entity() -> Entity {
        Entity::DesignFile
    }

    open spec fn fields(&self) -> Seq<Datum> {
        seq![
            Datum::Text(self.id@),
            Datum::Text(self.product_id@),
            Datum::Text(self.file_name@),
            text_or_absent(self.file_type),
            text_or_absent(self.url),
            integer_or_absent(self.version),
            flag_or_absent(self.is_latest),
            text_or_absent(self.uploaded_by),
            Datum::Text(self.uploaded_at@),
        ]
    }

    fn entity_tag() -> (e: Entity) {
        Entity::DesignFile
    }

    fn from_row(row: &Vec<Cell>) -> (r: Result<DesignFile, Fault>) {
        let id = required_text(row, 0)?;
        let product_id = required_text(row, 1)?;
        let file_name = required_text(row, 2)?;
        let file_type = optional_text(row, 3);
        let url = optional_text(row, 4);
        let version = optional_integer(row, 5);
        let is_latest = optional_flag(row, 6);
        let uploaded_by = optional_text(row, 7);
        let uploaded_at = required_text(row, 8)?;
        Ok(
            DesignFile {
                id,
                product_id,
                file_name,
                file_type,
                url,
                version,
                is_latest,
                uploaded_by,
                uploaded_at,
            },
        )
    }
}

} // verus!
