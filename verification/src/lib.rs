//! Typed records out of raw table rows.
//!
//! A gateway sweeps a table of a file-backed relational store and hands over
//! what it found: the raw cells of each row, or the reason why it could not
//! read. This library holds the rest: which columns each entity has and what
//! type each is declared with, how a cell becomes a field, when a row is
//! given up, and what a sweep answers under each of the two row policies.

pub mod access;
pub mod cell;
pub mod decode;
pub mod inventory;
pub mod laws;
pub mod message;
pub mod order;
pub mod product;
pub mod production;
pub mod record;
pub mod schema;
pub mod statement;
mod text;
pub mod user;

pub use access::get_costing_sheets;
pub use access::get_design_files;
pub use access::get_inventory_history;
pub use access::get_inventory_items;
pub use access::get_inventory_reorders;
pub use access::get_orders;
pub use access::get_production_plans;
pub use access::get_products;
pub use access::get_resources;
pub use access::get_samples;
pub use access::get_users;
pub use access::AccessError;
pub use access::Fetch;
pub use cell::Cell;
pub use decode::Amount;
pub use inventory::InventoryHistory;
pub use inventory::InventoryItem;
pub use inventory::InventoryReorder;
pub use order::Order;
pub use product::DesignFile;
pub use product::Product;
pub use product::Sample;
pub use production::CostingSheet;
pub use production::ProductionPlan;
pub use production::Resource;
pub use record::Record;
pub use schema::Entity;
pub use statement::select_statement;
pub use user::User;
