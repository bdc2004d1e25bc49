//! The fixed schema: which entities there are, the table and the columns of
//! each, and the row policy its sweep runs under.

use vstd::prelude::*;

verus! {

/// The type that a column is declared with.
#[derive(Clone, Copy, Debug, PartialEq, Eq, Structural)]
pub enum Kind {
    /// UTF-8 text.
    Text,
    /// A 64-bit signed integer.
    Integer,
    /// A signed integer that must fit in 32 bits.
    Int32,
    /// A floating-point amount.
    Real,
    /// A truth value, stored as an integer.
    Flag,
}

/// What a sweep does with a row that cannot be decoded.
#[derive(Clone, Copy, Debug, PartialEq, Eq, Structural)]
pub enum Policy {
    /// The row is left out and the sweep goes on.
    SkipRow,
    /// The sweep ends with the row's fault.
    FailFast,
}

/// One column of a select list.
#[derive(Clone, Copy, Debug, PartialEq, Eq)]
pub struct Column {
    /// The column's name in storage.
    pub name: &'static str,
    /// The type it is read as.
    pub kind: Kind,
    /// Whether a row without a readable value here is given up.
    pub required: bool,
}

/// The mathematical value of a [`Column`].
pub struct ColumnView {
    pub name: Seq<char>,
    pub kind: Kind,
    pub required: bool,
}

impl View for Column {
    type V = ColumnView;

    open spec fn view(&self) -> ColumnView {
        ColumnView { name: self.name@, kind: self.kind, required: self.required }
    }
}

impl DeepView for Column {
    type V = ColumnView;

    open spec fn deep_view(&self) -> ColumnView {
        self@
    }
}

/// A column that every row must have a readable value in.
pub open spec fn required(name: Seq<char>, kind: Kind) -> ColumnView {
    ColumnView { name, kind, required: true }
}

/// A column whose value may be absent.
pub open spec fn optional(name: Seq<char>, kind: Kind) -> ColumnView {
    ColumnView { name, kind, required: false }
}

impl Column {
    /// A column that every row must have a readable value in.
    pub fn required(name: &'static str, kind: Kind) -> (c: Column)
        ensures
            c@ == required(name@, kind),
    {
        Column { name, kind, required: true }
    }

    /// A column whose value may be absent.
    pub fn optional(name: &'static str, kind: Kind) -> (c: Column)
        ensures
            c@ == optional(name@, kind),
    {
        Column { name, kind, required: false }
    }
}

/// The entities that can be listed, one per table.
#[derive(Clone, Copy, Debug, PartialEq, Eq, Structural)]
pub enum Entity {
    User,
    Product,
    Order,
    Sample,
    DesignFile,
    CostingSheet,
    ProductionPlan,
    Resource,
    InventoryItem,
    InventoryHistory,
    InventoryReorder,
}

impl Entity {
    /// The entity's table, as it is written in a statement. The table of the
    /// orders bears a reserved word as its name and is written in quotes.
    pub open spec fn table(self) -> Seq<char> {
        match self {
            Entity::User => "User"@,
            Entity::Product => "Product"@,
            Entity::Order => "'Order'"@,
            Entity::Sample => "Sample"@,
            Entity::DesignFile => "DesignFile"@,
            Entity::CostingSheet => "CostingSheet"@,
            Entity::ProductionPlan => "ProductionPlan"@,
            Entity::Resource => "Resource"@,
            Entity::InventoryItem => "InventoryItem"@,
            Entity::InventoryHistory => "InventoryHistory"@,
            Entity::InventoryReorder => "InventoryReorder"@,
        }
    }

    /// How the entity is called in a message, in the plural.
    pub open spec fn label(self) -> Seq<char> {
        match self {
            Entity::User => "users"@,
            Entity::Product => "products"@,
            Entity::Order => "orders"@,
            Entity::Sample => "samples"@,
            Entity::DesignFile => "design files"@,
            Entity::CostingSheet => "costing sheets"@,
            Entity::ProductionPlan => "production plans"@,
            Entity::Resource => "resources"@,
            Entity::InventoryItem => "inventory items"@,
            Entity::InventoryHistory => "inventory history"@,
            Entity::InventoryReorder => "inventory reorders"@,
        }
    }

    /// The row policy of the entity's sweep: the orders fail fast, every
    /// other entity skips the rows that do not decode.
    pub open spec fn spec_policy(self) -> Policy {
        match self {
            Entity::Order => Policy::FailFast,
            _ => Policy::SkipRow,
        }
    }

    /// The entity's columns, in the order in which they are selected and in
    /// which a row holds their cells.
    pub open spec fn columns(self) -> Seq<ColumnView> {
        match self {
            Entity::User => seq![
                required("id"@, Kind::Text),
                required("email"@, Kind::Text),
                required("name"@, Kind::Text),
                optional("department"@, Kind::Text),
                optional("preferredHomepage"@, Kind::Text),
                required("createdAt"@, Kind::Text),
                required("updatedAt"@, Kind::Text),
            ],
            Entity::Product => seq![
                required("id"@, Kind::Text),
                required("name"@, Kind::Text),
                optional("sku"@, Kind::Text),
                optional("category"@, Kind::Text),
                optional("season"@, Kind::Text),
                optional("designer"@, Kind::Text),
                required("status"@, Kind::Text),
                required("developmentStage"@, Kind::Text),
                optional("actualHours"@, Kind::Real),
                required("priority"@, Kind::Text),
                required("createdAt"@, Kind::Text),
                required("updatedAt"@, Kind::Text),
            ],
            Entity::Order => seq![
                required("id"@, Kind::Text),
                required("orderNumber"@, Kind::Text),
                required("productId"@, Kind::Text),
                required("quantity"@, Kind::Int32),
                required("status"@, Kind::Text),
                required("totalValue"@, Kind::Real),
                required("customerName"@, Kind::Text),
                required("productType"@, Kind::Text),
                required("assignedTo"@, Kind::Text),
                required("validDate"@, Kind::Integer),
                required("createdAt"@, Kind::Integer),
                required("updatedAt"@, Kind::Integer),
            ],
            Entity::Sample => seq![
                required("id"@, Kind::Text),
                required("productId"@, Kind::Text),
                required("type"@, Kind::Text),
                required("status"@, Kind::Text),
                optional("notes"@, Kind::Text),
                optional("version"@, Kind::Integer),
                optional("feedback"@, Kind::Text),
                optional("approvedBy"@, Kind::Text),
                required("createdAt"@, Kind::Text),
            ],
            Entity::DesignFile => seq![
                required("id"@, Kind::Text),
                required("productId"@, Kind::Text),
                required("fileName"@, Kind::Text),
                optional("fileType"@, Kind::Text),
                optional("url"@, Kind::Text),
                optional("version"@, Kind::Integer),
                optional("isLatest"@, Kind::Flag),
                optional("uploadedBy"@, Kind::Text),
                required("uploadedAt"@, Kind::Text),
            ],
            Entity::CostingSheet => seq![
                required("id"@, Kind::Text),
                required("name"@, Kind::Text),
                required("profitMargin"@, Kind::Real),
                required("selectedCurrency"@, Kind::Text),
                required("costBreakdown"@, Kind::Text),
                required("taxConfig"@, Kind::Text),
                required("createdAt"@, Kind::Text),
                required("updatedAt"@, Kind::Text),
            ],
            Entity::ProductionPlan => seq![
                required("id"@, Kind::Text),
                required("productName"@, Kind::Text),
                required("quantity"@, Kind::Integer),
                required("startDate"@, Kind::Text),
                required("endDate"@, Kind::Text),
                required("status"@, Kind::Text),
                required("progress"@, Kind::Integer),
                required("assignedWorkers"@, Kind::Integer),
                required("estimatedHours"@, Kind::Integer),
                required("actualHours"@, Kind::Integer),
                required("priority"@, Kind::Text),
                required("createdAt"@, Kind::Text),
                required("updatedAt"@, Kind::Text),
            ],
            Entity::Resource => seq![
                required("id"@, Kind::Text),
                required("name"@, Kind::Text),
                required("type"@, Kind::Text),
                required("capacity"@, Kind::Integer),
                required("allocated"@, Kind::Integer),
                required("available"@, Kind::Integer),
                required("efficiency"@, Kind::Integer),
                required("createdAt"@, Kind::Text),
                required("updatedAt"@, Kind::Text),
            ],
            Entity::InventoryItem => seq![
                required("id"@, Kind::Text),
                required("name"@, Kind::Text),
                required("category"@, Kind::Text),
                required("currentStock"@, Kind::Integer),
                required("minStock"@, Kind::Integer),
                required("maxStock"@, Kind::Integer),
                required("unit"@, Kind::Text),
                required("unitCost"@, Kind::Real),
                required("totalValue"@, Kind::Real),
                required("location"@, Kind::Text),
                required("lastUpdated"@, Kind::Text),
                optional("supplier"@, Kind::Text),
                required("createdAt"@, Kind::Text),
                required("updatedAt"@, Kind::Text),
            ],
            Entity::InventoryHistory => seq![
                required("id"@, Kind::Text),
                required("itemId"@, Kind::Text),
                required("action"@, Kind::Text),
                required("quantityChange"@, Kind::Integer),
                required("previousStock"@, Kind::Integer),
                required("newStock"@, Kind::Integer),
                optional("note"@, Kind::Text),
                optional("user"@, Kind::Text),
                required("createdAt"@, Kind::Text),
            ],
            Entity::InventoryReorder => seq![
                required("id"@, Kind::Text),
                required("itemId"@, Kind::Text),
                required("quantity"@, Kind::Integer),
                optional("supplier"@, Kind::Text),
                required("status"@, Kind::Text),
                optional("note"@, Kind::Text),
                optional("user"@, Kind::Text),
                required("createdAt"@, Kind::Text),
            ],
        }
    }

    /// The entity's columns, in the order in which they are selected.
    pub fn column_list(self) -> (list: Vec<Column>)
        ensures
            list.deep_view() == self.columns(),
    {
        match self {
            Entity::User => vec![
                Column::required("id", Kind::Text),
                Column::required("email", Kind::Text),
                Column::required("name", Kind::Text),
                Column::optional("department", Kind::Text),
                Column::optional("preferredHomepage", Kind::Text),
                Column::required("createdAt", Kind::Text),
                Column::required("updatedAt", Kind::Text),
            ],
            Entity::Product => vec![
                Column::required("id", Kind::Text),
                Column::required("name", Kind::Text),
                Column::optional("sku", Kind::Text),
                Column::optional("category", Kind::Text),
                Column::optional("season", Kind::Text),
                Column::optional("designer", Kind::Text),
                Column::required("status", Kind::Text),
                Column::required("developmentStage", Kind::Text),
                Column::optional("actualHours", Kind::Real),
                Column::required("priority", Kind::Text),
                Column::required("createdAt", Kind::Text),
                Column::required("updatedAt", Kind::Text),
            ],
            Entity::Order => vec![
                Column::required("id", Kind::Text),
                Column::required("orderNumber", Kind::Text),
                Column::required("productId", Kind::Text),
                Column::required("quantity", Kind::Int32),
                Column::required("status", Kind::Text),
                Column::required("totalValue", Kind::Real),
                Column::required("customerName", Kind::Text),
                Column::required("productType", Kind::Text),
                Column::required("assignedTo", Kind::Text),
                Column::required("validDate", Kind::Integer),
                Column::required("createdAt", Kind::Integer),
                Column::required("updatedAt", Kind::Integer),
            ],
            Entity::Sample => vec![
                Column::required("id", Kind::Text),
                Column::required("productId", Kind::Text),
                Column::required("type", Kind::Text),
                Column::required("status", Kind::Text),
                Column::optional("notes", Kind::Text),
                Column::optional("version", Kind::Integer),
                Column::optional("feedback", Kind::Text),
                Column::optional("approvedBy", Kind::Text),
                Column::required("createdAt", Kind::Text),
            ],
            Entity::DesignFile => vec![
                Column::required("id", Kind::Text),
                Column::required("productId", Kind::Text),
                Column::required("fileName", Kind::Text),
                Column::optional("fileType", Kind::Text),
                Column::optional("url", Kind::Text),
                Column::optional("version", Kind::Integer),
                Column::optional("isLatest", Kind::Flag),
                Column::optional("uploadedBy", Kind::Text),
                Column::required("uploadedAt", Kind::Text),
            ],
            Entity::CostingSheet => vec![
                Column::required("id", Kind::Text),
                Column::required("name", Kind::Text),
                Column::required("profitMargin", Kind::Real),
                Column::required("selectedCurrency", Kind::Text),
                Column::required("costBreakdown", Kind::Text),
                Column::required("taxConfig", Kind::Text),
                Column::required("createdAt", Kind::Text),
                Column::required("updatedAt", Kind::Text),
            ],
            Entity::ProductionPlan => vec![
                Column::required("id", Kind::Text),
                Column::required("productName", Kind::Text),
                Column::required("quantity", Kind::Integer),
                Column::required("startDate", Kind::Text),
                Column::required("endDate", Kind::Text),
                Column::required("status", Kind::Text),
                Column::required("progress", Kind::Integer),
                Column::required("assignedWorkers", Kind::Integer),
                Column::required("estimatedHours", Kind::Integer),
                Column::required("actualHours", Kind::Integer),
                Column::required("priority", Kind::Text),
                Column::required("createdAt", Kind::Text),
                Column::required("updatedAt", Kind::Text),
            ],
            Entity::Resource => vec![
                Column::required("id", Kind::Text),
                Column::required("name", Kind::Text),
                Column::required("type", Kind::Text),
                Column::required("capacity", Kind::Integer),
                Column::required("allocated", Kind::Integer),
                Column::required("available", Kind::Integer),
                Column::required("efficiency", Kind::Integer),
                Column::required("createdAt", Kind::Text),
                Column::required("updatedAt", Kind::Text),
            ],
            Entity::InventoryItem => vec![
                Column::required("id", Kind::Text),
                Column::required("name", Kind::Text),
                Column::required("category", Kind::Text),
                Column::required("currentStock", Kind::Integer),
                Column::required("minStock", Kind::Integer),
                Column::required("maxStock", Kind::Integer),
                Column::required("unit", Kind::Text),
                Column::required("unitCost", Kind::Real),
                Column::required("totalValue", Kind::Real),
                Column::required("location", Kind::Text),
                Column::required("lastUpdated", Kind::Text),
                Column::optional("supplier", Kind::Text),
                Column::required("createdAt", Kind::Text),
                Column::required("updatedAt", Kind::Text),
            ],
            Entity::InventoryHistory => vec![
                Column::required("id", Kind::Text),
                Column::required("itemId", Kind::Text),
                Column::required("action", Kind::Text),
                Column::required("quantityChange", Kind::Integer),
                Column::required("previousStock", Kind::Integer),
                Column::required("newStock", Kind::Integer),
                Column::optional("note", Kind::Text),
                Column::optional("user", Kind::Text),
                Column::required("createdAt", Kind::Text),
            ],
            Entity::InventoryReorder => vec![
                Column::required("id", Kind::Text),
                Column::required("itemId", Kind::Text),
                Column::required("quantity", Kind::Integer),
                Column::optional("supplier", Kind::Text),
                Column::required("status", Kind::Text),
                Column::optional("note", Kind::Text),
                Column::optional("user", Kind::Text),
                Column::required("createdAt", Kind::Text),
            ],
        }
    }

    /// The row policy of the entity's sweep.
    #[verifier::when_used_as_spec(spec_policy)]
    pub fn policy(self) -> (p: Policy)
        ensures
            p == self.spec_policy(),
    {
        match self {
            Entity::Order => Policy::FailFast,
            _ => Policy::SkipRow,
        }
    }

    /// The entity's table, as it is written in a statement.
    pub fn table_name(self) -> (name: &'static str)
        ensures
            name@ == self.table(),
    {
        match self {
            Entity::User => "User",
            Entity::Product => "Product",
            Entity::Order => "'Order'",
            Entity::Sample => "Sample",
            Entity::DesignFile => "DesignFile",
            Entity::CostingSheet => "CostingSheet",
            Entity::ProductionPlan => "ProductionPlan",
            Entity::Resource => "Resource",
            Entity::InventoryItem => "InventoryItem",
            Entity::InventoryHistory => "InventoryHistory",
            Entity::InventoryReorder => "InventoryReorder",
        }
    }

    /// How the entity is called in a message, in the plural.
    pub fn label_text(self) -> (name: &'static str)
        ensures
            name@ == self.label(),
    {
        match self {
            Entity::User => "users",
            Entity::Product => "products",
            Entity::Order => "orders",
            Entity::Sample => "samples",
            Entity::DesignFile => "design files",
            Entity::CostingSheet => "costing sheets",
            Entity::ProductionPlan => "production plans",
            Entity::Resource => "resources",
            Entity::InventoryItem => "inventory items",
            Entity::InventoryHistory => "inventory history",
            Entity::InventoryReorder => "inventory reorders",
        }
    }
}

} // verus!
