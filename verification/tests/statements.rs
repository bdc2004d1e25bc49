use row_mapper::schema::Entity;
use row_mapper::schema::Kind;
use row_mapper::schema::Policy;
use row_mapper::statement::select_statement;

#[test]
fn users_statement() {
    assert_eq!(
        select_statement(Entity::User),
        "SELECT id, email, name, department, preferredHomepage, createdAt, updatedAt FROM User"
    );
}

#[test]
fn products_statement() {
    assert_eq!(
        select_statement(Entity::Product),
        "SELECT id, name, sku, category, season, designer, status, developmentStage, actualHours, priority, createdAt, updatedAt FROM Product"
    );
}

#[test]
fn orders_statement_quotes_the_table() {
    assert_eq!(
        select_statement(Entity::Order),
        "SELECT id, orderNumber, productId, quantity, status, totalValue, customerName, productType, assignedTo, validDate, createdAt, updatedAt FROM 'Order'"
    );
}

#[test]
fn samples_statement() {
    assert_eq!(
        select_statement(Entity::Sample),
        "SELECT id, productId, type, status, notes, version, feedback, approvedBy, createdAt FROM Sample"
    );
}

#[test]
fn design_files_statement() {
    assert_eq!(
        select_statement(Entity::DesignFile),
        "SELECT id, productId, fileName, fileType, url, version, isLatest, uploadedBy, uploadedAt FROM DesignFile"
    );
}

#[test]
fn costing_sheets_statement() {
    assert_eq!(
        select_statement(Entity::CostingSheet),
        "SELECT id, name, profitMargin, selectedCurrency, costBreakdown, taxConfig, createdAt, updatedAt FROM CostingSheet"
    );
}

#[test]
fn production_plans_statement() {
    assert_eq!(
        select_statement(Entity::ProductionPlan),
        "SELECT id, productName, quantity, startDate, endDate, status, progress, assignedWorkers, estimatedHours, actualHours, priority, createdAt, updatedAt FROM ProductionPlan"
    );
}

#[test]
fn resources_statement() {
    assert_eq!(
        select_statement(Entity::Resource),
        "SELECT id, name, type, capacity, allocated, available, efficiency, createdAt, updatedAt FROM Resource"
    );
}

#[test]
fn inventory_items_statement() {
    assert_eq!(
        select_statement(Entity::InventoryItem),
        "SELECT id, name, category, currentStock, minStock, maxStock, unit, unitCost, totalValue, location, lastUpdated, supplier, createdAt, updatedAt FROM InventoryItem"
    );
}

#[test]
fn inventory_history_statement() {
    assert_eq!(
        select_statement(Entity::InventoryHistory),
        "SELECT id, itemId, action, quantityChange, previousStock, newStock, note, user, createdAt FROM InventoryHistory"
    );
}

#[test]
fn inventory_reorders_statement() {
    assert_eq!(
        select_statement(Entity::InventoryReorder),
        "SELECT id, itemId, quantity, supplier, status, note, user, createdAt FROM InventoryReorder"
    );
}

#[test]
fn only_the_orders_fail_fast() {
    let all = [
        Entity::User,
        Entity::Product,
        Entity::Order,
        Entity::Sample,
        Entity::DesignFile,
        Entity::CostingSheet,
        Entity::ProductionPlan,
        Entity::Resource,
        Entity::InventoryItem,
        Entity::InventoryHistory,
        Entity::InventoryReorder,
    ];
    for entity in all {
        let expected = if entity == Entity::Order { Policy::FailFast } else { Policy::SkipRow };
        assert_eq!(entity.policy(), expected);
    }
}

#[test]
fn column_lists_have_the_declared_lengths() {
    assert_eq!(Entity::User.column_list().len(), 7);
    assert_eq!(Entity::Product.column_list().len(), 12);
    assert_eq!(Entity::Order.column_list().len(), 12);
    assert_eq!(Entity::Sample.column_list().len(), 9);
    assert_eq!(Entity::DesignFile.column_list().len(), 9);
    assert_eq!(Entity::CostingSheet.column_list().len(), 8);
    assert_eq!(Entity::ProductionPlan.column_list().len(), 13);
    assert_eq!(Entity::Resource.column_list().len(), 9);
    assert_eq!(Entity::InventoryItem.column_list().len(), 14);
    assert_eq!(Entity::InventoryHistory.column_list().len(), 9);
    assert_eq!(Entity::InventoryReorder.column_list().len(), 8);
}

#[test]
fn order_quantity_is_the_one_narrow_integer() {
    let columns = Entity::Order.column_list();
    assert_eq!(columns[3].name, "quantity");
    assert_eq!(columns[3].kind, Kind::Int32);
    assert!(columns[3].required);
    assert_eq!(columns[5].name, "totalValue");
    assert_eq!(columns[5].kind, Kind::Real);
    assert_eq!(columns[9].kind, Kind::Integer);
}
