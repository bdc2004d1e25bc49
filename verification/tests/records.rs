use row_mapper::cell::Cell;
use row_mapper::cell::StorageClass;
use row_mapper::decode::Amount;
use row_mapper::decode::Fault;
use row_mapper::decode::FaultKind;
use row_mapper::inventory::InventoryHistory;
use row_mapper::inventory::InventoryItem;
use row_mapper::inventory::InventoryReorder;
use row_mapper::order::Order;
use row_mapper::product::DesignFile;
use row_mapper::product::Product;
use row_mapper::product::Sample;
use row_mapper::production::CostingSheet;
use row_mapper::production::ProductionPlan;
use row_mapper::production::Resource;
use row_mapper::record::Record;
use row_mapper::schema::Entity;
use row_mapper::user::User;

fn t(s: &str) -> Cell {
    Cell::Text(s.as_bytes().to_vec())
}

fn s(text: &str) -> String {
    text.to_string()
}

fn order_row() -> Vec<Cell> {
    vec![
        t("o-1"),
        t("SO-1001"),
        t("p-9"),
        Cell::Integer(12),
        t("open"),
        Cell::Real(1999.5f64.to_bits()),
        t("Acme"),
        t("jacket"),
        t("u-1"),
        Cell::Integer(1700000000000),
        Cell::Integer(1690000000000),
        Cell::Integer(1695000000000),
    ]
}

#[test]
fn a_user_row_with_both_optional_columns_set() {
    let row = vec![
        t("u-1"),
        t("ada@example.com"),
        t("Ada"),
        t("Design"),
        t("/orders"),
        t("2024-01-02T03:04:05Z"),
        t("2024-02-03T04:05:06Z"),
    ];
    assert_eq!(
        User::from_row(&row),
        Ok(User {
            id: s("u-1"),
            email: s("ada@example.com"),
            name: s("Ada"),
            department: Some(s("Design")),
            preferred_homepage: Some(s("/orders")),
            created_at: s("2024-01-02T03:04:05Z"),
            updated_at: s("2024-02-03T04:05:06Z"),
        })
    );
}

#[test]
fn a_user_row_with_null_optional_columns() {
    let row = vec![t("u-2"), t("bo@example.com"), t("Bo"), Cell::Null, Cell::Null, t("c"), t("d")];
    assert_eq!(
        User::from_row(&row),
        Ok(User {
            id: s("u-2"),
            email: s("bo@example.com"),
            name: s("Bo"),
            department: None,
            preferred_homepage: None,
            created_at: s("c"),
            updated_at: s("d"),
        })
    );
}

#[test]
fn an_optional_column_of_the_wrong_type_is_absent() {
    let row = vec![
        t("u-3"),
        t("cy@example.com"),
        t("Cy"),
        Cell::Integer(4),
        Cell::Text(vec![0xff, 0xfe]),
        t("c"),
        t("d"),
    ];
    let user = User::from_row(&row).unwrap();
    assert_eq!(user.department, None);
    assert_eq!(user.preferred_homepage, None);
    assert_eq!(user.name, "Cy");
}

#[test]
fn a_user_row_is_given_up_at_the_first_unreadable_required_column() {
    let row = vec![t("u-4"), Cell::Null, Cell::Integer(1), Cell::Null, Cell::Null, Cell::Null, t("d")];
    assert_eq!(
        User::from_row(&row),
        Err(Fault { column: 1, kind: FaultKind::WrongType(StorageClass::Null) })
    );
}

#[test]
fn a_row_that_is_too_short_misses_a_column() {
    let row = vec![t("u-5"), t("di@example.com"), t("Di")];
    assert_eq!(User::from_row(&row), Err(Fault { column: 5, kind: FaultKind::MissingColumn }));
    assert_eq!(User::from_row(&Vec::new()), Err(Fault { column: 0, kind: FaultKind::MissingColumn }));
}

#[test]
fn cells_beyond_the_select_list_are_not_read() {
    let mut row = vec![t("u-6"), t("ed@example.com"), t("Ed"), Cell::Null, Cell::Null, t("c"), t("d")];
    row.push(Cell::Blob(vec![0]));
    assert_eq!(User::from_row(&row).unwrap().id, "u-6");
}

#[test]
fn a_product_row() {
    let row = vec![
        t("p-1"),
        t("Parka"),
        t("PK-01"),
        Cell::Null,
        t("AW24"),
        Cell::Null,
        t("active"),
        t("sampling"),
        Cell::Real(12.25f64.to_bits()),
        t("high"),
        t("c"),
        t("d"),
    ];
    assert_eq!(
        Product::from_row(&row),
        Ok(Product {
            id: s("p-1"),
            name: s("Parka"),
            sku: Some(s("PK-01")),
            category: None,
            season: Some(s("AW24")),
            designer: None,
            status: s("active"),
            development_stage: s("sampling"),
            actual_hours: Some(Amount::Bits(12.25f64.to_bits())),
            priority: s("high"),
            created_at: s("c"),
            updated_at: s("d"),
        })
    );
}

#[test]
fn product_hours_stored_as_an_integer_stay_whole() {
    let mut row = vec![
        t("p-1"),
        t("Parka"),
        Cell::Null,
        Cell::Null,
        Cell::Null,
        Cell::Null,
        t("active"),
        t("sampling"),
        Cell::Integer(40),
        t("high"),
        t("c"),
        t("d"),
    ];
    assert_eq!(Product::from_row(&row).unwrap().actual_hours, Some(Amount::Whole(40)));
    row[8] = t("forty");
    assert_eq!(Product::from_row(&row).unwrap().actual_hours, None);
    row[8] = Cell::Null;
    assert_eq!(Product::from_row(&row).unwrap().actual_hours, None);
    row[9] = Cell::Null;
    assert_eq!(
        Product::from_row(&row),
        Err(Fault { column: 9, kind: FaultKind::WrongType(StorageClass::Null) })
    );
}

#[test]
fn an_order_row() {
    assert_eq!(
        Order::from_row(&order_row()),
        Ok(Order {
            id: s("o-1"),
            orderNumber: s("SO-1001"),
            productId: s("p-9"),
            quantity: 12,
            status: s("open"),
            totalValue: Amount::Bits(1999.5f64.to_bits()),
            customerName: s("Acme"),
            productType: s("jacket"),
            assignedTo: s("u-1"),
            validDate: 1700000000000,
            createdAt: 1690000000000,
            updatedAt: 1695000000000,
        })
    );
}

#[test]
fn every_column_of_an_order_is_required() {
    for column in 0..12 {
        let mut row = order_row();
        row[column] = Cell::Null;
        assert_eq!(
            Order::from_row(&row),
            Err(Fault { column, kind: FaultKind::WrongType(StorageClass::Null) })
        );
    }
}

#[test]
fn an_order_quantity_must_fit_in_32_bits() {
    let mut row = order_row();
    row[3] = Cell::Integer(2147483647);
    assert_eq!(Order::from_row(&row).unwrap().quantity, 2147483647);
    row[3] = Cell::Integer(2147483648);
    assert_eq!(
        Order::from_row(&row),
        Err(Fault { column: 3, kind: FaultKind::OutOfRange(2147483648) })
    );
    row[3] = Cell::Integer(-2147483648);
    assert_eq!(Order::from_row(&row).unwrap().quantity, -2147483648);
}

#[test]
fn an_order_date_stored_as_text_gives_the_row_up() {
    let mut row = order_row();
    row[9] = t("2024-01-02");
    row[10] = Cell::Null;
    assert_eq!(
        Order::from_row(&row),
        Err(Fault { column: 9, kind: FaultKind::WrongType(StorageClass::Text) })
    );
}

#[test]
fn an_order_total_stored_as_an_integer() {
    let mut row = order_row();
    row[5] = Cell::Integer(2000);
    assert_eq!(Order::from_row(&row).unwrap().totalValue, Amount::Whole(2000));
}

#[test]
fn a_sample_row() {
    let row = vec![
        t("s-1"),
        t("p-1"),
        t("proto"),
        t("approved"),
        t("tight collar"),
        Cell::Integer(3),
        Cell::Null,
        t("u-2"),
        t("c"),
    ];
    assert_eq!(
        Sample::from_row(&row),
        Ok(Sample {
            id: s("s-1"),
            product_id: s("p-1"),
            type_: s("proto"),
            status: s("approved"),
            notes: Some(s("tight collar")),
            version: Some(3),
            feedback: None,
            approved_by: Some(s("u-2")),
            created_at: s("c"),
        })
    );
}

#[test]
fn a_design_file_row() {
    let row = vec![
        t("f-1"),
        t("p-1"),
        t("front.svg"),
        t("svg"),
        t("https://files.example/front.svg"),
        Cell::Integer(2),
        Cell::Integer(1),
        Cell::Null,
        t("c"),
    ];
    assert_eq!(
        DesignFile::from_row(&row),
        Ok(DesignFile {
            id: s("f-1"),
            product_id: s("p-1"),
            file_name: s("front.svg"),
            file_type: Some(s("svg")),
            url: Some(s("https://files.example/front.svg")),
            version: Some(2),
            is_latest: Some(true),
            uploaded_by: None,
            uploaded_at: s("c"),
        })
    );
}

#[test]
fn a_design_file_flag_is_read_from_integers_alone() {
    let mut row = vec![
        t("f-1"),
        t("p-1"),
        t("front.svg"),
        Cell::Null,
        Cell::Null,
        Cell::Null,
        Cell::Integer(0),
        Cell::Null,
        t("c"),
    ];
    assert_eq!(DesignFile::from_row(&row).unwrap().is_latest, Some(false));
    row[6] = Cell::Integer(5);
    assert_eq!(DesignFile::from_row(&row).unwrap().is_latest, Some(true));
    row[6] = t("true");
    assert_eq!(DesignFile::from_row(&row).unwrap().is_latest, None);
    row[6] = Cell::Null;
    assert_eq!(DesignFile::from_row(&row).unwrap().is_latest, None);
}

#[test]
fn a_costing_sheet_row() {
    let row = vec![
        t("c-1"),
        t("Parka AW24"),
        Cell::Real(0.35f64.to_bits()),
        t("EUR"),
        t("{\"fabric\":12}"),
        t("{\"vat\":19}"),
        t("c"),
        t("d"),
    ];
    assert_eq!(
        CostingSheet::from_row(&row),
        Ok(CostingSheet {
            id: s("c-1"),
            name: s("Parka AW24"),
            profit_margin: Amount::Bits(0.35f64.to_bits()),
            selected_currency: s("EUR"),
            cost_breakdown: s("{\"fabric\":12}"),
            tax_config: s("{\"vat\":19}"),
            created_at: s("c"),
            updated_at: s("d"),
        })
    );
}

#[test]
fn a_production_plan_row() {
    let row = vec![
        t("pp-1"),
        t("Parka"),
        Cell::Integer(500),
        t("2024-03-01"),
        t("2024-04-01"),
        t("running"),
        Cell::Integer(40),
        Cell::Integer(12),
        Cell::Integer(900),
        Cell::Integer(410),
        t("high"),
        t("c"),
        t("d"),
    ];
    assert_eq!(
        ProductionPlan::from_row(&row),
        Ok(ProductionPlan {
            id: s("pp-1"),
            product_name: s("Parka"),
            quantity: 500,
            start_date: s("2024-03-01"),
            end_date: s("2024-04-01"),
            status: s("running"),
            progress: 40,
            assigned_workers: 12,
            estimated_hours: 900,
            actual_hours: 410,
            priority: s("high"),
            created_at: s("c"),
            updated_at: s("d"),
        })
    );
}

#[test]
fn plan_hours_stored_as_a_real_give_the_row_up() {
    let row = vec![
        t("pp-1"),
        t("Parka"),
        Cell::Integer(500),
        t("2024-03-01"),
        t("2024-04-01"),
        t("running"),
        Cell::Integer(40),
        Cell::Integer(12),
        Cell::Real(900.5f64.to_bits()),
        Cell::Integer(410),
        t("high"),
        t("c"),
        t("d"),
    ];
    assert_eq!(
        ProductionPlan::from_row(&row),
        Err(Fault { column: 8, kind: FaultKind::WrongType(StorageClass::Real) })
    );
}

#[test]
fn a_resource_row() {
    let row = vec![
        t("r-1"),
        t("Line A"),
        t("sewing"),
        Cell::Integer(100),
        Cell::Integer(60),
        Cell::Integer(40),
        Cell::Integer(87),
        t("c"),
        t("d"),
    ];
    assert_eq!(
        Resource::from_row(&row),
        Ok(Resource {
            id: s("r-1"),
            name: s("Line A"),
            type_: s("sewing"),
            capacity: 100,
            allocated: 60,
            available: 40,
            efficiency: 87,
            created_at: s("c"),
            updated_at: s("d"),
        })
    );
}

#[test]
fn an_inventory_item_row() {
    let row = vec![
        t("i-1"),
        t("Zipper 20cm"),
        t("trims"),
        Cell::Integer(1200),
        Cell::Integer(200),
        Cell::Integer(5000),
        t("pcs"),
        Cell::Real(0.12f64.to_bits()),
        Cell::Integer(144),
        t("A-03"),
        t("2024-05-01"),
        Cell::Null,
        t("c"),
        t("d"),
    ];
    assert_eq!(
        InventoryItem::from_row(&row),
        Ok(InventoryItem {
            id: s("i-1"),
            name: s("Zipper 20cm"),
            category: s("trims"),
            current_stock: 1200,
            min_stock: 200,
            max_stock: 5000,
            unit: s("pcs"),
            unit_cost: Amount::Bits(0.12f64.to_bits()),
            total_value: Amount::Whole(144),
            location: s("A-03"),
            last_updated: s("2024-05-01"),
            supplier: None,
            created_at: s("c"),
            updated_at: s("d"),
        })
    );
}

#[test]
fn an_inventory_history_row() {
    let row = vec![
        t("h-1"),
        t("i-1"),
        t("issue"),
        Cell::Integer(-50),
        Cell::Integer(1250),
        Cell::Integer(1200),
        t("line A"),
        Cell::Null,
        t("c"),
    ];
    assert_eq!(
        InventoryHistory::from_row(&row),
        Ok(InventoryHistory {
            id: s("h-1"),
            item_id: s("i-1"),
            action: s("issue"),
            quantity_change: -50,
            previous_stock: 1250,
            new_stock: 1200,
            note: Some(s("line A")),
            user: None,
            created_at: s("c"),
        })
    );
}

#[test]
fn an_inventory_reorder_row() {
    let row = vec![
        t("ro-1"),
        t("i-1"),
        Cell::Integer(3000),
        t("YKK"),
        t("placed"),
        Cell::Null,
        t("u-1"),
        t("c"),
    ];
    assert_eq!(
        InventoryReorder::from_row(&row),
        Ok(InventoryReorder {
            id: s("ro-1"),
            item_id: s("i-1"),
            quantity: 3000,
            supplier: Some(s("YKK")),
            status: s("placed"),
            note: None,
            user: Some(s("u-1")),
            created_at: s("c"),
        })
    );
}

#[test]
fn each_record_type_names_its_entity() {
    assert_eq!(User::entity_tag(), Entity::User);
    assert_eq!(Product::entity_tag(), Entity::Product);
    assert_eq!(Order::entity_tag(), Entity::Order);
    assert_eq!(Sample::entity_tag(), Entity::Sample);
    assert_eq!(DesignFile::entity_tag(), Entity::DesignFile);
    assert_eq!(CostingSheet::entity_tag(), Entity::CostingSheet);
    assert_eq!(ProductionPlan::entity_tag(), Entity::ProductionPlan);
    assert_eq!(Resource::entity_tag(), Entity::Resource);
    assert_eq!(InventoryItem::entity_tag(), Entity::InventoryItem);
    assert_eq!(InventoryHistory::entity_tag(), Entity::InventoryHistory);
    assert_eq!(InventoryReorder::entity_tag(), Entity::InventoryReorder);
}
