use learning_rust::error::ApiError;
use learning_rust::product::{
    check_new_product, check_update, create_product_statement, delete_product_statement,
    find_product_statement, found_product, merge_product, product_conditions, product_deleted,
    product_list_statement, update_product_statement, CreateProduct, Product, ProductFilter,
    Timestamp, UpdateProduct, FIND_PRODUCT, INSERT_PRODUCT, UPDATE_PRODUCT,
};
use learning_rust::query::SqlValue;

fn sample(id: u128) -> Product {
    Product {
        id,
        name: "Kopi".to_string(),
        description: Some("Arabica".to_string()),
        price: 2500,
        stock: 10,
        category: Some("drinks".to_string()),
        is_active: true,
        created_at: Timestamp { seconds: 100, nanos: 0 },
        updated_at: Timestamp { seconds: 100, nanos: 0 },
    }
}

fn no_update() -> UpdateProduct {
    UpdateProduct { name: None, description: None, price: None, stock: None, category: None, is_active: None }
}

#[test]
fn empty_filter_lists_everything_in_name_order() {
    let st = product_list_statement(&ProductFilter::new());
    assert_eq!(
        st.sql,
        "SELECT id, name, description, price, stock, category, is_active, created_at, updated_at FROM products WHERE 1=1 ORDER BY name ASC"
    );
    assert!(st.params.is_empty());
}

#[test]
fn every_filter_field_is_bound_in_order() {
    let f = ProductFilter {
        name: Some("kop".to_string()),
        category: Some("drinks".to_string()),
        min_price: Some(100),
        max_price: Some(5000),
        is_active: Some(true),
        limit: Some(20),
        offset: Some(40),
    };
    let st = product_list_statement(&f);
    assert_eq!(
        st.sql,
        "SELECT id, name, description, price, stock, category, is_active, created_at, updated_at FROM products WHERE 1=1 AND name ILIKE $1 AND category = $2 AND price >= $3 AND price <= $4 AND is_active = $5 ORDER BY name ASC LIMIT $6 OFFSET $7"
    );
    assert_eq!(
        st.params,
        vec![
            SqlValue::Text("%kop%".to_string()),
            SqlValue::Text("drinks".to_string()),
            SqlValue::Price(100),
            SqlValue::Price(5000),
            SqlValue::Bool(true),
            SqlValue::BigInt(20),
            SqlValue::BigInt(40),
        ]
    );
}

#[test]
fn user_input_never_enters_the_sql_text() {
    let mut f = ProductFilter::new();
    f.name = Some("'; DROP TABLE products; --".to_string());
    let st = product_list_statement(&f);
    assert!(!st.sql.contains("DROP"));
    assert_eq!(st.params, vec![SqlValue::Text("%'; DROP TABLE products; --%".to_string())]);
}

#[test]
fn offset_without_limit_takes_the_next_placeholder() {
    let mut f = ProductFilter::new();
    f.offset = Some(5);
    let st = product_list_statement(&f);
    assert!(st.sql.ends_with("ORDER BY name ASC OFFSET $1"));
    assert_eq!(st.params, vec![SqlValue::BigInt(5)]);
}

#[test]
fn price_bounds_only_add_conditions() {
    let mut wide = ProductFilter::new();
    wide.category = Some("drinks".to_string());
    wide.is_active = Some(false);
    let mut narrow = ProductFilter::new();
    narrow.category = Some("drinks".to_string());
    narrow.is_active = Some(false);
    narrow.min_price = Some(100);
    narrow.max_price = Some(900);
    let w = product_conditions(&wide);
    let n = product_conditions(&narrow);
    assert_eq!(w.len(), 2);
    assert_eq!(n.len(), 4);
    for c in &w {
        assert!(n.contains(c));
    }
}

#[test]
fn negative_price_is_refused_before_any_statement() {
    let p = CreateProduct {
        name: "Teh".to_string(),
        description: None,
        price: -1,
        stock: None,
        category: None,
    };
    assert_eq!(
        create_product_statement(&p),
        Err(ApiError::BadRequest("Price cannot be negative".to_string()))
    );
}

#[test]
fn domain_rules_for_new_products() {
    let mut p = CreateProduct { name: "".to_string(), description: None, price: 0, stock: None, category: None };
    assert_eq!(check_new_product(&p), Err(ApiError::BadRequest("Name cannot be empty".to_string())));
    p.name = "Teh".to_string();
    p.stock = Some(-3);
    assert_eq!(check_new_product(&p), Err(ApiError::BadRequest("Stock cannot be negative".to_string())));
    p.stock = Some(0);
    assert_eq!(check_new_product(&p), Ok(()));
}

#[test]
fn updates_are_checked_on_the_fields_they_set() {
    let mut u = no_update();
    assert_eq!(check_update(&u), Ok(()));
    u.price = Some(-5);
    assert_eq!(check_update(&u), Err(ApiError::BadRequest("Price cannot be negative".to_string())));
}

#[test]
fn insert_binds_the_given_fields_and_defaults_stock() {
    let p = CreateProduct {
        name: "Teh".to_string(),
        description: Some("Hijau".to_string()),
        price: 1500,
        stock: None,
        category: Some("drinks".to_string()),
    };
    let st = create_product_statement(&p).unwrap();
    assert_eq!(st.sql, INSERT_PRODUCT);
    assert_eq!(
        st.params,
        vec![
            SqlValue::Text("Teh".to_string()),
            SqlValue::OptText(Some("Hijau".to_string())),
            SqlValue::Price(1500),
            SqlValue::Int(0),
            SqlValue::OptText(Some("drinks".to_string())),
        ]
    );
}

#[test]
fn merge_replaces_only_given_fields() {
    let current = sample(7);
    let mut u = no_update();
    u.price = Some(3000);
    u.category = Some("coffee".to_string());
    let m = merge_product(&current, &u);
    assert_eq!(m.price, 3000);
    assert_eq!(m.category, Some("coffee".to_string()));
    assert_eq!(m.name, "Kopi");
    assert_eq!(m.description, Some("Arabica".to_string()));
    assert_eq!(m.stock, 10);
    assert!(m.is_active);
    assert_eq!(m.id, 7);
}

#[test]
fn serialized_updates_keep_both_writes() {
    let base = sample(7);
    let mut first = no_update();
    first.price = Some(3000);
    let mut second = no_update();
    second.stock = Some(4);
    let after_first = merge_product(&base, &first);
    let after_second = merge_product(&after_first, &second);
    assert_eq!(after_second.price, 3000);
    assert_eq!(after_second.stock, 4);
}

#[test]
fn write_back_binds_every_field_and_the_id() {
    let st = update_product_statement(&sample(9));
    assert_eq!(st.sql, UPDATE_PRODUCT);
    assert_eq!(st.params.len(), 7);
    assert_eq!(st.params[6], SqlValue::Id(9));
    assert_eq!(st.params[2], SqlValue::Price(2500));
}

#[test]
fn reads_and_deletes_bind_the_id() {
    let st = find_product_statement(42);
    assert_eq!(st.sql, FIND_PRODUCT);
    assert_eq!(st.params, vec![SqlValue::Id(42)]);
    let st = delete_product_statement(42);
    assert_eq!(st.sql, "DELETE FROM products WHERE id = $1");
}

#[test]
fn deleting_a_missing_product_is_not_found() {
    assert_eq!(
        product_deleted(0, 42),
        Err(ApiError::NotFound("Product with ID 00000000-0000-0000-0000-00000000002a not found".to_string()))
    );
    assert_eq!(product_deleted(1, 42), Ok(()));
}

#[test]
fn reading_a_missing_product_is_not_found() {
    assert_eq!(
        found_product(None, 0xa1a2a3a4b1b2c1c2d1d2d3d4d5d6d7d8),
        Err(ApiError::NotFound("Product with ID a1a2a3a4-b1b2-c1c2-d1d2-d3d4d5d6d7d8 not found".to_string()))
    );
    assert_eq!(found_product(Some(sample(1)), 1), Ok(sample(1)));
}

#[test]
fn name_filter_matches_wildcards_literally() {
    let mut f = ProductFilter::new();
    f.name = Some("50%_off\\".to_string());
    let st = product_list_statement(&f);
    assert_eq!(st.params, vec![SqlValue::Text("%50\\%\\_off\\\\%".to_string())]);
}
