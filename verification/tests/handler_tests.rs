use recipe_service::handler::{
    create_category_response, create_ingredient_response, create_recipe_response,
    list_categories_response, list_ingredients_response, list_recipes_response, wrap_db_error,
    MyError, STATUS_INTERNAL_ERROR, STATUS_OK,
};
use recipe_service::model::{Category, Ingredient, Recipe};

#[test]
fn listing_an_empty_table_is_ok_with_empty_body() {
    let resp = list_categories_response(Ok(Vec::new()));
    assert_eq!(resp.status, STATUS_OK);
    assert_eq!(resp.body, "");
    let resp = list_ingredients_response(Ok(Vec::new()));
    assert_eq!(resp.status, STATUS_OK);
    assert_eq!(resp.body, "");
    let resp = list_recipes_response(Ok(Vec::new()));
    assert_eq!(resp.status, STATUS_OK);
    assert_eq!(resp.body, "");
}

#[test]
fn listing_renders_rows_as_lines() {
    let rows = vec![
        Category { id: 1, name: String::from("Desserts") },
        Category { id: 2, name: String::from("Soups") },
    ];
    let resp = list_categories_response(Ok(rows));
    assert_eq!(resp.status, STATUS_OK);
    assert_eq!(resp.body, "id: 1, name: Desserts\nid: 2, name: Soups\n");
}

#[test]
fn listing_recipes_renders_all_fields() {
    let rows = vec![Recipe {
        id: 9,
        name: String::from("Cake"),
        description: String::from("Sweet"),
        category_id: 2,
    }];
    let resp = list_recipes_response(Ok(rows));
    assert_eq!(resp.status, STATUS_OK);
    assert_eq!(
        resp.body,
        "id: 9, name: Cake, description: Sweet, category_id: 2\n"
    );
}

#[test]
fn storage_failure_on_list_is_a_server_error_with_the_failure_text() {
    let resp = list_categories_response(Err(wrap_db_error("connection refused")));
    assert_eq!(resp.status, STATUS_INTERNAL_ERROR);
    assert_eq!(resp.body, "Database error: connection refused");
    assert!(resp.body.contains("connection refused"));
    let resp = list_ingredients_response(Err(wrap_db_error("relation missing")));
    assert_eq!(resp.status, STATUS_INTERNAL_ERROR);
    assert!(resp.body.contains("relation missing"));
    let resp = list_recipes_response(Err(wrap_db_error("timeout")));
    assert_eq!(resp.status, STATUS_INTERNAL_ERROR);
    assert!(resp.body.contains("timeout"));
}

#[test]
fn successful_creates_confirm_with_fixed_texts() {
    let resp = create_category_response(Ok(1));
    assert_eq!(resp.status, STATUS_OK);
    assert_eq!(resp.body, "Category created successfully");
    let resp = create_ingredient_response(Ok(1));
    assert_eq!(resp.status, STATUS_OK);
    assert_eq!(resp.body, "Ingredient created successfully");
    let resp = create_recipe_response(Ok(1));
    assert_eq!(resp.status, STATUS_OK);
    assert_eq!(resp.body, "Recipe created successfully");
}

#[test]
fn storage_failure_on_create_is_a_server_error_with_the_failure_text() {
    let resp = create_category_response(Err(wrap_db_error("constraint violated")));
    assert_eq!(resp.status, STATUS_INTERNAL_ERROR);
    assert_eq!(resp.body, "Database error: constraint violated");
    let resp = create_ingredient_response(Err(wrap_db_error("disk full")));
    assert_eq!(resp.status, STATUS_INTERNAL_ERROR);
    assert!(resp.body.contains("disk full"));
    let resp = create_recipe_response(Err(wrap_db_error("connection reset")));
    assert_eq!(resp.status, STATUS_INTERNAL_ERROR);
    assert!(resp.body.contains("connection reset"));
}

#[test]
fn error_message_carries_the_wrapping_and_the_detail() {
    let e = wrap_db_error("no such table");
    assert_eq!(e.message(), "Database error: no such table");
    let plain = MyError(String::from("anything"));
    assert_eq!(plain.message(), "anything");
}
