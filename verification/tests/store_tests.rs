use recipe_service::handler::{STATUS_BAD_REQUEST, STATUS_OK};
use recipe_service::model::{CategoryData, IngredientData, RecipeData};
use recipe_service::store::Store;

#[test]
fn created_category_appears_in_a_subsequent_listing() {
    let mut store = Store::new();
    let before = store.handle_list_categories();
    let resp = store.handle_create_category(Some(CategoryData { name: String::from("Desserts") }));
    assert_eq!(resp.status, STATUS_OK);
    let after = store.handle_list_categories();
    assert!(!before.body.contains("name: Desserts"));
    assert!(after.body.contains("id: 1, name: Desserts"));
}

#[test]
fn created_ingredient_appears_in_a_subsequent_listing() {
    let mut store = Store::new();
    let resp = store.handle_create_ingredient(Some(IngredientData { name: String::from("Sugar") }));
    assert_eq!(resp.status, STATUS_OK);
    assert_eq!(resp.body, "Ingredient created successfully");
    let after = store.handle_list_ingredients();
    assert_eq!(after.body, "id: 1, name: Sugar\n");
}

#[test]
fn serialized_creates_assign_distinct_fresh_ids() {
    let mut store = Store::new();
    let first = store.insert_category(String::from("Desserts"));
    let second = store.insert_category(String::from("Desserts"));
    let third = store.insert_category(String::from("Soups"));
    assert_ne!(first, second);
    assert_ne!(first, third);
    assert_ne!(second, third);
    assert!(first >= 1 && second >= 1 && third >= 1);
}

#[test]
fn listing_an_empty_store_is_ok_with_empty_body() {
    let store = Store::new();
    let categories = store.handle_list_categories();
    assert_eq!(categories.status, STATUS_OK);
    assert_eq!(categories.body, "");
    let ingredients = store.handle_list_ingredients();
    assert_eq!(ingredients.status, STATUS_OK);
    assert_eq!(ingredients.body, "");
    let recipes = store.handle_list_recipes();
    assert_eq!(recipes.status, STATUS_OK);
    assert_eq!(recipes.body, "");
}

#[test]
fn a_create_without_its_required_field_is_a_client_error_and_mutates_nothing() {
    let mut store = Store::new();
    let resp = store.handle_create_category(None);
    assert_eq!(resp.status, STATUS_BAD_REQUEST);
    assert_eq!(resp.body, "Bad request: a required field is missing");
    let resp = store.handle_create_ingredient(None);
    assert_eq!(resp.status, STATUS_BAD_REQUEST);
    let resp = store.handle_create_recipe(None);
    assert_eq!(resp.status, STATUS_BAD_REQUEST);
    assert_eq!(store.handle_list_categories().body, "");
    assert_eq!(store.handle_list_ingredients().body, "");
    assert_eq!(store.handle_list_recipes().body, "");
}

#[test]
fn category_round_trip_scenario() {
    let mut store = Store::new();
    let created = store.handle_create_category(
        Some(CategoryData { name: String::from("Desserts") }),
    );
    assert_eq!(created.status, 200);
    assert_eq!(created.body, "Category created successfully");
    let listed = store.handle_list_categories();
    assert_eq!(listed.status, 200);
    assert!(listed.body.contains("id: 1, name: Desserts"));
}

#[test]
fn recipe_create_succeeds_without_a_matching_category() {
    // This schema enforces no foreign-key constraint on category_id, so a
    // recipe referencing an absent category is stored as given.
    let mut store = Store::new();
    assert_eq!(store.handle_list_categories().body, "");
    let created = store.handle_create_recipe(Some(RecipeData {
        name: String::from("Cake"),
        description: String::from("Sweet"),
        category_id: 1,
    }));
    assert_eq!(created.status, 200);
    assert_eq!(created.body, "Recipe created successfully");
    let listed = store.handle_list_recipes();
    assert_eq!(
        listed.body,
        "id: 1, name: Cake, description: Sweet, category_id: 1\n"
    );
}

#[test]
fn creates_on_one_resource_do_not_touch_the_others() {
    let mut store = Store::new();
    store.handle_create_category(Some(CategoryData { name: String::from("Desserts") }));
    assert_eq!(store.handle_list_ingredients().body, "");
    assert_eq!(store.handle_list_recipes().body, "");
    store.handle_create_ingredient(Some(IngredientData { name: String::from("Sugar") }));
    assert_eq!(store.handle_list_categories().body, "id: 1, name: Desserts\n");
    assert_eq!(store.handle_list_recipes().body, "");
}

#[test]
fn each_table_assigns_its_own_ids_from_one() {
    let mut store = Store::new();
    let category = store.insert_category(String::from("Desserts"));
    let ingredient = store.insert_ingredient(String::from("Sugar"));
    let recipe = store.insert_recipe(String::from("Cake"), String::from("Sweet"), category);
    assert_eq!(category, 1);
    assert_eq!(ingredient, 1);
    assert_eq!(recipe, 1);
}
