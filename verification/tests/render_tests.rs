use recipe_service::model::{
    render_categories, render_category_line, render_ingredient_line, render_ingredients,
    render_recipe_line, render_recipes, Category, Ingredient, Recipe,
};

#[test]
fn category_line_has_fixed_field_order() {
    let c = Category { id: 1, name: String::from("Desserts") };
    assert_eq!(render_category_line(&c), "id: 1, name: Desserts\n");
}

#[test]
fn ingredient_line_has_fixed_field_order() {
    let i = Ingredient { id: 3, name: String::from("Sugar") };
    assert_eq!(render_ingredient_line(&i), "id: 3, name: Sugar\n");
}

#[test]
fn recipe_line_has_fixed_field_order() {
    let r = Recipe {
        id: 1,
        name: String::from("Cake"),
        description: String::from("Sweet"),
        category_id: 1,
    };
    assert_eq!(
        render_recipe_line(&r),
        "id: 1, name: Cake, description: Sweet, category_id: 1\n"
    );
}

#[test]
fn empty_listings_render_as_empty_text() {
    assert_eq!(render_categories(&Vec::new()), "");
    assert_eq!(render_ingredients(&Vec::new()), "");
    assert_eq!(render_recipes(&Vec::new()), "");
}

#[test]
fn listings_render_one_line_per_row_in_order() {
    let rows = vec![
        Category { id: 1, name: String::from("Desserts") },
        Category { id: 2, name: String::from("Soups") },
    ];
    assert_eq!(
        render_categories(&rows),
        "id: 1, name: Desserts\nid: 2, name: Soups\n"
    );
}

#[test]
fn negative_ids_render_in_lines() {
    let c = Category { id: -4, name: String::from("Odd") };
    assert_eq!(render_category_line(&c), "id: -4, name: Odd\n");
}
