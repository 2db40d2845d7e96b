//! The three row kinds the service stores — categories, ingredients and
//! recipes — their mathematical values, the payloads of create requests,
//! and the plain-text rendering of listings.

use vstd::prelude::*;
use vstd::string::StringExecFns;
use crate::text::{int_text, i32_text};

verus! {

/// A category row: a generated id and a name.
pub struct Category {
    pub id: i32,
    pub name: String,
}

/// An ingredient row: a generated id and a name.
pub struct Ingredient {
    pub id: i32,
    pub name: String,
}

/// A recipe row: a generated id, a name, a description, and a reference
/// to a category id (not validated by this layer).
pub struct Recipe {
    pub id: i32,
    pub name: String,
    pub description: String,
    pub category_id: i32,
}

/// The mathematical value of a category row.
pub ghost struct CategoryV {
    pub id: int,
    pub name: Seq<char>,
}

/// The mathematical value of an ingredient row.
pub ghost struct IngredientV {
    pub id: int,
    pub name: Seq<char>,
}

/// The mathematical value of a recipe row.
pub ghost struct RecipeV {
    pub id: int,
    pub name: Seq<char>,
    pub description: Seq<char>,
    pub category_id: int,
}

impl View for Category {
    type V = CategoryV;

    open spec fn view(&self) -> CategoryV {
        CategoryV { id: self.id as int, name: self.name@ }
    }
}

impl View for Ingredient {
    type V = IngredientV;

    open spec fn view(&self) -> IngredientV {
        IngredientV { id: self.id as int, name: self.name@ }
    }
}

impl View for Recipe {
    type V = RecipeV;

    open spec fn view(&self) -> RecipeV {
        RecipeV {
            id: self.id as int,
            name: self.name@,
            description: self.description@,
            category_id: self.category_id as int,
        }
    }
}

/// The payload of a category create request: every field required,
/// the id being assigned by the storage layer.
pub struct CategoryData {
    pub name: String,
}

/// The payload of an ingredient create request.
pub struct IngredientData {
    pub name: String,
}

/// The payload of a recipe create request.
pub struct RecipeData {
    pub name: String,
    pub description: String,
    pub category_id: i32,
}

/// The listed line of a row that has an id and a name.
pub open spec fn named_row_line(id: int, name: Seq<char>) -> Seq<char> {
    "id: "@ + int_text(id) + ", name: "@ + name + "\n"@
}

/// The listed line of a category row.
pub open spec fn category_line(c: CategoryV) -> Seq<char> {
    named_row_line(c.id, c.name)
}

/// The listed line of an ingredient row.
pub open spec fn ingredient_line(i: IngredientV) -> Seq<char> {
    named_row_line(i.id, i.name)
}

/// The listed line of a recipe row.
pub open spec fn recipe_line(r: RecipeV) -> Seq<char> {
    "id: "@ + int_text(r.id) + ", name: "@ + r.name + ", description: "@ + r.description
        + ", category_id: "@ + int_text(r.category_id) + "\n"@
}

/// The concatenation of a sequence of lines, in order.
pub open spec fn joined(lines: Seq<Seq<char>>) -> Seq<char>
    decreases lines.len(),
{
    if lines.len() == 0 {
        Seq::empty()
    } else {
        joined(lines.drop_last()) + lines.last()
    }
}

/// The full listing text of a sequence of category rows.
pub open spec fn categories_text(rows: Seq<CategoryV>) -> Seq<char> {
    joined(rows.map_values(|c: CategoryV| category_line(c)))
}

/// The full listing text of a sequence of ingredient rows.
pub open spec fn ingredients_text(rows: Seq<IngredientV>) -> Seq<char> {
    joined(rows.map_values(|i: IngredientV| ingredient_line(i)))
}

/// The full listing text of a sequence of recipe rows.
pub open spec fn recipes_text(rows: Seq<RecipeV>) -> Seq<char> {
    joined(rows.map_values(|r: RecipeV| recipe_line(r)))
}

/// Appending one line to a joined listing extends the text by that line.
proof fn lemma_joined_push(lines: Seq<Seq<char>>, line: Seq<char>)
    ensures
        joined(lines.push(line)) == joined(lines) + line,
{
    assert(lines.push(line).drop_last() =~= lines);
    assert(lines.push(line).last() == line);
}

/// Renders one category row as its listed line.
pub fn render_category_line(c: &Category) -> (r: String)
    ensures
        r@ == category_line(c@),
{
    let mut r = String::from_str("id: ");
    let id_text = i32_text(c.id);
    r.append(id_text.as_str());
    r.append(", name: ");
    r.append(c.name.as_str());
    r.append("\n");
    proof {
        assert(r@ =~= category_line(c@));
    }
    r
}

/// Renders one ingredient row as its listed line.
pub fn render_ingredient_line(i: &Ingredient) -> (r: String)
    ensures
        r@ == ingredient_line(i@),
{
    let mut r = String::from_str("id: ");
    let id_text = i32_text(i.id);
    r.append(id_text.as_str());
    r.append(", name: ");
    r.append(i.name.as_str());
    r.append("\n");
    proof {
        assert(r@ =~= ingredient_line(i@));
    }
    r
}

/// Renders one recipe row as its listed line.
pub fn render_recipe_line(rec: &Recipe) -> (r: String)
    ensures
        r@ == recipe_line(rec@),
{
    let mut r = String::from_str("id: ");
    let id_text = i32_text(rec.id);
    r.append(id_text.as_str());
    r.append(", name: ");
    r.append(rec.name.as_str());
    r.append(", description: ");
    r.append(rec.description.as_str());
    r.append(", category_id: ");
    let cat_text = i32_text(rec.category_id);
    r.append(cat_text.as_str());
    r.append("\n");
    proof {
        assert(r@ =~= recipe_line(rec@));
    }
    r
}

/// Renders a listing of category rows, one line per row, in order.
/// An empty listing is the empty text.
pub fn render_categories(rows: &Vec<Category>) -> (r: String)
    ensures
        r@ == categories_text(rows@.map_values(|c: Category| c@)),
        rows@.len() == 0 ==> r@ == Seq::<char>::empty(),
{
    let ghost all_lines = rows@.map_values(|c: Category| c@).map_values(
        |v: CategoryV| category_line(v),
    );
    let mut r = String::new();
    let mut i: usize = 0;
    while i < rows.len()
        invariant
            i <= rows@.len(),
            all_lines == rows@.map_values(|c: Category| c@).map_values(
                |v: CategoryV| category_line(v),
            ),
            r@ == joined(all_lines.take(i as int)),
        decreases rows@.len() - i,
    {
        let line = render_category_line(&rows[i]);
        r.append(line.as_str());
        proof {
            assert(all_lines.take(i + 1) =~= all_lines.take(i as int).push(all_lines[i as int]));
            lemma_joined_push(all_lines.take(i as int), all_lines[i as int]);
        }
        i += 1;
    }
    proof {
        assert(all_lines.take(rows@.len() as int) =~= all_lines);
    }
    r
}

/// Renders a listing of ingredient rows, one line per row, in order.
/// An empty listing is the empty text.
pub fn render_ingredients(rows: &Vec<Ingredient>) -> (r: String)
    ensures
        r@ == ingredients_text(rows@.map_values(|i: Ingredient| i@)),
        rows@.len() == 0 ==> r@ == Seq::<char>::empty(),
{
    let ghost all_lines = rows@.map_values(|i: Ingredient| i@).map_values(
        |v: IngredientV| ingredient_line(v),
    );
    let mut r = String::new();
    let mut i: usize = 0;
    while i < rows.len()
        invariant
            i <= rows@.len(),
            all_lines == rows@.map_values(|i: Ingredient| i@).map_values(
                |v: IngredientV| ingredient_line(v),
            ),
            r@ == joined(all_lines.take(i as int)),
        decreases rows@.len() - i,
    {
        let line = render_ingredient_line(&rows[i]);
        r.append(line.as_str());
        proof {
            assert(all_lines.take(i + 1) =~= all_lines.take(i as int).push(all_lines[i as int]));
            lemma_joined_push(all_lines.take(i as int), all_lines[i as int]);
        }
        i += 1;
    }
    proof {
        assert(all_lines.take(rows@.len() as int) =~= all_lines);
    }
    r
}

/// Renders a listing of recipe rows, one line per row, in order.
/// An empty listing is the empty text.
pub fn render_recipes(rows: &Vec<Recipe>) -> (r: String)
    ensures
        r@ == recipes_text(rows@.map_values(|rec: Recipe| rec@)),
        rows@.len() == 0 ==> r@ == Seq::<char>::empty(),
{
    let ghost all_lines = rows@.map_values(|rec: Recipe| rec@).map_values(
        |v: RecipeV| recipe_line(v),
    );
    let mut r = String::new();
    let mut i: usize = 0;
    while i < rows.len()
        invariant
            i <= rows@.len(),
            all_lines == rows@.map_values(|rec: Recipe| rec@).map_values(
                |v: RecipeV| recipe_line(v),
            ),
            r@ == joined(all_lines.take(i as int)),
        decreases rows@.len() - i,
    {
        let line = render_recipe_line(&rows[i]);
        r.append(line.as_str());
        proof {
            assert(all_lines.take(i + 1) =~= all_lines.take(i as int).push(all_lines[i as int]));
            lemma_joined_push(all_lines.take(i as int), all_lines[i as int]);
        }
        i += 1;
    }
    proof {
        assert(all_lines.take(rows@.len() as int) =~= all_lines);
    }
    r
}

} // verus!
