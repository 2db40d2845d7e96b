//! The service's cross-function guarantees, stated and proved over the
//! models that the handlers' contracts use.

use vstd::prelude::*;
use crate::model::{
    categories_text, category_line, CategoryV, ingredient_line, IngredientV, ingredients_text,
    joined, recipe_line, recipes_text, RecipeV,
};
use crate::handler::db_error_text;
use crate::store::{
    category_created, category_ids, fresh_id, ingredient_created, ingredient_ids, recipe_created,
    recipe_ids,
};

verus! {

/// Holds when `needle` occurs contiguously inside `hay`.
pub open spec fn contains_seq(hay: Seq<char>, needle: Seq<char>) -> bool {
    exists|k: int|
        0 <= k && k + needle.len() <= hay.len() && #[trigger] hay.subrange(k, k + needle.len())
            == needle
}

/// Every line of a joined listing occurs contiguously in the joined text.
pub proof fn lemma_joined_contains_each(lines: Seq<Seq<char>>, j: int)
    requires
        0 <= j < lines.len(),
    ensures
        contains_seq(joined(lines), lines[j]),
    decreases lines.len(),
{
    let text = joined(lines);
    let prefix = joined(lines.drop_last());
    if j == lines.len() - 1 {
        let k = prefix.len() as int;
        assert(text.subrange(k, k + lines[j].len()) =~= lines[j]);
    } else {
        lemma_joined_contains_each(lines.drop_last(), j);
        let needle = lines.drop_last()[j];
        let k = choose|k: int|
            0 <= k && k + needle.len() <= prefix.len() && #[trigger] prefix.subrange(
                k,
                k + needle.len(),
            ) == needle;
        assert(needle == lines[j]);
        assert(text.subrange(k, k + lines[j].len()) =~= prefix.subrange(k, k + lines[j].len()));
        assert(text.subrange(k, k + lines[j].len()) == lines[j]);
    }
}

/// Law: a created category row is listed. After a create, the listing
/// text of the category table contains the new row's line, its fields
/// equal the submitted payload, and its id differs from every id the
/// table held before.
pub proof fn lemma_created_category_is_listed(
    pre: Seq<CategoryV>,
    name: Seq<char>,
    id: int,
    post: Seq<CategoryV>,
)
    requires
        category_created(pre, name, id, post),
    ensures
        post.last() == (CategoryV { id, name }),
        fresh_id(category_ids(pre), id),
        contains_seq(categories_text(post), category_line(CategoryV { id, name })),
{
    let lines = post.map_values(|c: CategoryV| category_line(c));
    assert(lines[post.len() - 1] == category_line(CategoryV { id, name }));
    lemma_joined_contains_each(lines, post.len() - 1);
}

/// Law: a created ingredient row is listed, as a category row is.
pub proof fn lemma_created_ingredient_is_listed(
    pre: Seq<IngredientV>,
    name: Seq<char>,
    id: int,
    post: Seq<IngredientV>,
)
    requires
        ingredient_created(pre, name, id, post),
    ensures
        post.last() == (IngredientV { id, name }),
        fresh_id(ingredient_ids(pre), id),
        contains_seq(ingredients_text(post), ingredient_line(IngredientV { id, name })),
{
    let lines = post.map_values(|i: IngredientV| ingredient_line(i));
    assert(lines[post.len() - 1] == ingredient_line(IngredientV { id, name }));
    lemma_joined_contains_each(lines, post.len() - 1);
}

/// Law: a created recipe row is listed, as a category row is.
pub proof fn lemma_created_recipe_is_listed(
    pre: Seq<RecipeV>,
    name: Seq<char>,
    description: Seq<char>,
    category_id: int,
    id: int,
    post: Seq<RecipeV>,
)
    requires
        recipe_created(pre, name, description, category_id, id, post),
    ensures
        post.last() == (RecipeV { id, name, description, category_id }),
        fresh_id(recipe_ids(pre), id),
        contains_seq(
            recipes_text(post),
            recipe_line(RecipeV { id, name, description, category_id }),
        ),
{
    let lines = post.map_values(|r: RecipeV| recipe_line(r));
    assert(lines[post.len() - 1] == recipe_line(RecipeV { id, name, description, category_id }));
    lemma_joined_contains_each(lines, post.len() - 1);
}

/// Law: serialized category creates assign distinct ids. All storage
/// operations are totally ordered by the single lock, so any two creates
/// run one after the other, and the second sees the first's row.
pub proof fn lemma_category_creates_distinct_ids(
    s0: Seq<CategoryV>,
    n1: Seq<char>,
    i1: int,
    s1: Seq<CategoryV>,
    n2: Seq<char>,
    i2: int,
    s2: Seq<CategoryV>,
)
    requires
        category_created(s0, n1, i1, s1),
        category_created(s1, n2, i2, s2),
    ensures
        i1 != i2,
{
    assert(category_ids(s1)[s0.len() as int] == i1);
}

/// Law: serialized ingredient creates assign distinct ids.
pub proof fn lemma_ingredient_creates_distinct_ids(
    s0: Seq<IngredientV>,
    n1: Seq<char>,
    i1: int,
    s1: Seq<IngredientV>,
    n2: Seq<char>,
    i2: int,
    s2: Seq<IngredientV>,
)
    requires
        ingredient_created(s0, n1, i1, s1),
        ingredient_created(s1, n2, i2, s2),
    ensures
        i1 != i2,
{
    assert(ingredient_ids(s1)[s0.len() as int] == i1);
}

/// Law: serialized recipe creates assign distinct ids.
pub proof fn lemma_recipe_creates_distinct_ids(
    s0: Seq<RecipeV>,
    n1: Seq<char>,
    d1: Seq<char>,
    c1: int,
    i1: int,
    s1: Seq<RecipeV>,
    n2: Seq<char>,
    d2: Seq<char>,
    c2: int,
    i2: int,
    s2: Seq<RecipeV>,
)
    requires
        recipe_created(s0, n1, d1, c1, i1, s1),
        recipe_created(s1, n2, d2, c2, i2, s2),
    ensures
        i1 != i2,
{
    assert(recipe_ids(s1)[s0.len() as int] == i1);
}

/// Law: a storage failure's response body contains the underlying
/// failure text verbatim, after the fixed wrapping prefix.
pub proof fn lemma_error_body_contains_failure(detail: Seq<char>)
    ensures
        contains_seq(db_error_text(detail), detail),
{
    reveal_strlit("Database error: ");
    let k = "Database error: "@.len() as int;
    assert(db_error_text(detail).subrange(k, k + detail.len()) =~= detail);
}

} // verus!
