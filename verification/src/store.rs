//! A sequential model of the storage layer. Every request holds one
//! exclusive lock around the single shared connection, so the storage
//! observes a total order of operations; this type is that totally
//! ordered storage: three tables, each assigning fresh ids on insert,
//! never updating or deleting a row.

use vstd::prelude::*;
use crate::model::{Category, CategoryV, Ingredient, IngredientV, Recipe, RecipeV};

verus! {

/// Holds when `id` differs from every id already listed.
pub open spec fn fresh_id(ids: Seq<int>, id: int) -> bool {
    forall|j: int| 0 <= j < ids.len() ==> ids[j] != id
}

/// The ids of a sequence of category rows, in row order.
pub open spec fn category_ids(rows: Seq<CategoryV>) -> Seq<int> {
    rows.map_values(|c: CategoryV| c.id)
}

/// The ids of a sequence of ingredient rows, in row order.
pub open spec fn ingredient_ids(rows: Seq<IngredientV>) -> Seq<int> {
    rows.map_values(|i: IngredientV| i.id)
}

/// The ids of a sequence of recipe rows, in row order.
pub open spec fn recipe_ids(rows: Seq<RecipeV>) -> Seq<int> {
    rows.map_values(|r: RecipeV| r.id)
}

/// The storage transition of a category create: the table grows by one
/// row holding the submitted name under a positive, previously unseen id.
pub open spec fn category_created(
    pre: Seq<CategoryV>,
    name: Seq<char>,
    id: int,
    post: Seq<CategoryV>,
) -> bool {
    &&& 1 <= id
    &&& fresh_id(category_ids(pre), id)
    &&& post == pre.push(CategoryV { id, name })
}

/// The storage transition of an ingredient create.
pub open spec fn ingredient_created(
    pre: Seq<IngredientV>,
    name: Seq<char>,
    id: int,
    post: Seq<IngredientV>,
) -> bool {
    &&& 1 <= id
    &&& fresh_id(ingredient_ids(pre), id)
    &&& post == pre.push(IngredientV { id, name })
}

/// The storage transition of a recipe create. The referenced category id
/// is stored as given: this schema enforces no foreign-key constraint.
pub open spec fn recipe_created(
    pre: Seq<RecipeV>,
    name: Seq<char>,
    description: Seq<char>,
    category_id: int,
    id: int,
    post: Seq<RecipeV>,
) -> bool {
    &&& 1 <= id
    &&& fresh_id(recipe_ids(pre), id)
    &&& post == pre.push(RecipeV { id, name, description, category_id })
}

/// The three tables behind the one serialized connection.
pub struct Store {
    categories: Vec<Category>,
    ingredients: Vec<Ingredient>,
    recipes: Vec<Recipe>,
    next_category_id: i32,
    next_ingredient_id: i32,
    next_recipe_id: i32,
}

impl Store {
    /// The category rows, as mathematical values, in insertion order.
    pub closed spec fn cats(&self) -> Seq<CategoryV> {
        self.categories@.map_values(|c: Category| c@)
    }

    /// The ingredient rows, as mathematical values, in insertion order.
    pub closed spec fn ings(&self) -> Seq<IngredientV> {
        self.ingredients@.map_values(|i: Ingredient| i@)
    }

    /// The recipe rows, as mathematical values, in insertion order.
    pub closed spec fn recs(&self) -> Seq<RecipeV> {
        self.recipes@.map_values(|r: Recipe| r@)
    }

    /// How many more category ids can still be assigned.
    pub closed spec fn category_room(&self) -> int {
        i32::MAX - self.next_category_id
    }

    /// How many more ingredient ids can still be assigned.
    pub closed spec fn ingredient_room(&self) -> int {
        i32::MAX - self.next_ingredient_id
    }

    /// How many more recipe ids can still be assigned.
    pub closed spec fn recipe_room(&self) -> int {
        i32::MAX - self.next_recipe_id
    }

    /// Well-formedness: every stored id is positive and below the next
    /// id its table will assign.
    pub closed spec fn wf(&self) -> bool {
        &&& 1 <= self.next_category_id
        &&& 1 <= self.next_ingredient_id
        &&& 1 <= self.next_recipe_id
        &&& forall|j: int|
            0 <= j < self.cats().len() ==> 1 <= #[trigger] self.cats()[j].id
                < self.next_category_id
        &&& forall|j: int|
            0 <= j < self.ings().len() ==> 1 <= #[trigger] self.ings()[j].id
                < self.next_ingredient_id
        &&& forall|j: int|
            0 <= j < self.recs().len() ==> 1 <= #[trigger] self.recs()[j].id
                < self.next_recipe_id
    }

    /// An empty storage: three empty tables, each assigning ids from one.
    pub fn new() -> (s: Store)
        ensures
            s.wf(),
            s.cats() == Seq::<CategoryV>::empty(),
            s.ings() == Seq::<IngredientV>::empty(),
            s.recs() == Seq::<RecipeV>::empty(),
            s.category_room() > 0,
            s.ingredient_room() > 0,
            s.recipe_room() > 0,
    {
        let s = Store {
            categories: Vec::new(),
            ingredients: Vec::new(),
            recipes: Vec::new(),
            next_category_id: 1,
            next_ingredient_id: 1,
            next_recipe_id: 1,
        };
        proof {
            assert(s.cats() =~= Seq::<CategoryV>::empty());
            assert(s.ings() =~= Seq::<IngredientV>::empty());
            assert(s.recs() =~= Seq::<RecipeV>::empty());
        }
        s
    }

    /// Inserts a category row under a freshly assigned id and returns
    /// that id; the other tables are untouched.
    pub fn insert_category(&mut self, name: String) -> (id: i32)
        requires
            old(self).wf(),
            old(self).category_room() > 0,
        ensures
            final(self).wf(),
            category_created(old(self).cats(), name@, id as int, final(self).cats()),
            final(self).ings() == old(self).ings(),
            final(self).recs() == old(self).recs(),
            final(self).category_room() == old(self).category_room() - 1,
            final(self).ingredient_room() == old(self).ingredient_room(),
            final(self).recipe_room() == old(self).recipe_room(),
    {
        let id = self.next_category_id;
        let row = Category { id, name };
        self.categories.push(row);
        self.next_category_id = self.next_category_id + 1;
        proof {
            assert(self.cats() =~= old(self).cats().push(
                CategoryV { id: id as int, name: name@ },
            ));
            assert forall|j: int|
                0 <= j < self.cats().len() implies 1 <= #[trigger] self.cats()[j].id
                < self.next_category_id by {
                if j < old(self).cats().len() {
                    assert(self.cats()[j] == old(self).cats()[j]);
                }
            }
            assert forall|j: int|
                0 <= j < self.ings().len() implies 1 <= #[trigger] self.ings()[j].id
                < self.next_ingredient_id by {
                assert(self.ings()[j] == old(self).ings()[j]);
            }
            assert forall|j: int|
                0 <= j < self.recs().len() implies 1 <= #[trigger] self.recs()[j].id
                < self.next_recipe_id by {
                assert(self.recs()[j] == old(self).recs()[j]);
            }
        }
        id
    }

    /// Inserts an ingredient row under a freshly assigned id and returns
    /// that id; the other tables are untouched.
    pub fn insert_ingredient(&mut self, name: String) -> (id: i32)
        requires
            old(self).wf(),
            old(self).ingredient_room() > 0,
        ensures
            final(self).wf(),
            ingredient_created(old(self).ings(), name@, id as int, final(self).ings()),
            final(self).cats() == old(self).cats(),
            final(self).recs() == old(self).recs(),
            final(self).ingredient_room() == old(self).ingredient_room() - 1,
            final(self).category_room() == old(self).category_room(),
            final(self).recipe_room() == old(self).recipe_room(),
    {
        let id = self.next_ingredient_id;
        let row = Ingredient { id, name };
        self.ingredients.push(row);
        self.next_ingredient_id = self.next_ingredient_id + 1;
        proof {
            assert(self.ings() =~= old(self).ings().push(
                IngredientV { id: id as int, name: name@ },
            ));
            assert forall|j: int|
                0 <= j < self.ings().len() implies 1 <= #[trigger] self.ings()[j].id
                < self.next_ingredient_id by {
                if j < old(self).ings().len() {
                    assert(self.ings()[j] == old(self).ings()[j]);
                }
            }
            assert forall|j: int|
                0 <= j < self.cats().len() implies 1 <= #[trigger] self.cats()[j].id
                < self.next_category_id by {
                assert(self.cats()[j] == old(self).cats()[j]);
            }
            assert forall|j: int|
                0 <= j < self.recs().len() implies 1 <= #[trigger] self.recs()[j].id
                < self.next_recipe_id by {
                assert(self.recs()[j] == old(self).recs()[j]);
            }
        }
        id
    }

    /// Inserts a recipe row under a freshly assigned id and returns that
    /// id; the referenced category id is not checked against the category
    /// table (no foreign-key enforcement); the other tables are untouched.
    pub fn insert_recipe(&mut self, name: String, description: String, category_id: i32) -> (
        id: i32
    )
        requires
            old(self).wf(),
            old(self).recipe_room() > 0,
        ensures
            final(self).wf(),
            recipe_created(
                old(self).recs(),
                name@,
                description@,
                category_id as int,
                id as int,
                final(self).recs(),
            ),
            final(self).cats() == old(self).cats(),
            final(self).ings() == old(self).ings(),
            final(self).recipe_room() == old(self).recipe_room() - 1,
            final(self).category_room() == old(self).category_room(),
            final(self).ingredient_room() == old(self).ingredient_room(),
    {
        let id = self.next_recipe_id;
        let row = Recipe { id, name, description, category_id };
        self.recipes.push(row);
        self.next_recipe_id = self.next_recipe_id + 1;
        proof {
            assert(self.recs() =~= old(self).recs().push(
                RecipeV {
                    id: id as int,
                    name: name@,
                    description: description@,
                    category_id: category_id as int,
                },
            ));
            assert forall|j: int|
                0 <= j < self.recs().len() implies 1 <= #[trigger] self.recs()[j].id
                < self.next_recipe_id by {
                if j < old(self).recs().len() {
                    assert(self.recs()[j] == old(self).recs()[j]);
                }
            }
            assert forall|j: int|
                0 <= j < self.cats().len() implies 1 <= #[trigger] self.cats()[j].id
                < self.next_category_id by {
                assert(self.cats()[j] == old(self).cats()[j]);
            }
            assert forall|j: int|
                0 <= j < self.ings().len() implies 1 <= #[trigger] self.ings()[j].id
                < self.next_ingredient_id by {
                assert(self.ings()[j] == old(self).ings()[j]);
            }
        }
        id
    }

    /// The category table itself, for listing.
    pub fn categories(&self) -> (rows: &Vec<Category>)
        ensures
            rows@.map_values(|c: Category| c@) == self.cats(),
    {
        &self.categories
    }

    /// The ingredient table itself, for listing.
    pub fn ingredients(&self) -> (rows: &Vec<Ingredient>)
        ensures
            rows@.map_values(|i: Ingredient| i@) == self.ings(),
    {
        &self.ingredients
    }

    /// The recipe table itself, for listing.
    pub fn recipes(&self) -> (rows: &Vec<Recipe>)
        ensures
            rows@.map_values(|r: Recipe| r@) == self.recs(),
    {
        &self.recipes
    }
}

} // verus!
