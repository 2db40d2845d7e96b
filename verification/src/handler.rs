//! The request handlers' decisions: mapping rows or storage failures to
//! plain-text responses, and running a create or list against the
//! serialized storage model.

use vstd::prelude::*;
use vstd::string::StringExecFns;
use crate::model::{
    categories_text, CategoryData, Category, Ingredient, IngredientData, ingredients_text, Recipe,
    RecipeData, recipes_text, render_categories, render_ingredients, render_recipes,
};
use crate::store::{category_created, ingredient_created, recipe_created, Store};

verus! {

/// The status of a successful request.
pub const STATUS_OK: u16 = 200;

/// The status of a request rejected before it reaches storage, such as a
/// create whose payload lacks a required field.
pub const STATUS_BAD_REQUEST: u16 = 400;

/// The status of a request that failed in the storage layer.
pub const STATUS_INTERNAL_ERROR: u16 = 500;

/// The one error kind of the service: a storage operation failed, with
/// the underlying driver's message carried verbatim inside the wrapping.
pub struct MyError(pub String);

impl View for MyError {
    type V = Seq<char>;

    open spec fn view(&self) -> Seq<char> {
        self.0@
    }
}

/// The text of a wrapped storage failure.
pub open spec fn db_error_text(detail: Seq<char>) -> Seq<char> {
    "Database error: "@ + detail
}

/// Wraps a storage failure message in the service's error kind.
pub fn wrap_db_error(detail: &str) -> (e: MyError)
    ensures
        e@ == db_error_text(detail@),
{
    let mut msg = String::from_str("Database error: ");
    msg.append(detail);
    MyError(msg)
}

impl MyError {
    /// The full message carried by the error, as a response body.
    pub fn message(&self) -> (m: &str)
        ensures
            m@ == self@,
    {
        self.0.as_str()
    }
}

/// A response: a status code and a plain-text body.
pub struct Response {
    pub status: u16,
    pub body: String,
}

/// Maps a category listing outcome to a response: the rendered rows with
/// status 200 (empty rows give an empty body, not an error), or the
/// failure message with a server-error status.
pub fn list_categories_response(rows: Result<Vec<Category>, MyError>) -> (resp: Response)
    ensures
        rows matches Ok(r) ==> resp.status == STATUS_OK && resp.body@ == categories_text(
            r@.map_values(|c: Category| c@),
        ),
        rows matches Ok(r) && r@.len() == 0 ==> resp.body@ == Seq::<char>::empty(),
        rows matches Err(e) ==> resp.status == STATUS_INTERNAL_ERROR && resp.body@ == e@,
{
    match rows {
        Ok(r) => Response { status: STATUS_OK, body: render_categories(&r) },
        Err(e) => Response { status: STATUS_INTERNAL_ERROR, body: e.0 },
    }
}

/// Maps an ingredient listing outcome to a response.
pub fn list_ingredients_response(rows: Result<Vec<Ingredient>, MyError>) -> (resp: Response)
    ensures
        rows matches Ok(r) ==> resp.status == STATUS_OK && resp.body@ == ingredients_text(
            r@.map_values(|i: Ingredient| i@),
        ),
        rows matches Ok(r) && r@.len() == 0 ==> resp.body@ == Seq::<char>::empty(),
        rows matches Err(e) ==> resp.status == STATUS_INTERNAL_ERROR && resp.body@ == e@,
{
    match rows {
        Ok(r) => Response { status: STATUS_OK, body: render_ingredients(&r) },
        Err(e) => Response { status: STATUS_INTERNAL_ERROR, body: e.0 },
    }
}

/// Maps a recipe listing outcome to a response.
pub fn list_recipes_response(rows: Result<Vec<Recipe>, MyError>) -> (resp: Response)
    ensures
        rows matches Ok(r) ==> resp.status == STATUS_OK && resp.body@ == recipes_text(
            r@.map_values(|rec: Recipe| rec@),
        ),
        rows matches Ok(r) && r@.len() == 0 ==> resp.body@ == Seq::<char>::empty(),
        rows matches Err(e) ==> resp.status == STATUS_INTERNAL_ERROR && resp.body@ == e@,
{
    match rows {
        Ok(r) => Response { status: STATUS_OK, body: render_recipes(&r) },
        Err(e) => Response { status: STATUS_INTERNAL_ERROR, body: e.0 },
    }
}

/// Maps a category insert outcome to a response: the fixed confirmation
/// with status 200, or the failure message with a server-error status.
pub fn create_category_response(outcome: Result<u64, MyError>) -> (resp: Response)
    ensures
        outcome is Ok ==> resp.status == STATUS_OK && resp.body@
            == "Category created successfully"@,
        outcome matches Err(e) ==> resp.status == STATUS_INTERNAL_ERROR && resp.body@ == e@,
{
    match outcome {
        Ok(_) => Response {
            status: STATUS_OK,
            body: String::from_str("Category created successfully"),
        },
        Err(e) => Response { status: STATUS_INTERNAL_ERROR, body: e.0 },
    }
}

/// Maps an ingredient insert outcome to a response.
pub fn create_ingredient_response(outcome: Result<u64, MyError>) -> (resp: Response)
    ensures
        outcome is Ok ==> resp.status == STATUS_OK && resp.body@
            == "Ingredient created successfully"@,
        outcome matches Err(e) ==> resp.status == STATUS_INTERNAL_ERROR && resp.body@ == e@,
{
    match outcome {
        Ok(_) => Response {
            status: STATUS_OK,
            body: String::from_str("Ingredient created successfully"),
        },
        Err(e) => Response { status: STATUS_INTERNAL_ERROR, body: e.0 },
    }
}

/// Maps a recipe insert outcome to a response.
pub fn create_recipe_response(outcome: Result<u64, MyError>) -> (resp: Response)
    ensures
        outcome is Ok ==> resp.status == STATUS_OK && resp.body@
            == "Recipe created successfully"@,
        outcome matches Err(e) ==> resp.status == STATUS_INTERNAL_ERROR && resp.body@ == e@,
{
    match outcome {
        Ok(_) => Response {
            status: STATUS_OK,
            body: String::from_str("Recipe created successfully"),
        },
        Err(e) => Response { status: STATUS_INTERNAL_ERROR, body: e.0 },
    }
}

impl Store {
    /// Lists the category table: always status 200, the body holding one
    /// line per row in table order — empty body for an empty table.
    pub fn handle_list_categories(&self) -> (resp: Response)
        ensures
            resp.status == STATUS_OK,
            resp.body@ == categories_text(self.cats()),
            self.cats().len() == 0 ==> resp.body@ == Seq::<char>::empty(),
    {
        Response { status: STATUS_OK, body: render_categories(self.categories()) }
    }

    /// Lists the ingredient table.
    pub fn handle_list_ingredients(&self) -> (resp: Response)
        ensures
            resp.status == STATUS_OK,
            resp.body@ == ingredients_text(self.ings()),
            self.ings().len() == 0 ==> resp.body@ == Seq::<char>::empty(),
    {
        Response { status: STATUS_OK, body: render_ingredients(self.ingredients()) }
    }

    /// Lists the recipe table.
    pub fn handle_list_recipes(&self) -> (resp: Response)
        ensures
            resp.status == STATUS_OK,
            resp.body@ == recipes_text(self.recs()),
            self.recs().len() == 0 ==> resp.body@ == Seq::<char>::empty(),
    {
        Response { status: STATUS_OK, body: render_recipes(self.recipes()) }
    }

    /// Runs a category create. A payload that survived deserialization is
    /// inserted under a fresh id and confirmed; a payload that did not
    /// arrive (a required field was missing) is rejected with a client
    /// error, and the storage is left exactly as it was.
    pub fn handle_create_category(&mut self, payload: Option<CategoryData>) -> (resp: Response)
        requires
            old(self).wf(),
            old(self).category_room() > 0,
        ensures
            final(self).wf(),
            payload matches Some(p) ==> {
                &&& exists|id: int|
                    category_created(old(self).cats(), p.name@, id, final(self).cats())
                &&& resp.status == STATUS_OK
                &&& resp.body@ == "Category created successfully"@
            },
            payload is None ==> {
                &&& *final(self) == *old(self)
                &&& resp.status == STATUS_BAD_REQUEST
                &&& resp.body@ == "Bad request: a required field is missing"@
            },
            final(self).ings() == old(self).ings(),
            final(self).recs() == old(self).recs(),
            final(self).category_room() >= old(self).category_room() - 1,
            final(self).ingredient_room() == old(self).ingredient_room(),
            final(self).recipe_room() == old(self).recipe_room(),
    {
        match payload {
            Some(p) => {
                let ghost pre = self.cats();
                let ghost name = p.name@;
                let id = self.insert_category(p.name);
                proof {
                    assert(category_created(pre, name, id as int, self.cats()));
                }
                Response {
                    status: STATUS_OK,
                    body: String::from_str("Category created successfully"),
                }
            },
            None => Response {
                status: STATUS_BAD_REQUEST,
                body: String::from_str("Bad request: a required field is missing"),
            },
        }
    }

    /// Runs an ingredient create, as the category create runs.
    pub fn handle_create_ingredient(&mut self, payload: Option<IngredientData>) -> (resp: Response)
        requires
            old(self).wf(),
            old(self).ingredient_room() > 0,
        ensures
            final(self).wf(),
            payload matches Some(p) ==> {
                &&& exists|id: int|
                    ingredient_created(old(self).ings(), p.name@, id, final(self).ings())
                &&& resp.status == STATUS_OK
                &&& resp.body@ == "Ingredient created successfully"@
            },
            payload is None ==> {
                &&& *final(self) == *old(self)
                &&& resp.status == STATUS_BAD_REQUEST
                &&& resp.body@ == "Bad request: a required field is missing"@
            },
            final(self).cats() == old(self).cats(),
            final(self).recs() == old(self).recs(),
            final(self).ingredient_room() >= old(self).ingredient_room() - 1,
            final(self).category_room() == old(self).category_room(),
            final(self).recipe_room() == old(self).recipe_room(),
    {
        match payload {
            Some(p) => {
                let ghost pre = self.ings();
                let ghost name = p.name@;
                let id = self.insert_ingredient(p.name);
                proof {
                    assert(ingredient_created(pre, name, id as int, self.ings()));
                }
                Response {
                    status: STATUS_OK,
                    body: String::from_str("Ingredient created successfully"),
                }
            },
            None => Response {
                status: STATUS_BAD_REQUEST,
                body: String::from_str("Bad request: a required field is missing"),
            },
        }
    }

    /// Runs a recipe create. The referenced category id is stored as
    /// given, whether or not such a category exists: the schema enforces
    /// no foreign-key constraint, so the create succeeds either way.
    pub fn handle_create_recipe(&mut self, payload: Option<RecipeData>) -> (resp: Response)
        requires
            old(self).wf(),
            old(self).recipe_room() > 0,
        ensures
            final(self).wf(),
            payload matches Some(p) ==> {
                &&& exists|id: int|
                    recipe_created(
                        old(self).recs(),
                        p.name@,
                        p.description@,
                        p.category_id as int,
                        id,
                        final(self).recs(),
                    )
                &&& resp.status == STATUS_OK
                &&& resp.body@ == "Recipe created successfully"@
            },
            payload is None ==> {
                &&& *final(self) == *old(self)
                &&& resp.status == STATUS_BAD_REQUEST
                &&& resp.body@ == "Bad request: a required field is missing"@
            },
            final(self).cats() == old(self).cats(),
            final(self).ings() == old(self).ings(),
            final(self).recipe_room() >= old(self).recipe_room() - 1,
            final(self).category_room() == old(self).category_room(),
            final(self).ingredient_room() == old(self).ingredient_room(),
    {
        match payload {
            Some(p) => {
                let ghost pre = self.recs();
                let ghost name = p.name@;
                let ghost description = p.description@;
                let category_id = p.category_id;
                let id = self.insert_recipe(p.name, p.description, category_id);
                proof {
                    assert(recipe_created(
                        pre,
                        name,
                        description,
                        category_id as int,
                        id as int,
                        self.recs(),
                    ));
                }
                Response { status: STATUS_OK, body: String::from_str("Recipe created successfully") }
            },
            None => Response {
                status: STATUS_BAD_REQUEST,
                body: String::from_str("Bad request: a required field is missing"),
            },
        }
    }
}

} // verus!
