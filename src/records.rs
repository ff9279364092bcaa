use vstd::prelude::*;

verus! {

/// One ingredient line. `amount` is the quantity as decimal text, the way
/// it is shown and sent.
#[derive(Clone, Debug, PartialEq, Eq)]
pub struct Ingredient {
    pub name: String,
    pub amount: String,
    pub unit: String,
    pub id: Option<i64>,
}

/// One step of the method.
#[derive(Clone, Debug, PartialEq, Eq)]
pub struct Direction {
    pub id: Option<i64>,
    pub content: String,
}

/// A tag attached to a recipe.
#[derive(Clone, Debug, PartialEq, Eq)]
pub struct RecipeTag {
    pub id: Option<i64>,
    pub name: Option<String>,
}

/// A local record as the rest of the client sees it. `cloud_parent_id` is
/// the identifier of its remote counterpart, `None` while it has none.
/// `last_viewed` is in seconds since the Unix epoch.
#[derive(Clone, Debug, PartialEq, Eq)]
pub struct Recipe {
    pub id: Option<i64>,
    pub title: String,
    pub servings: i64,
    pub minutes: i64,
    pub img_url: Option<String>,
    pub source_url: Option<String>,
    pub color: String,
    pub ingredients: Vec<Ingredient>,
    pub directions: Vec<Direction>,
    pub tags: Vec<RecipeTag>,
    pub last_viewed: Option<i64>,
    pub cloud_parent_id: Option<String>,
}

/// A recipe row as the local store returns it: every column may be null.
#[derive(Clone, Debug, PartialEq, Eq)]
pub struct RawRecipe {
    pub id: Option<i64>,
    pub title: Option<String>,
    pub yield_value: Option<i64>,
    pub minutes: Option<i64>,
    pub img_url: Option<String>,
    pub source: Option<String>,
    pub color: Option<String>,
    pub last_viewed: Option<i64>,
    pub cloud_parent_id: Option<String>,
}

/// The rows that belong to one recipe row.
#[derive(Clone, Debug, PartialEq, Eq)]
pub struct RecipeContext {
    pub ingredients: Vec<Ingredient>,
    pub directions: Vec<Direction>,
    pub tags: Vec<RecipeTag>,
}

/// A record of the remote side, as the set-difference endpoint returns it.
/// `id` is its remote identifier.
#[derive(Clone, Debug, PartialEq, Eq)]
pub struct DownloadedRecipe {
    pub id: String,
    pub title: String,
    pub yield_value: u32,
    pub time: u32,
    pub image_path: Option<String>,
    pub color: String,
    pub ingredients: Vec<Ingredient>,
    pub directions: Vec<String>,
    pub tags: Vec<String>,
    pub source_url: Option<String>,
}

/// The fields of a record as they are uploaded to the remote side.
#[derive(Clone, Debug, PartialEq, Eq)]
pub struct RecipeFormData {
    pub title: String,
    pub yield_value: u32,
    pub time: u32,
    pub image_path: Option<String>,
    pub color: String,
    pub ingredients: Vec<Ingredient>,
    pub directions: Vec<String>,
    pub tags: Vec<String>,
    pub source_url: Option<String>,
}

/// The text of an optional column, empty where it is null.
pub open spec fn text_or_empty(s: Option<String>) -> Seq<char> {
    match s {
        Some(t) => t@,
        None => Seq::empty(),
    }
}

/// The value of an optional integer column, 0 where it is null.
pub open spec fn int_or_zero(v: Option<i64>) -> i64 {
    match v {
        Some(n) => n,
        None => 0,
    }
}

fn text_or_default(s: Option<String>) -> (r: String)
    ensures
        r@ == text_or_empty(s),
{
    match s {
        Some(t) => t,
        None => String::new(),
    }
}

fn int_or_default(v: Option<i64>) -> (r: i64)
    ensures
        r == int_or_zero(v),
{
    match v {
        Some(n) => n,
        None => 0,
    }
}

impl RawRecipe {
    /// Builds the record from a row and the rows that belong to it: null
    /// text columns become empty, null counts become 0, the rest is kept.
    pub fn parse(self, context: RecipeContext) -> (r: Recipe)
        ensures
            r.id == self.id,
            r.title@ == text_or_empty(self.title),
            r.servings == int_or_zero(self.yield_value),
            r.minutes == int_or_zero(self.minutes),
            r.img_url == self.img_url,
            r.source_url == self.source,
            r.color@ == text_or_empty(self.color),
            r.ingredients == context.ingredients,
            r.directions == context.directions,
            r.tags == context.tags,
            r.last_viewed == self.last_viewed,
            r.cloud_parent_id == self.cloud_parent_id,
    {
        Recipe {
            id: self.id,
            title: text_or_default(self.title),
            servings: int_or_default(self.yield_value),
            minutes: int_or_default(self.minutes),
            img_url: self.img_url,
            source_url: self.source,
            color: text_or_default(self.color),
            ingredients: context.ingredients,
            directions: context.directions,
            tags: context.tags,
            last_viewed: self.last_viewed,
            cloud_parent_id: self.cloud_parent_id,
        }
    }
}

} // verus!
