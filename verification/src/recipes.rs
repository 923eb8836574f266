//! The recipes the scale guides through, with amounts in milligrams.

use vstd::prelude::*;

verus! {

/// Scale factor of a recipe made as written, in thousandths.
pub const UNSCALED: u32 = 1000;

/// One weighed ingredient of a recipe.
#[derive(Clone, Debug)]
pub struct Ingredient {
    pub name: String,
    /// Amount in milligrams.
    pub amount: u32,
}

/// A recipe: its name and its ingredients in the order they are weighed.
#[derive(Clone, Debug)]
pub struct Recipe {
    pub name: String,
    pub ingredients: Vec<Ingredient>,
}

/// How far the user has got with one ingredient.
#[derive(Clone, Copy, Debug, PartialEq, Eq, Structural)]
pub struct IngredientProgress {
    pub done: bool,
    /// Amount weighed so far, in milligrams.
    pub amount: u32,
}

/// How far the user has got with a recipe.
#[derive(Clone, Debug)]
pub struct RecipeProgress {
    /// Scale factor in thousandths.
    pub scale_factor: u32,
    pub ingredient_progresses: Vec<IngredientProgress>,
}

/// An ingredient as a mathematical value.
pub struct IngredientView {
    pub name: Seq<char>,
    pub amount: nat,
}

/// A recipe as a mathematical value.
pub struct RecipeView {
    pub name: Seq<char>,
    pub ingredients: Seq<IngredientView>,
}

impl View for Ingredient {
    type V = IngredientView;

    open spec fn view(&self) -> IngredientView {
        IngredientView { name: self.name@, amount: self.amount as nat }
    }
}

impl View for Recipe {
    type V = RecipeView;

    open spec fn view(&self) -> RecipeView {
        RecipeView {
            name: self.name@,
            ingredients: self.ingredients@.map_values(|i: Ingredient| i@),
        }
    }
}

/// The entry of an ingredient table.
pub open spec fn entry(name: &str, amount: nat) -> IngredientView {
    IngredientView { name: name@, amount }
}

/// An ingredient of the given name and amount in milligrams.
pub fn ingredient(name: &str, amount: u32) -> (item: Ingredient)
    ensures
        item@ == entry(name, amount as nat),
{
    Ingredient { name: name.to_owned(), amount }
}

fn weigh_in(list: &mut Vec<Ingredient>, name: &str, amount: u32)
    ensures
        final(list)@.map_values(|i: Ingredient| i@) == old(list)@.map_values(|i: Ingredient| i@).push(
            entry(name, amount as nat),
        ),
{
    list.push(ingredient(name, amount));
    assert(list@.map_values(|i: Ingredient| i@) =~= old(list)@.map_values(|i: Ingredient| i@).push(
        entry(name, amount as nat),
    ));
}

/// The recipe "Vegan Choux" as a table.
pub open spec fn vegan_choux_table() -> RecipeView {
    RecipeView {
        name: "Vegan Choux"@,
        ingredients: seq![
            entry("water", 60_000),
            entry("soy milk", 60_000),
            entry("vanilla extract", 5_000),
            entry("sugar", 6_000),
            entry("vegan butter", 28_000),
            entry("all-purpose flour", 65_000),
            entry("Just Egg", 125_000),
            entry("soy milk", 30_000),
        ],
    }
}

/// The recipe "Vegan Choux".
pub fn vegan_choux() -> (recipe: Recipe)
    ensures
        recipe@ == vegan_choux_table(),
{
    let mut ingredients: Vec<Ingredient> = Vec::new();
    weigh_in(&mut ingredients, "water", 60_000);
    weigh_in(&mut ingredients, "soy milk", 60_000);
    weigh_in(&mut ingredients, "vanilla extract", 5_000);
    weigh_in(&mut ingredients, "sugar", 6_000);
    weigh_in(&mut ingredients, "vegan butter", 28_000);
    weigh_in(&mut ingredients, "all-purpose flour", 65_000);
    weigh_in(&mut ingredients, "Just Egg", 125_000);
    weigh_in(&mut ingredients, "soy milk", 30_000);
    let recipe = Recipe { name: "Vegan Choux".to_owned(), ingredients };
    assert(recipe@.ingredients =~= vegan_choux_table().ingredients);
    recipe
}

/// The recipe "Vegan Creme Pat" as a table.
pub open spec fn vegan_creme_pat_table() -> RecipeView {
    RecipeView {
        name: "Vegan Creme Pat"@,
        ingredients: seq![
            entry("soy milk", 486_000),
            entry("vanilla extract", 20_000),
            entry("salt", 2_000),
            entry("corn starch", 32_000),
            entry("sugar", 100_000),
            entry("Just Egg", 166_000),
            entry("vegan butter", 84_000),
        ],
    }
}

/// The recipe "Vegan Creme Pat".
pub fn vegan_creme_pat() -> (recipe: Recipe)
    ensures
        recipe@ == vegan_creme_pat_table(),
{
    let mut ingredients: Vec<Ingredient> = Vec::new();
    weigh_in(&mut ingredients, "soy milk", 486_000);
    weigh_in(&mut ingredients, "vanilla extract", 20_000);
    weigh_in(&mut ingredients, "salt", 2_000);
    weigh_in(&mut ingredients, "corn starch", 32_000);
    weigh_in(&mut ingredients, "sugar", 100_000);
    weigh_in(&mut ingredients, "Just Egg", 166_000);
    weigh_in(&mut ingredients, "vegan butter", 84_000);
    let recipe = Recipe { name: "Vegan Creme Pat".to_owned(), ingredients };
    assert(recipe@.ingredients =~= vegan_creme_pat_table().ingredients);
    recipe
}

/// The recipe "Choux" as a table.
pub open spec fn choux_table() -> RecipeView {
    RecipeView {
        name: "Choux"@,
        ingredients: seq![
            entry("water", 235_000),
            entry("butter", 84_000),
            entry("sugar", 8_000),
            entry("salt", 2_000),
            entry("all-purpose flour", 128_000),
            entry("eggs", 200_000),
        ],
    }
}

/// The recipe "Choux".
pub fn choux() -> (recipe: Recipe)
    ensures
        recipe@ == choux_table(),
{
    let mut ingredients: Vec<Ingredient> = Vec::new();
    weigh_in(&mut ingredients, "water", 235_000);
    weigh_in(&mut ingredients, "butter", 84_000);
    weigh_in(&mut ingredients, "sugar", 8_000);
    weigh_in(&mut ingredients, "salt", 2_000);
    weigh_in(&mut ingredients, "all-purpose flour", 128_000);
    weigh_in(&mut ingredients, "eggs", 200_000);
    let recipe = Recipe { name: "Choux".to_owned(), ingredients };
    assert(recipe@.ingredients =~= choux_table().ingredients);
    recipe
}

/// The recipe "Creme Pat" as a table.
pub open spec fn creme_pat_table() -> RecipeView {
    RecipeView {
        name: "Creme Pat"@,
        ingredients: seq![
            entry("milk", 455_000),
            entry("vanilla bean", 1_000),
            entry("sugar", 115_000),
            entry("corn starch", 30_000),
            entry("salt", 1_000),
            entry("egg yolks", 70_000),
            entry("butter", 30_000),
        ],
    }
}

/// The recipe "Creme Pat".
pub fn creme_pat() -> (recipe: Recipe)
    ensures
        recipe@ == creme_pat_table(),
{
    let mut ingredients: Vec<Ingredient> = Vec::new();
    weigh_in(&mut ingredients, "milk", 455_000);
    weigh_in(&mut ingredients, "vanilla bean", 1_000);
    weigh_in(&mut ingredients, "sugar", 115_000);
    weigh_in(&mut ingredients, "corn starch", 30_000);
    weigh_in(&mut ingredients, "salt", 1_000);
    weigh_in(&mut ingredients, "egg yolks", 70_000);
    weigh_in(&mut ingredients, "butter", 30_000);
    let recipe = Recipe { name: "Creme Pat".to_owned(), ingredients };
    assert(recipe@.ingredients =~= creme_pat_table().ingredients);
    recipe
}

/// The recipe "Egg Pasta" as a table.
pub open spec fn pasta_dough_table() -> RecipeView {
    RecipeView {
        name: "Egg Pasta"@,
        ingredients: seq![
            entry("flour", 255_000),
            entry("whole eggs", 110_000),
            entry("egg yolks", 70_000),
            entry("salt", 3_000),
        ],
    }
}

/// The recipe "Egg Pasta".
pub fn pasta_dough() -> (recipe: Recipe)
    ensures
        recipe@ == pasta_dough_table(),
{
    let mut ingredients: Vec<Ingredient> = Vec::new();
    weigh_in(&mut ingredients, "flour", 255_000);
    weigh_in(&mut ingredients, "whole eggs", 110_000);
    weigh_in(&mut ingredients, "egg yolks", 70_000);
    weigh_in(&mut ingredients, "salt", 3_000);
    let recipe = Recipe { name: "Egg Pasta".to_owned(), ingredients };
    assert(recipe@.ingredients =~= pasta_dough_table().ingredients);
    recipe
}

/// The recipe "Poolish Bread" as a table.
pub open spec fn poolish_bread_table() -> RecipeView {
    RecipeView {
        name: "Poolish Bread"@,
        ingredients: seq![
            entry("flour", 500_000),
            entry("yeast", 400),
            entry("water (80F)", 500_000),
            entry("flour", 500_000),
            entry("salt", 21_000),
            entry("yeast", 3_000),
            entry("water (105F)", 250_000),
        ],
    }
}

/// The recipe "Poolish Bread".
pub fn poolish_bread() -> (recipe: Recipe)
    ensures
        recipe@ == poolish_bread_table(),
{
    let mut ingredients: Vec<Ingredient> = Vec::new();
    weigh_in(&mut ingredients, "flour", 500_000);
    weigh_in(&mut ingredients, "yeast", 400);
    weigh_in(&mut ingredients, "water (80F)", 500_000);
    weigh_in(&mut ingredients, "flour", 500_000);
    weigh_in(&mut ingredients, "salt", 21_000);
    weigh_in(&mut ingredients, "yeast", 3_000);
    weigh_in(&mut ingredients, "water (105F)", 250_000);
    let recipe = Recipe { name: "Poolish Bread".to_owned(), ingredients };
    assert(recipe@.ingredients =~= poolish_bread_table().ingredients);
    recipe
}

/// The recipe "Focaccia" as a table.
pub open spec fn focaccia_table() -> RecipeView {
    RecipeView {
        name: "Focaccia"@,
        ingredients: seq![
            entry("flour", 500_000),
            entry("salt", 10_000),
            entry("yeast", 4_000),
            entry("water (roomtemp)", 400_000),
            entry("olive oil", 20_000),
            entry("olive oil", 28_000),
            entry("olive oil", 20_000),
        ],
    }
}

/// The recipe "Focaccia".
pub fn focaccia() -> (recipe: Recipe)
    ensures
        recipe@ == focaccia_table(),
{
    let mut ingredients: Vec<Ingredient> = Vec::new();
    weigh_in(&mut ingredients, "flour", 500_000);
    weigh_in(&mut ingredients, "salt", 10_000);
    weigh_in(&mut ingredients, "yeast", 4_000);
    weigh_in(&mut ingredients, "water (roomtemp)", 400_000);
    weigh_in(&mut ingredients, "olive oil", 20_000);
    weigh_in(&mut ingredients, "olive oil", 28_000);
    weigh_in(&mut ingredients, "olive oil", 20_000);
    let recipe = Recipe { name: "Focaccia".to_owned(), ingredients };
    assert(recipe@.ingredients =~= focaccia_table().ingredients);
    recipe
}

/// The recipe "Kouign Amann" as a table.
pub open spec fn kouign_amann_table() -> RecipeView {
    RecipeView {
        name: "Kouign Amann"@,
        ingredients: seq![
            entry("flour", 213_000),
            entry("salt", 3_200),
            entry("yeast", 1_600),
            entry("water (75F)", 145_000),
            entry("salted butter", 134_000),
            entry("sugar", 156_000),
        ],
    }
}

/// The recipe "Kouign Amann".
pub fn kouign_amann() -> (recipe: Recipe)
    ensures
        recipe@ == kouign_amann_table(),
{
    let mut ingredients: Vec<Ingredient> = Vec::new();
    weigh_in(&mut ingredients, "flour", 213_000);
    weigh_in(&mut ingredients, "salt", 3_200);
    weigh_in(&mut ingredients, "yeast", 1_600);
    weigh_in(&mut ingredients, "water (75F)", 145_000);
    weigh_in(&mut ingredients, "salted butter", 134_000);
    weigh_in(&mut ingredients, "sugar", 156_000);
    let recipe = Recipe { name: "Kouign Amann".to_owned(), ingredients };
    assert(recipe@.ingredients =~= kouign_amann_table().ingredients);
    recipe
}

/// The recipe "Pie Dough" as a table.
pub open spec fn pie_dough_table() -> RecipeView {
    RecipeView {
        name: "Pie Dough"@,
        ingredients: seq![
            entry("low-protein APF", 225_000),
            entry("sugar", 15_000),
            entry("salt", 4_000),
            entry("unsalted butter", 225_000),
            entry("cold tap water", 115_000),
        ],
    }
}

/// The recipe "Pie Dough".
pub fn pie_dough() -> (recipe: Recipe)
    ensures
        recipe@ == pie_dough_table(),
{
    let mut ingredients: Vec<Ingredient> = Vec::new();
    weigh_in(&mut ingredients, "low-protein APF", 225_000);
    weigh_in(&mut ingredients, "sugar", 15_000);
    weigh_in(&mut ingredients, "salt", 4_000);
    weigh_in(&mut ingredients, "unsalted butter", 225_000);
    weigh_in(&mut ingredients, "cold tap water", 115_000);
    let recipe = Recipe { name: "Pie Dough".to_owned(), ingredients };
    assert(recipe@.ingredients =~= pie_dough_table().ingredients);
    recipe
}

/// The recipe "Butternut Pie" as a table.
pub open spec fn butternut_pie_table() -> RecipeView {
    RecipeView {
        name: "Butternut Pie"@,
        ingredients: seq![
            entry("butternut puree", 395_000),
            entry("condensed milk", 680_000),
            entry("light brown sugar", 115_000),
            entry("vanilla extract", 15_000),
            entry("3/2tsp ground ginger", 1_000),
            entry("3/2tsp ground cinnamon", 1_000),
            entry("1/4tsp grated nutmeg", 1_000),
            entry("salt", 1_000),
            entry("1/8tsp ground cloves", 1_000),
            entry("unsalted butter", 30_000),
            entry("eggs", 145_000),
        ],
    }
}

/// The recipe "Butternut Pie".
pub fn butternut_pie() -> (recipe: Recipe)
    ensures
        recipe@ == butternut_pie_table(),
{
    let mut ingredients: Vec<Ingredient> = Vec::new();
    weigh_in(&mut ingredients, "butternut puree", 395_000);
    weigh_in(&mut ingredients, "condensed milk", 680_000);
    weigh_in(&mut ingredients, "light brown sugar", 115_000);
    weigh_in(&mut ingredients, "vanilla extract", 15_000);
    weigh_in(&mut ingredients, "3/2tsp ground ginger", 1_000);
    weigh_in(&mut ingredients, "3/2tsp ground cinnamon", 1_000);
    weigh_in(&mut ingredients, "1/4tsp grated nutmeg", 1_000);
    weigh_in(&mut ingredients, "salt", 1_000);
    weigh_in(&mut ingredients, "1/8tsp ground cloves", 1_000);
    weigh_in(&mut ingredients, "unsalted butter", 30_000);
    weigh_in(&mut ingredients, "eggs", 145_000);
    let recipe = Recipe { name: "Butternut Pie".to_owned(), ingredients };
    assert(recipe@.ingredients =~= butternut_pie_table().ingredients);
    recipe
}

/// The progress of a recipe that has not been started: made as written,
/// nothing weighed, no ingredient done.
pub open spec fn fresh_progress(ingredients: nat) -> Seq<IngredientProgress> {
    Seq::new(ingredients, |i: int| IngredientProgress { done: false, amount: 0 })
}

/// The progress record a recipe starts with: one entry per ingredient.
pub fn progress_for_recipe(recipe: &Recipe) -> (progress: RecipeProgress)
    ensures
        progress.scale_factor == UNSCALED,
        progress.ingredient_progresses@ == fresh_progress(recipe@.ingredients.len()),
{
    let mut ingredient_progresses: Vec<IngredientProgress> = Vec::new();
    let count = recipe.ingredients.len();
    while ingredient_progresses.len() < count
        invariant
            ingredient_progresses@.len() <= count,
            ingredient_progresses@ == fresh_progress(ingredient_progresses@.len()),
        decreases count - ingredient_progresses@.len(),
    {
        ingredient_progresses.push(IngredientProgress { done: false, amount: 0 });
        assert(ingredient_progresses@ =~= fresh_progress(ingredient_progresses@.len()));
    }
    RecipeProgress { scale_factor: UNSCALED, ingredient_progresses }
}

} // verus!
