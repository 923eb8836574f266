use recipe_scale::recipes::{
    butternut_pie, choux, creme_pat, focaccia, ingredient, kouign_amann, pasta_dough, pie_dough,
    poolish_bread, progress_for_recipe, vegan_choux, vegan_creme_pat, IngredientProgress, Recipe,
    UNSCALED,
};

fn table(recipe: &Recipe) -> Vec<(&str, u32)> {
    recipe.ingredients.iter().map(|i| (i.name.as_str(), i.amount)).collect()
}

#[test]
fn ingredient_keeps_name_and_amount() {
    let item = ingredient("water", 60_000);
    assert_eq!(item.name, "water");
    assert_eq!(item.amount, 60_000);
}

#[test]
fn vegan_choux_table() {
    let recipe = vegan_choux();
    assert_eq!(recipe.name, "Vegan Choux");
    assert_eq!(
        table(&recipe),
        vec![
            ("water", 60_000),
            ("soy milk", 60_000),
            ("vanilla extract", 5_000),
            ("sugar", 6_000),
            ("vegan butter", 28_000),
            ("all-purpose flour", 65_000),
            ("Just Egg", 125_000),
            ("soy milk", 30_000),
        ]
    );
}

#[test]
fn vegan_creme_pat_table() {
    let recipe = vegan_creme_pat();
    assert_eq!(recipe.name, "Vegan Creme Pat");
    assert_eq!(
        table(&recipe),
        vec![
            ("soy milk", 486_000),
            ("vanilla extract", 20_000),
            ("salt", 2_000),
            ("corn starch", 32_000),
            ("sugar", 100_000),
            ("Just Egg", 166_000),
            ("vegan butter", 84_000),
        ]
    );
}

#[test]
fn choux_table() {
    let recipe = choux();
    assert_eq!(recipe.name, "Choux");
    assert_eq!(
        table(&recipe),
        vec![
            ("water", 235_000),
            ("butter", 84_000),
            ("sugar", 8_000),
            ("salt", 2_000),
            ("all-purpose flour", 128_000),
            ("eggs", 200_000),
        ]
    );
}

#[test]
fn creme_pat_table() {
    let recipe = creme_pat();
    assert_eq!(recipe.name, "Creme Pat");
    assert_eq!(
        table(&recipe),
        vec![
            ("milk", 455_000),
            ("vanilla bean", 1_000),
            ("sugar", 115_000),
            ("corn starch", 30_000),
            ("salt", 1_000),
            ("egg yolks", 70_000),
            ("butter", 30_000),
        ]
    );
}

#[test]
fn pasta_dough_table() {
    let recipe = pasta_dough();
    assert_eq!(recipe.name, "Egg Pasta");
    assert_eq!(
        table(&recipe),
        vec![("flour", 255_000), ("whole eggs", 110_000), ("egg yolks", 70_000), ("salt", 3_000)]
    );
}

#[test]
fn poolish_bread_table() {
    let recipe = poolish_bread();
    assert_eq!(recipe.name, "Poolish Bread");
    assert_eq!(
        table(&recipe),
        vec![
            ("flour", 500_000),
            ("yeast", 400),
            ("water (80F)", 500_000),
            ("flour", 500_000),
            ("salt", 21_000),
            ("yeast", 3_000),
            ("water (105F)", 250_000),
        ]
    );
}

#[test]
fn focaccia_table() {
    let recipe = focaccia();
    assert_eq!(recipe.name, "Focaccia");
    assert_eq!(
        table(&recipe),
        vec![
            ("flour", 500_000),
            ("salt", 10_000),
            ("yeast", 4_000),
            ("water (roomtemp)", 400_000),
            ("olive oil", 20_000),
            ("olive oil", 28_000),
            ("olive oil", 20_000),
        ]
    );
}

#[test]
fn kouign_amann_table() {
    let recipe = kouign_amann();
    assert_eq!(recipe.name, "Kouign Amann");
    assert_eq!(
        table(&recipe),
        vec![
            ("flour", 213_000),
            ("salt", 3_200),
            ("yeast", 1_600),
            ("water (75F)", 145_000),
            ("salted butter", 134_000),
            ("sugar", 156_000),
        ]
    );
}

#[test]
fn pie_dough_table() {
    let recipe = pie_dough();
    assert_eq!(recipe.name, "Pie Dough");
    assert_eq!(
        table(&recipe),
        vec![
            ("low-protein APF", 225_000),
            ("sugar", 15_000),
            ("salt", 4_000),
            ("unsalted butter", 225_000),
            ("cold tap water", 115_000),
        ]
    );
}

#[test]
fn butternut_pie_table() {
    let recipe = butternut_pie();
    assert_eq!(recipe.name, "Butternut Pie");
    assert_eq!(
        table(&recipe),
        vec![
            ("butternut puree", 395_000),
            ("condensed milk", 680_000),
            ("light brown sugar", 115_000),
            ("vanilla extract", 15_000),
            ("3/2tsp ground ginger", 1_000),
            ("3/2tsp ground cinnamon", 1_000),
            ("1/4tsp grated nutmeg", 1_000),
            ("salt", 1_000),
            ("1/8tsp ground cloves", 1_000),
            ("unsalted butter", 30_000),
            ("eggs", 145_000),
        ]
    );
}

#[test]
fn milligrams_convert_to_the_kilograms_of_the_display() {
    let kilograms: Vec<f32> =
        kouign_amann().ingredients.iter().map(|i| i.amount as f32 / 1_000_000.0).collect();
    assert_eq!(kilograms, vec![0.213, 0.0032, 0.0016, 0.145, 0.134, 0.156]);
}

#[test]
fn progress_starts_with_nothing_weighed() {
    let recipe = butternut_pie();
    let progress = progress_for_recipe(&recipe);
    assert_eq!(progress.scale_factor, UNSCALED);
    assert_eq!(
        progress.ingredient_progresses,
        vec![IngredientProgress { done: false, amount: 0 }; 11]
    );
    let empty = Recipe { name: String::new(), ingredients: Vec::new() };
    assert_eq!(progress_for_recipe(&empty).ingredient_progresses, Vec::new());
}
