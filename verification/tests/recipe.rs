use recipe_p2p::recipe::{public_recipes, Recipe};

fn recipe(id: usize, public: bool) -> Recipe {
    Recipe {
        id,
        name: format!("recipe {}", id),
        ingredients: "some".to_string(),
        instructions: "mix".to_string(),
        public,
    }
}

#[test]
fn public_recipes_keeps_the_public_ones_in_order() {
    let all = vec![recipe(1, false), recipe(2, true), recipe(3, true), recipe(4, false), recipe(5, true)];
    assert_eq!(public_recipes(&all), vec![recipe(2, true), recipe(3, true), recipe(5, true)]);
}

#[test]
fn public_recipes_of_none_or_of_private_ones_is_empty() {
    assert_eq!(public_recipes(&vec![]), vec![]);
    assert_eq!(public_recipes(&vec![recipe(1, false), recipe(2, false)]), vec![]);
}

#[test]
fn a_copy_of_a_recipe_is_equal_to_it() {
    let first = recipe(9, true);
    assert_eq!(first.clone(), first);
}
