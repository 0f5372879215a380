//! Recipes, as local storage keeps them and responses carry them.

use vstd::prelude::*;

verus! {

/// One recipe. Only a recipe marked `public` may leave the node.
#[derive(Debug, PartialEq, Eq)]
pub struct Recipe {
    pub id: usize,
    pub name: String,
    pub ingredients: String,
    pub instructions: String,
    pub public: bool,
}

/// What a [`Recipe`] holds.
pub struct RecipeView {
    pub id: usize,
    pub name: Seq<char>,
    pub ingredients: Seq<char>,
    pub instructions: Seq<char>,
    pub public: bool,
}

impl View for Recipe {
    type V = RecipeView;

    open spec fn view(&self) -> RecipeView {
        RecipeView {
            id: self.id,
            name: self.name@,
            ingredients: self.ingredients@,
            instructions: self.instructions@,
            public: self.public,
        }
    }
}

impl Clone for Recipe {
    fn clone(&self) -> (r: Self)
        ensures
            r@ == self@,
    {
        Recipe {
            id: self.id,
            name: self.name.clone(),
            ingredients: self.ingredients.clone(),
            instructions: self.instructions.clone(),
            public: self.public,
        }
    }
}

/// What a list of recipes holds, in order.
pub open spec fn recipe_views(recipes: Seq<Recipe>) -> Seq<RecipeView> {
    recipes.map_values(|r: Recipe| r@)
}

/// The recipes of `all` that are public, in their order.
pub open spec fn public_only(all: Seq<RecipeView>) -> Seq<RecipeView> {
    all.filter(|r: RecipeView| r.public)
}

/// Copies the public recipes out of `all`, keeping their order.
pub fn public_recipes(all: &Vec<Recipe>) -> (r: Vec<Recipe>)
    ensures
        recipe_views(r@) == public_only(recipe_views(all@)),
{
    let mut kept: Vec<Recipe> = Vec::new();
    let mut i: usize = 0;
    proof {
        assert(recipe_views(all@).subrange(0, 0) =~= Seq::<RecipeView>::empty());
        assert(recipe_views(kept@) =~= Seq::<RecipeView>::empty());
    }
    while i < all.len()
        invariant
            i <= all.len(),
            recipe_views(kept@) == public_only(recipe_views(all@).subrange(0, i as int)),
        decreases all.len() - i,
    {
        let ghost before = recipe_views(all@).subrange(0, i as int);
        let ghost old_kept = recipe_views(kept@);
        proof {
            assert(recipe_views(all@).subrange(0, i + 1) =~= before.push(all@[i as int]@));
            lemma_filter_push(before, all@[i as int]@);
        }
        if all[i].public {
            let copy = all[i].clone();
            kept.push(copy);
            assert(recipe_views(kept@) =~= old_kept.push(all@[i as int]@));
        }
        i += 1;
    }
    proof {
        assert(recipe_views(all@).subrange(0, all.len() as int) =~= recipe_views(all@));
    }
    kept
}

/// Filtering a list that grew by one item at its end.
proof fn lemma_filter_push(s: Seq<RecipeView>, x: RecipeView)
    ensures
        public_only(s.push(x)) == if x.public {
            public_only(s).push(x)
        } else {
            public_only(s)
        },
{
    reveal(Seq::filter);
    assert(s.push(x).drop_last() =~= s);
}

} // verus!
