//! The wire format: how requests, responses and recipes are laid out as JSON
//! values, and how they are read back.
//!
//! A mode is the string `"ALL"`, or an object with the one member `"One"`
//! whose value is the peer addressed; the object with the one member `"ALL"`
//! and value `null` is read as `ALL` too. A request is an object with the
//! member `mode`; a response has `mode`, `data` and `receiver`; a recipe has
//! `id`, `name`, `ingredients`, `instructions` and `public`. Members under
//! other keys are ignored when reading, and members are read in any order.
//! A response is written with its members in the order given here.

use vstd::prelude::*;
use vstd::string::StringSliceAdditionalSpecFns;
use crate::json::{
    array_value, bool_value, has_count, map_get, map_insert, map_len, map_new, no_members,
    number_value, object_value, parse_value, parsed_tree, print_value, printed_tree, text_value,
    value_as_array, value_as_bool, value_as_object, value_as_str, value_as_u64, value_is_null,
    value_tree, value_trees, JsonNumber, JsonTree,
};
use crate::messages::{
    ListMode, ListModeView, ListRequest, ListRequestView, ListResponse, ListResponseView,
};
use crate::recipe::{recipe_views, Recipe, RecipeView};
use crate::text::same_text;

verus! {

/// The member of an object under `key`, if there is one.
pub open spec fn member(members: Map<Seq<char>, JsonTree>, key: Seq<char>) -> Option<JsonTree> {
    if members.contains_key(key) {
        Some(members[key])
    } else {
        None
    }
}

/// The JSON value that stands for a mode.
pub open spec fn mode_tree(mode: ListModeView) -> JsonTree {
    match mode {
        ListModeView::ALL => JsonTree::Text("ALL"@),
        ListModeView::One(peer) => JsonTree::Object(
            no_members().insert("One"@, JsonTree::Text(peer)),
        ),
    }
}

/// The JSON value that stands for a recipe.
pub open spec fn recipe_tree(recipe: RecipeView) -> JsonTree {
    JsonTree::Object(
        no_members().insert(
            "id"@,
            JsonTree::Number(JsonNumber::Unsigned(recipe.id as u64)),
        ).insert("name"@, JsonTree::Text(recipe.name)).insert(
            "ingredients"@,
            JsonTree::Text(recipe.ingredients),
        ).insert("instructions"@, JsonTree::Text(recipe.instructions)).insert(
            "public"@,
            JsonTree::Bool(recipe.public),
        ),
    )
}

/// The JSON values that stand for a list of recipes, in order.
pub open spec fn recipe_trees(recipes: Seq<RecipeView>) -> Seq<JsonTree> {
    recipes.map_values(|recipe: RecipeView| recipe_tree(recipe))
}

/// The JSON value that stands for a response.
pub open spec fn response_tree(response: ListResponseView) -> JsonTree {
    JsonTree::Object(
        no_members().insert("mode"@, mode_tree(response.mode)).insert(
            "data"@,
            JsonTree::Array(recipe_trees(response.data)),
        ).insert("receiver"@, JsonTree::Text(response.receiver)),
    )
}

/// The JSON value that stands for a request.
pub open spec fn request_tree(request: ListRequestView) -> JsonTree {
    JsonTree::Object(no_members().insert("mode"@, mode_tree(request.mode)))
}

/// The mode that a JSON value stands for, if it stands for one.
pub open spec fn tree_mode(tree: JsonTree) -> Option<ListModeView> {
    match tree {
        JsonTree::Text(name) => if name == "ALL"@ {
            Some(ListModeView::ALL)
        } else {
            None
        },
        JsonTree::Object(members) => if !has_count(members, 1) {
            None
        } else {
            match (member(members, "ALL"@), member(members, "One"@)) {
                (Some(JsonTree::Null), _) => Some(ListModeView::ALL),
                (None, Some(JsonTree::Text(peer))) => Some(ListModeView::One(peer)),
                _ => None,
            }
        },
        _ => None,
    }
}

/// The recipe that a JSON value stands for, if it stands for one.
pub open spec fn tree_recipe(tree: JsonTree) -> Option<RecipeView> {
    match tree {
        JsonTree::Object(members) => match (
            member(members, "id"@),
            member(members, "name"@),
            member(members, "ingredients"@),
            member(members, "instructions"@),
            member(members, "public"@),
        ) {
            (
                Some(JsonTree::Number(JsonNumber::Unsigned(id))),
                Some(JsonTree::Text(name)),
                Some(JsonTree::Text(ingredients)),
                Some(JsonTree::Text(instructions)),
                Some(JsonTree::Bool(public)),
            ) => if id <= usize::MAX {
                Some(RecipeView { id: id as usize, name, ingredients, instructions, public })
            } else {
                None
            },
            _ => None,
        },
        _ => None,
    }
}

/// The recipes that a list of JSON values stands for, if each stands for one.
pub open spec fn tree_recipes(trees: Seq<JsonTree>) -> Option<Seq<RecipeView>> {
    if forall|i: int| 0 <= i < trees.len() ==> (#[trigger] tree_recipe(trees[i])) is Some {
        Some(trees.map_values(|tree: JsonTree| tree_recipe(tree).unwrap()))
    } else {
        None
    }
}

/// The response that a JSON value stands for, if it stands for one.
pub open spec fn tree_response(tree: JsonTree) -> Option<ListResponseView> {
    match tree {
        JsonTree::Object(members) => match (
            member(members, "mode"@),
            member(members, "data"@),
            member(members, "receiver"@),
        ) {
            (Some(mode), Some(JsonTree::Array(items)), Some(JsonTree::Text(receiver))) => match (
                tree_mode(mode),
                tree_recipes(items),
            ) {
                (Some(mode), Some(data)) => Some(ListResponseView { mode, data, receiver }),
                _ => None,
            },
            _ => None,
        },
        _ => None,
    }
}

/// The request that a JSON value stands for, if it stands for one.
pub open spec fn tree_request(tree: JsonTree) -> Option<ListRequestView> {
    match tree {
        JsonTree::Object(members) => match member(members, "mode"@) {
            Some(mode) => match tree_mode(mode) {
                Some(mode) => Some(ListRequestView { mode }),
                None => None,
            },
            None => None,
        },
        _ => None,
    }
}

/// Reads a mode from a JSON value.
pub fn mode_from_value(value: &serde_json::Value) -> (r: Option<ListMode>)
    ensures
        match r {
            Some(mode) => tree_mode(value_tree(*value)) == Some(mode@),
            None => tree_mode(value_tree(*value)) is None,
        },
{
    match value_as_str(value) {
        Some(name) => {
            if same_text(name, "ALL") {
                Some(ListMode::ALL)
            } else {
                None
            }
        },
        None => match value_as_object(value) {
            Some(members) => {
                if map_len(members) != 1 {
                    return None;
                }
                match map_get(members, "ALL") {
                    Some(nothing) => {
                        if value_is_null(nothing) {
                            Some(ListMode::ALL)
                        } else {
                            None
                        }
                    },
                    None => match map_get(members, "One") {
                        Some(peer) => match value_as_str(peer) {
                            Some(peer) => Some(ListMode::One(peer.to_owned())),
                            None => None,
                        },
                        None => None,
                    },
                }
            },
            None => None,
        },
    }
}

/// Reads a recipe from a JSON value.
pub fn recipe_from_value(value: &serde_json::Value) -> (r: Option<Recipe>)
    ensures
        match r {
            Some(recipe) => tree_recipe(value_tree(*value)) == Some(recipe@),
            None => tree_recipe(value_tree(*value)) is None,
        },
{
    let members = match value_as_object(value) {
        Some(members) => members,
        None => return None,
    };
    let id = match map_get(members, "id") {
        Some(id) => match value_as_u64(id) {
            Some(id) => id,
            None => return None,
        },
        None => return None,
    };
    let name = match map_get(members, "name") {
        Some(name) => match value_as_str(name) {
            Some(name) => name,
            None => return None,
        },
        None => return None,
    };
    let ingredients = match map_get(members, "ingredients") {
        Some(ingredients) => match value_as_str(ingredients) {
            Some(ingredients) => ingredients,
            None => return None,
        },
        None => return None,
    };
    let instructions = match map_get(members, "instructions") {
        Some(instructions) => match value_as_str(instructions) {
            Some(instructions) => instructions,
            None => return None,
        },
        None => return None,
    };
    let public = match map_get(members, "public") {
        Some(public) => match value_as_bool(public) {
            Some(public) => public,
            None => return None,
        },
        None => return None,
    };
    if id > usize::MAX as u64 {
        return None;
    }
    Some(
        Recipe {
            id: id as usize,
            name: name.to_owned(),
            ingredients: ingredients.to_owned(),
            instructions: instructions.to_owned(),
            public,
        },
    )
}

/// Reads a list of recipes from a list of JSON values: all of them, or none
/// where one of the values is no recipe.
pub fn recipes_from_values(values: &Vec<serde_json::Value>) -> (r: Option<Vec<Recipe>>)
    ensures
        match r {
            Some(recipes) => tree_recipes(value_trees(values@)) == Some(recipe_views(recipes@)),
            None => tree_recipes(value_trees(values@)) is None,
        },
{
    let ghost trees = value_trees(values@);
    let mut recipes: Vec<Recipe> = Vec::new();
    let mut i: usize = 0;
    while i < values.len()
        invariant
            i <= values.len(),
            trees == value_trees(values@),
            recipes@.len() == i,
            forall|j: int| 0 <= j < i ==> tree_recipe(trees[j]) == Some(#[trigger] recipes@[j]@),
        decreases values.len() - i,
    {
        match recipe_from_value(&values[i]) {
            Some(recipe) => {
                recipes.push(recipe);
            },
            None => {
                assert(tree_recipe(trees[i as int]) is None);
                return None;
            },
        }
        i += 1;
    }
    proof {
        assert forall|j: int| 0 <= j < trees.len() implies (#[trigger] tree_recipe(
            trees[j],
        )) is Some by {
            assert(tree_recipe(trees[j]) == Some(recipes@[j]@));
        }
        assert(trees.map_values(|tree: JsonTree| tree_recipe(tree).unwrap()) =~= recipe_views(
            recipes@,
        ));
    }
    Some(recipes)
}

/// Reads a response from a JSON value.
pub fn response_from_value(value: &serde_json::Value) -> (r: Option<ListResponse>)
    ensures
        match r {
            Some(response) => tree_response(value_tree(*value)) == Some(response@),
            None => tree_response(value_tree(*value)) is None,
        },
{
    let members = match value_as_object(value) {
        Some(members) => members,
        None => return None,
    };
    let mode = match map_get(members, "mode") {
        Some(mode) => mode,
        None => return None,
    };
    let items = match map_get(members, "data") {
        Some(data) => match value_as_array(data) {
            Some(items) => items,
            None => return None,
        },
        None => return None,
    };
    let receiver = match map_get(members, "receiver") {
        Some(receiver) => match value_as_str(receiver) {
            Some(receiver) => receiver,
            None => return None,
        },
        None => return None,
    };
    let mode = match mode_from_value(mode) {
        Some(mode) => mode,
        None => return None,
    };
    let data = match recipes_from_values(items) {
        Some(data) => data,
        None => return None,
    };
    Some(ListResponse { mode, data, receiver: receiver.to_owned() })
}

/// Reads a request from a JSON value.
pub fn request_from_value(value: &serde_json::Value) -> (r: Option<ListRequest>)
    ensures
        match r {
            Some(request) => tree_request(value_tree(*value)) == Some(request@),
            None => tree_request(value_tree(*value)) is None,
        },
{
    let members = match value_as_object(value) {
        Some(members) => members,
        None => return None,
    };
    let mode = match map_get(members, "mode") {
        Some(mode) => mode,
        None => return None,
    };
    match mode_from_value(mode) {
        Some(mode) => Some(ListRequest { mode }),
        None => None,
    }
}

/// What a payload from the shared topic turned out to be.
#[derive(Debug, PartialEq, Eq)]
pub enum Decoded {
    Response(ListResponse),
    Request(ListRequest),
    Unrecognized,
}

/// What a [`Decoded`] holds.
pub enum DecodedView {
    Response(ListResponseView),
    Request(ListRequestView),
    Unrecognized,
}

impl View for Decoded {
    type V = DecodedView;

    open spec fn view(&self) -> DecodedView {
        match self {
            Decoded::Response(response) => DecodedView::Response(response@),
            Decoded::Request(request) => DecodedView::Request(request@),
            Decoded::Unrecognized => DecodedView::Unrecognized,
        }
    }
}

/// What a JSON value is on the wire: a response where it stands for one,
/// else a request where it stands for one, else nothing known.
pub open spec fn tree_message(tree: JsonTree) -> DecodedView {
    match tree_response(tree) {
        Some(response) => DecodedView::Response(response),
        None => match tree_request(tree) {
            Some(request) => DecodedView::Request(request),
            None => DecodedView::Unrecognized,
        },
    }
}

/// What a payload is on the wire: the message that its JSON value stands
/// for, and nothing known where the bytes are no JSON text.
pub open spec fn payload_message(payload: Seq<u8>) -> DecodedView {
    match parsed_tree(payload) {
        Some(tree) => tree_message(tree),
        None => DecodedView::Unrecognized,
    }
}

/// Classifies a JSON value: it is tried as a response first, and as a
/// request only if it is no response.
pub fn decode_value(value: &serde_json::Value) -> (r: Decoded)
    ensures
        r@ == tree_message(value_tree(*value)),
{
    match response_from_value(value) {
        Some(response) => Decoded::Response(response),
        None => match request_from_value(value) {
            Some(request) => Decoded::Request(request),
            None => Decoded::Unrecognized,
        },
    }
}

/// Decodes a payload from the shared topic. Bytes that are no JSON text, and
/// JSON that is neither a response nor a request, are `Unrecognized`.
pub fn decode(payload: &[u8]) -> (r: Decoded)
    ensures
        r@ == payload_message(payload@),
        parsed_tree(payload@) is None ==> r is Unrecognized,
{
    match parse_value(payload) {
        Ok(value) => decode_value(&value),
        Err(_) => Decoded::Unrecognized,
    }
}

/// Builds the JSON value of a mode.
pub fn mode_to_value(mode: &ListMode) -> (r: serde_json::Value)
    ensures
        value_tree(r) == mode_tree(mode@),
{
    match mode {
        ListMode::ALL => text_value("ALL".to_owned()),
        ListMode::One(peer) => {
            let mut members = map_new();
            let _ = map_insert(&mut members, "One".to_owned(), text_value(peer.clone()));
            object_value(members)
        },
    }
}

/// Builds the JSON value of a recipe.
pub fn recipe_to_value(recipe: &Recipe) -> (r: serde_json::Value)
    ensures
        value_tree(r) == recipe_tree(recipe@),
{
    let mut members = map_new();
    let _ = map_insert(&mut members, "id".to_owned(), number_value(recipe.id as u64));
    let _ = map_insert(&mut members, "name".to_owned(), text_value(recipe.name.clone()));
    let _ = map_insert(
        &mut members,
        "ingredients".to_owned(),
        text_value(recipe.ingredients.clone()),
    );
    let _ = map_insert(
        &mut members,
        "instructions".to_owned(),
        text_value(recipe.instructions.clone()),
    );
    let _ = map_insert(&mut members, "public".to_owned(), bool_value(recipe.public));
    object_value(members)
}

/// Builds the JSON values of a list of recipes, in order.
pub fn recipes_to_values(recipes: &Vec<Recipe>) -> (r: Vec<serde_json::Value>)
    ensures
        value_trees(r@) == recipe_trees(recipe_views(recipes@)),
{
    let mut values: Vec<serde_json::Value> = Vec::new();
    let mut i: usize = 0;
    while i < recipes.len()
        invariant
            i <= recipes.len(),
            values@.len() == i,
            forall|j: int| 0 <= j < i ==> value_tree(#[trigger] values@[j]) == recipe_tree(
                recipes@[j]@,
            ),
        decreases recipes.len() - i,
    {
        let value = recipe_to_value(&recipes[i]);
        values.push(value);
        i += 1;
    }
    assert(value_trees(values@) =~= recipe_trees(recipe_views(recipes@)));
    values
}

/// Builds the JSON value of a response: the value that `response_from_value`
/// reads back as this response.
pub fn response_to_value(response: &ListResponse) -> (r: serde_json::Value)
    ensures
        value_tree(r) == response_tree(response@),
{
    let mut members = map_new();
    let _ = map_insert(&mut members, "mode".to_owned(), mode_to_value(&response.mode));
    let _ = map_insert(
        &mut members,
        "data".to_owned(),
        array_value(recipes_to_values(&response.data)),
    );
    let _ = map_insert(&mut members, "receiver".to_owned(), text_value(response.receiver.clone()));
    object_value(members)
}

/// Builds the JSON value of a request.
pub fn request_to_value(request: &ListRequest) -> (r: serde_json::Value)
    ensures
        value_tree(r) == request_tree(request@),
{
    let mut members = map_new();
    let _ = map_insert(&mut members, "mode".to_owned(), mode_to_value(&request.mode));
    object_value(members)
}

/// The text of a mode: what `serde_json` writes for its JSON value.
pub open spec fn mode_text(mode: ListModeView) -> Seq<u8> {
    printed_tree(mode_tree(mode))
}

/// The text of a string: what `serde_json` writes for it, in quotes and
/// with its escapes.
pub open spec fn string_text(text: Seq<char>) -> Seq<u8> {
    printed_tree(JsonTree::Text(text))
}

/// The text of a recipe: an object with its members in the order `id`,
/// `name`, `ingredients`, `instructions`, `public`, without any space.
pub open spec fn recipe_text(recipe: RecipeView) -> Seq<u8> {
    "{\"id\":".spec_bytes() + printed_tree(
        JsonTree::Number(JsonNumber::Unsigned(recipe.id as u64)),
    ) + ",\"name\":".spec_bytes() + string_text(recipe.name) + ",\"ingredients\":".spec_bytes()
        + string_text(recipe.ingredients) + ",\"instructions\":".spec_bytes() + string_text(
        recipe.instructions,
    ) + ",\"public\":".spec_bytes() + printed_tree(JsonTree::Bool(recipe.public))
        + "}".spec_bytes()
}

/// The texts of a list of recipes, in order, with a comma between each two.
pub open spec fn recipes_text(recipes: Seq<RecipeView>) -> Seq<u8>
    decreases recipes.len(),
{
    if recipes.len() == 0 {
        Seq::empty()
    } else if recipes.len() == 1 {
        recipe_text(recipes[0])
    } else {
        recipes_text(recipes.drop_last()) + ",".spec_bytes() + recipe_text(recipes.last())
    }
}

/// The text of a response: an object with its members in the order `mode`,
/// `data`, `receiver`, without any space; `data` is the array of the recipes.
pub open spec fn response_text(response: ListResponseView) -> Seq<u8> {
    "{\"mode\":".spec_bytes() + mode_text(response.mode) + ",\"data\":[".spec_bytes()
        + recipes_text(response.data) + "],\"receiver\":".spec_bytes() + string_text(
        response.receiver,
    ) + "}".spec_bytes()
}

/// Appends fixed text to `out`.
fn append_fixed(out: &mut Vec<u8>, text: &str)
    ensures
        final(out)@ == old(out)@ + text.spec_bytes(),
{
    out.extend_from_slice(text.as_bytes());
    assert(out@ =~= old(out)@ + text.spec_bytes());
}

/// Appends to `out` the text that `serde_json` writes for `value`.
fn append_printed(out: &mut Vec<u8>, value: &serde_json::Value)
    ensures
        final(out)@ == old(out)@ + printed_tree(value_tree(*value)),
{
    match print_value(value) {
        Ok(text) => {
            out.extend_from_slice(text.as_slice());
            assert(out@ =~= old(out)@ + text@);
        },
        Err(_) => {},
    }
}

/// Appends the text of a recipe to `out`.
fn append_recipe(out: &mut Vec<u8>, recipe: &Recipe)
    ensures
        final(out)@ == old(out)@ + recipe_text(recipe@),
{
    append_fixed(out, "{\"id\":");
    append_printed(out, &number_value(recipe.id as u64));
    append_fixed(out, ",\"name\":");
    append_printed(out, &text_value(recipe.name.clone()));
    append_fixed(out, ",\"ingredients\":");
    append_printed(out, &text_value(recipe.ingredients.clone()));
    append_fixed(out, ",\"instructions\":");
    append_printed(out, &text_value(recipe.instructions.clone()));
    append_fixed(out, ",\"public\":");
    append_printed(out, &bool_value(recipe.public));
    append_fixed(out, "}");
    assert(out@ =~= old(out)@ + recipe_text(recipe@));
}

/// Appends the texts of a list of recipes to `out`, with a comma between
/// each two.
fn append_recipes(out: &mut Vec<u8>, recipes: &Vec<Recipe>)
    ensures
        final(out)@ == old(out)@ + recipes_text(recipe_views(recipes@)),
{
    let ghost all = recipe_views(recipes@);
    let mut i: usize = 0;
    assert(out@ =~= old(out)@ + recipes_text(all.subrange(0, 0)));
    while i < recipes.len()
        invariant
            i <= recipes.len(),
            all == recipe_views(recipes@),
            out@ == old(out)@ + recipes_text(all.subrange(0, i as int)),
        decreases recipes.len() - i,
    {
        let ghost before = out@;
        let ghost done = all.subrange(0, i as int);
        let ghost next = all.subrange(0, i + 1);
        proof {
            assert(next.drop_last() =~= done);
            assert(next.last() == recipes@[i as int]@);
        }
        if i > 0 {
            append_fixed(out, ",");
        }
        append_recipe(out, &recipes[i]);
        proof {
            if i == 0 {
                assert(recipes_text(done) =~= Seq::<u8>::empty());
                assert(next[0] == recipes@[i as int]@);
            }
            assert(out@ =~= old(out)@ + recipes_text(next));
        }
        i += 1;
    }
    assert(all.subrange(0, recipes.len() as int) =~= all);
}

/// Encodes a response for the shared topic: compact JSON text with the
/// members in the order `mode`, `data`, `receiver`, and every string, number
/// and truth value as `serde_json` writes it.
pub fn encode(response: &ListResponse) -> (r: Vec<u8>)
    ensures
        r@ == response_text(response@),
{
    let mut out: Vec<u8> = Vec::new();
    append_fixed(&mut out, "{\"mode\":");
    append_printed(&mut out, &mode_to_value(&response.mode));
    append_fixed(&mut out, ",\"data\":[");
    append_recipes(&mut out, &response.data);
    append_fixed(&mut out, "],\"receiver\":");
    append_printed(&mut out, &text_value(response.receiver.clone()));
    append_fixed(&mut out, "}");
    assert(out@ =~= response_text(response@));
    out
}

/// Encodes a request for the shared topic: the compact JSON text of its
/// value.
pub fn encode_request(request: &ListRequest) -> (r: Vec<u8>)
    ensures
        r@ == printed_tree(request_tree(request@)),
{
    let value = request_to_value(request);
    match print_value(&value) {
        Ok(text) => text,
        Err(_) => Vec::new(),
    }
}

/// Why the content of a recipe file could not be read.
#[derive(Debug, Clone, Copy, PartialEq, Eq, Structural)]
pub enum RecipesError {
    /// The bytes are no JSON text.
    NotJson,
    /// The JSON value is no array of recipes.
    NotRecipes,
}

/// The recipes that the content of a recipe file stands for: a JSON array
/// in which every item is a recipe.
pub open spec fn file_recipes(content: Seq<u8>) -> Result<Seq<RecipeView>, RecipesError> {
    match parsed_tree(content) {
        None => Err(RecipesError::NotJson),
        Some(JsonTree::Array(items)) => match tree_recipes(items) {
            Some(recipes) => Ok(recipes),
            None => Err(RecipesError::NotRecipes),
        },
        Some(_) => Err(RecipesError::NotRecipes),
    }
}

/// Reads the recipes out of the content of a recipe file.
pub fn decode_recipes(content: &[u8]) -> (r: Result<Vec<Recipe>, RecipesError>)
    ensures
        match r {
            Ok(recipes) => file_recipes(content@) == Ok::<Seq<RecipeView>, RecipesError>(
                recipe_views(recipes@),
            ),
            Err(e) => file_recipes(content@) == Err::<Seq<RecipeView>, RecipesError>(e),
        },
{
    let value = match parse_value(content) {
        Ok(value) => value,
        Err(_) => return Err(RecipesError::NotJson),
    };
    let items = match value_as_array(&value) {
        Some(items) => items,
        None => return Err(RecipesError::NotRecipes),
    };
    match recipes_from_values(items) {
        Some(recipes) => Ok(recipes),
        None => Err(RecipesError::NotRecipes),
    }
}

/// The keys of the wire format are pairwise different strings.
proof fn lemma_keys_differ()
    ensures
        "ALL"@ != "One"@,
        "mode"@ != "data"@,
        "mode"@ != "receiver"@,
        "data"@ != "receiver"@,
        "id"@ != "name"@,
        "id"@ != "ingredients"@,
        "id"@ != "instructions"@,
        "id"@ != "public"@,
        "name"@ != "ingredients"@,
        "name"@ != "instructions"@,
        "name"@ != "public"@,
        "ingredients"@ != "instructions"@,
        "ingredients"@ != "public"@,
        "instructions"@ != "public"@,
{
    reveal_strlit("ALL");
    reveal_strlit("One");
    reveal_strlit("mode");
    reveal_strlit("data");
    reveal_strlit("receiver");
    reveal_strlit("id");
    reveal_strlit("name");
    reveal_strlit("ingredients");
    reveal_strlit("instructions");
    reveal_strlit("public");
    assert("ALL"@[0] != "One"@[0]);
    assert("mode"@[0] != "data"@[0]);
    assert("receiver"@.len() == 8);
    assert("id"@.len() == 2);
    assert("name"@.len() == 4);
    assert("ingredients"@.len() == 11);
    assert("instructions"@.len() == 12);
    assert("public"@.len() == 6);
}

/// A mode written as a JSON value is read back as the same mode.
pub proof fn lemma_mode_round_trip(mode: ListModeView)
    ensures
        tree_mode(mode_tree(mode)) == Some(mode),
{
    lemma_keys_differ();
    match mode {
        ListModeView::ALL => {},
        ListModeView::One(peer) => {
            let members = no_members().insert("One"@, JsonTree::Text(peer));
            assert(members.dom() =~= Set::<Seq<char>>::empty().insert("One"@));
        },
    }
}

/// A recipe written as a JSON value is read back as the same recipe.
pub proof fn lemma_recipe_round_trip(recipe: RecipeView)
    ensures
        tree_recipe(recipe_tree(recipe)) == Some(recipe),
{
    lemma_keys_differ();
}

/// A list of recipes written as JSON values is read back as the same list.
pub proof fn lemma_recipes_round_trip(recipes: Seq<RecipeView>)
    ensures
        tree_recipes(recipe_trees(recipes)) == Some(recipes),
{
    let trees = recipe_trees(recipes);
    assert forall|i: int| 0 <= i < trees.len() implies (#[trigger] tree_recipe(trees[i])) == Some(
        recipes[i],
    ) by {
        lemma_recipe_round_trip(recipes[i]);
    }
    assert(trees.map_values(|tree: JsonTree| tree_recipe(tree).unwrap()) =~= recipes);
}

/// A response written as a JSON value is read back as the same response,
/// and a value that stands for a response is never taken for a request.
pub proof fn lemma_response_round_trip(response: ListResponseView)
    ensures
        tree_response(response_tree(response)) == Some(response),
        tree_message(response_tree(response)) == DecodedView::Response(response),
{
    lemma_keys_differ();
    lemma_mode_round_trip(response.mode);
    lemma_recipes_round_trip(response.data);
}

/// A request written as a JSON value is read back as the same request, and
/// is not taken for a response.
pub proof fn lemma_request_round_trip(request: ListRequestView)
    ensures
        tree_request(request_tree(request)) == Some(request),
        tree_message(request_tree(request)) == DecodedView::Request(request),
{
    lemma_keys_differ();
    lemma_mode_round_trip(request.mode);
}

} // verus!
