//! Names that every node shares.

use vstd::prelude::*;

verus! {

/// Path of the file that holds the local recipes, where none is named.
pub const STORAGE_FILE_PATH: &'static str = "./recipes.json";

/// Name of the topic on which all nodes exchange requests and responses.
pub const TOPIC_NAME: &'static str = "recipes";

} // verus!
