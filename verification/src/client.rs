//! What a node knows of itself.

use vstd::prelude::*;
use vstd::string::StringExecFns;
use crate::constants::TOPIC_NAME;

verus! {

/// The local node: its name, the printable identifier that its key pair
/// gives it, the topic it joins and the file that holds its recipes.
#[derive(Debug, PartialEq, Eq)]
pub struct Client {
    pub name: String,
    pub peer_id: String,
    pub topic: String,
    pub storage_file_path: String,
}

/// The path of the file that holds the recipes of the node called `name`.
pub open spec fn storage_path(name: Seq<char>) -> Seq<char> {
    "./database/recipes/recipe_"@ + name + ".json"@
}

impl Client {
    /// The node called `name`, whose key pair gives it the identifier
    /// `peer_id`. It joins the topic that all nodes share.
    pub fn new(name: &str, peer_id: String) -> (r: Self)
        ensures
            r.name@ == name@,
            r.peer_id == peer_id,
            r.topic@ == TOPIC_NAME@,
            r.storage_file_path@ == storage_path(name@),
    {
        let mut path = "./database/recipes/recipe_".to_owned();
        path.append(name);
        path.append(".json");
        Client {
            name: name.to_owned(),
            peer_id,
            topic: TOPIC_NAME.to_owned(),
            storage_file_path: path,
        }
    }
}

} // verus!
