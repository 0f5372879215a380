use recipe_p2p::client::Client;
use recipe_p2p::constants::TOPIC_NAME;

#[test]
fn test_client() {
    let john = Client::new("john", "12D3KooWJohn".to_string());
    assert_eq!(john.name, "john");
}

#[test]
fn a_client_keeps_its_recipes_under_its_name() {
    let john = Client::new("john", "12D3KooWJohn".to_string());
    assert_eq!(john.storage_file_path, "./database/recipes/recipe_john.json");
    let nobody = Client::new("", "12D3KooWNobody".to_string());
    assert_eq!(nobody.storage_file_path, "./database/recipes/recipe_.json");
}

#[test]
fn a_client_joins_the_shared_topic_under_its_identifier() {
    let john = Client::new("john", "12D3KooWJohn".to_string());
    assert_eq!(john.topic, TOPIC_NAME);
    assert_eq!(john.topic, "recipes");
    assert_eq!(john.peer_id, "12D3KooWJohn");
}
