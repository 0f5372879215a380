use recipe_p2p::client::Client;
use recipe_p2p::messages::{EventType, ListMode, ListResponse};
use recipe_p2p::recipe::Recipe;
use recipe_p2p::server::{Command, Effect, Phase, Server};
use recipe_p2p::wire::encode;

fn listening() -> Server {
    let mut server = Server::new(Client::new("john", "12D3KooWJohn".to_string()));
    server.start_listen();
    server
}

fn input(line: &str) -> EventType {
    EventType::Input(line.to_string())
}

fn response() -> ListResponse {
    ListResponse {
        mode: ListMode::ALL,
        data: vec![Recipe {
            id: 3,
            name: "Soup".to_string(),
            ingredients: "water".to_string(),
            instructions: "heat".to_string(),
            public: true,
        }],
        receiver: "12D3KooWAsker".to_string(),
    }
}

#[test]
fn test_start_listen() {
    let john = Client::new("john", "12D3KooWJohn".to_string());
    let mut server = Server::new(john);
    assert_eq!(server.phase, Phase::Starting);
    server.start_listen();
    assert_eq!(server.phase, Phase::Listening);
    assert_eq!(server.client.name, "john");
}

#[test]
fn test_handle_list_peers() {
    let mut server = listening();
    let lines = "ls p\nexit\n";
    let events: Vec<EventType> = lines.lines().map(input).collect();
    let effects = server.handle_events(&events);
    assert_eq!(effects, vec![Effect::ListPeers, Effect::Stop]);
    assert_eq!(server.phase, Phase::Stopped);
}

#[test]
fn listing_peers_shows_each_peer_once() {
    let server = listening();
    let nodes = vec![
        "X".to_string(),
        "Y".to_string(),
        "X".to_string(),
        "X".to_string(),
        "Y".to_string(),
    ];
    assert_eq!(server.handle_list_peers(&nodes), vec!["X".to_string(), "Y".to_string()]);
    assert_eq!(server.handle_list_peers(&vec![]), Vec::<String>::new());
}

#[test]
fn an_unknown_command_is_reported_and_the_loop_goes_on() {
    let mut server = listening();
    assert_eq!(server.handle_event(&input("frobnicate")), Some(Effect::UnknownCommand));
    assert_eq!(server.phase, Phase::Listening);
    assert_eq!(server.handle_event(&input("ls p")), Some(Effect::ListPeers));
    assert_eq!(server.phase, Phase::Listening);
}

#[test]
fn lines_are_commands_only_letter_for_letter() {
    assert_eq!(Command::parse("ls p"), Command::ListPeers);
    assert_eq!(Command::parse("exit"), Command::Exit);
    assert_eq!(Command::parse(""), Command::Unknown);
    assert_eq!(Command::parse("ls p "), Command::Unknown);
    assert_eq!(Command::parse(" exit"), Command::Unknown);
    assert_eq!(Command::parse("EXIT"), Command::Unknown);
    assert_eq!(Command::parse("ls  p"), Command::Unknown);
    assert_eq!(Command::parse("ls r"), Command::Unknown);
}

#[test]
fn exit_stops_the_loop() {
    let mut server = listening();
    assert_eq!(server.handle_event(&input("exit")), Some(Effect::Stop));
    assert_eq!(server.phase, Phase::Stopped);
    assert_eq!(server.handle_event(&input("ls p")), None);
    assert_eq!(server.phase, Phase::Stopped);
}

#[test]
fn a_ready_response_is_encoded_for_publication() {
    let mut server = listening();
    let ready = response();
    let expected = encode(&ready);
    assert_eq!(server.handle_event(&EventType::Response(ready)), Some(Effect::Publish(expected)));
    assert_eq!(server.phase, Phase::Listening);
}

#[test]
fn a_loop_that_does_not_listen_handles_nothing() {
    let mut server = Server::new(Client::new("john", "12D3KooWJohn".to_string()));
    assert_eq!(server.handle_event(&input("ls p")), None);
    assert_eq!(server.handle_event(&input("exit")), None);
    assert_eq!(server.phase, Phase::Starting);
    assert_eq!(server.handle_events(&vec![input("exit"), input("ls p")]), vec![]);
    assert_eq!(server.phase, Phase::Starting);
}

#[test]
fn start_listen_does_not_revive_a_stopped_loop() {
    let mut server = listening();
    server.handle_event(&input("exit"));
    server.start_listen();
    assert_eq!(server.phase, Phase::Stopped);
}

#[test]
fn events_after_exit_are_not_handled() {
    let mut server = listening();
    let events = vec![
        input("what"),
        EventType::Response(response()),
        input("exit"),
        input("ls p"),
        EventType::Response(response()),
    ];
    let effects = server.handle_events(&events);
    assert_eq!(
        effects,
        vec![Effect::UnknownCommand, Effect::Publish(encode(&response())), Effect::Stop]
    );
    assert_eq!(server.phase, Phase::Stopped);
}

#[test]
fn events_are_handled_in_their_order() {
    let mut server = listening();
    let effects = server.handle_events(&vec![input("ls p"), input("x"), input("ls p")]);
    assert_eq!(effects, vec![Effect::ListPeers, Effect::UnknownCommand, Effect::ListPeers]);
    assert_eq!(server.phase, Phase::Listening);
}
