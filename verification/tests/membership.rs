use recipe_p2p::membership::{Discovery, MembershipView};

fn discovered(peer: &str) -> Discovery {
    Discovery::Discovered(peer.to_string())
}

fn expired(peer: &str, still_listed: bool) -> Discovery {
    Discovery::Expired(peer.to_string(), still_listed)
}

#[test]
fn a_new_view_is_empty() {
    let view = MembershipView::new();
    assert_eq!(view.len(), 0);
    assert!(!view.contains("B"));
    assert!(view.peers().is_empty());
}

#[test]
fn a_discovered_peer_joins_the_view() {
    let mut view = MembershipView::new();
    assert!(view.on_peer_discovered("B".to_string()));
    assert!(view.contains("B"));
    assert!(!view.contains("C"));
    assert_eq!(view.len(), 1);
}

#[test]
fn discovering_a_peer_again_changes_nothing() {
    let mut view = MembershipView::new();
    assert!(view.on_peer_discovered("B".to_string()));
    assert!(!view.on_peer_discovered("B".to_string()));
    assert!(!view.on_peer_discovered("B".to_string()));
    assert_eq!(view.len(), 1);
    assert_eq!(view.peers(), vec!["B".to_string()]);
}

#[test]
fn an_expired_peer_leaves_the_view() {
    let mut view = MembershipView::new();
    view.on_peer_discovered("B".to_string());
    view.on_peer_discovered("C".to_string());
    assert!(view.on_peer_expired("B", false));
    assert!(!view.contains("B"));
    assert!(view.contains("C"));
    assert_eq!(view.len(), 1);
}

#[test]
fn an_expired_peer_that_is_still_listed_stays() {
    let mut view = MembershipView::new();
    view.on_peer_discovered("B".to_string());
    assert!(!view.on_peer_expired("B", true));
    assert!(view.contains("B"));
    assert_eq!(view.len(), 1);
}

#[test]
fn the_expiry_of_an_unknown_peer_changes_nothing() {
    let mut view = MembershipView::new();
    view.on_peer_discovered("B".to_string());
    assert!(!view.on_peer_expired("C", false));
    assert!(!view.on_peer_expired("C", true));
    assert_eq!(view.peers(), vec!["B".to_string()]);
}

#[test]
fn a_peer_discovered_and_never_expired_stays_through_any_sequence() {
    let mut view = MembershipView::new();
    view.apply_all(&vec![
        discovered("X"),
        discovered("B"),
        expired("X", false),
        discovered("Y"),
        discovered("X"),
        expired("Y", true),
        expired("Y", false),
        expired("Z", false),
        discovered("B"),
    ]);
    assert!(view.contains("B"));
    assert!(view.contains("X"));
    assert!(!view.contains("Y"));
    assert!(!view.contains("Z"));
    assert_eq!(view.len(), 2);
}

#[test]
fn a_peer_discovered_then_expired_is_absent() {
    let mut view = MembershipView::new();
    view.apply_all(&vec![discovered("B"), discovered("C"), expired("B", false)]);
    assert!(!view.contains("B"));
    assert!(view.contains("C"));
}

#[test]
fn a_peer_expired_while_listed_is_present() {
    let mut view = MembershipView::new();
    view.apply_all(&vec![discovered("B"), expired("B", true)]);
    assert!(view.contains("B"));
}

#[test]
fn a_peer_expired_then_discovered_again_is_present() {
    let mut view = MembershipView::new();
    view.apply_all(&vec![discovered("B"), expired("B", false), discovered("B")]);
    assert!(view.contains("B"));
    assert_eq!(view.len(), 1);
}

fn sorted(mut peers: Vec<String>) -> Vec<String> {
    peers.sort();
    peers
}

#[test]
fn peers_are_listed_once_each() {
    let mut view = MembershipView::new();
    view.apply(&discovered("C"));
    view.apply(&discovered("A"));
    view.apply(&discovered("B"));
    view.apply(&discovered("A"));
    assert_eq!(sorted(view.peers()), vec!["A".to_string(), "B".to_string(), "C".to_string()]);
    view.apply(&expired("A", false));
    assert_eq!(sorted(view.peers()), vec!["B".to_string(), "C".to_string()]);
}

#[test]
fn applying_no_change_leaves_the_view() {
    let mut view = MembershipView::new();
    view.on_peer_discovered("B".to_string());
    view.apply_all(&vec![]);
    assert_eq!(view.peers(), vec!["B".to_string()]);
}
