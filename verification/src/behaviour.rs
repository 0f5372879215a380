//! The node's reactions to what the network reports: messages on the shared
//! topic, and changes in the set of reachable peers.

use vstd::prelude::*;
use crate::membership::{discovery_views, view_after_all, Discovery, MembershipView};
use crate::router::{payload_action, route, Action, RawMessage};

verus! {

/// The network side of a node: its own identifier, and the peers with which
/// it exchanges the topic's traffic.
#[derive(Debug)]
pub struct RecipeBehaviour {
    pub peer_id: String,
    pub partial_view: MembershipView,
}

impl RecipeBehaviour {
    /// The behaviour of the node `peer_id`, which knows no peer yet.
    pub fn new(peer_id: String) -> (r: Self)
        ensures
            r.peer_id == peer_id,
            r.partial_view@ == Set::<Seq<char>>::empty(),
    {
        RecipeBehaviour { peer_id, partial_view: MembershipView::new() }
    }

    /// Handles a message that the topic delivered: decides what to do with
    /// it. The view of peers plays no part, and stays as it is.
    pub fn inject_message(&self, message: &RawMessage) -> (r: Action)
        ensures
            r@ == payload_action(message.data@, message.source@, self.peer_id@),
    {
        route(message, self.peer_id.as_str())
    }

    /// Handles what peer discovery reports: every discovered peer joins the
    /// view, and every peer with an expired record leaves it unless discovery
    /// still lists it. Messages never change the view; only this does.
    pub fn inject_discovery(&mut self, events: &Vec<Discovery>)
        ensures
            final(self).peer_id == old(self).peer_id,
            final(self).partial_view@ == view_after_all(
                old(self).partial_view@,
                discovery_views(events@),
            ),
    {
        self.partial_view.apply_all(events);
    }
}

} // verus!
