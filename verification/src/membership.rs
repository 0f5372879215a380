//! The membership view: the peers with which the node exchanges the
//! topic's traffic, kept in step with what peer discovery reports.
//!
//! A discovered peer joins the view. A peer whose discovery record expired
//! leaves it, unless discovery still lists the peer through another record.

use vstd::prelude::*;
use crate::text::{contains_text, same_text, texts};

verus! {

/// One change that peer discovery reports.
#[derive(Debug, PartialEq, Eq)]
pub enum Discovery {
    /// The peer became reachable.
    Discovered(String),
    /// A record of the peer expired; the flag tells whether discovery still
    /// lists the peer at that moment.
    Expired(String, bool),
}

/// What a [`Discovery`] holds.
pub enum DiscoveryView {
    Discovered(Seq<char>),
    Expired(Seq<char>, bool),
}

impl View for Discovery {
    type V = DiscoveryView;

    open spec fn view(&self) -> DiscoveryView {
        match self {
            Discovery::Discovered(peer) => DiscoveryView::Discovered(peer@),
            Discovery::Expired(peer, still_listed) => DiscoveryView::Expired(peer@, *still_listed),
        }
    }
}

/// What a list of discovery changes holds, in order.
pub open spec fn discovery_views(events: Seq<Discovery>) -> Seq<DiscoveryView> {
    events.map_values(|event: Discovery| event@)
}

/// The view after one discovery change.
pub open spec fn view_after(view: Set<Seq<char>>, event: DiscoveryView) -> Set<Seq<char>> {
    match event {
        DiscoveryView::Discovered(peer) => view.insert(peer),
        DiscoveryView::Expired(peer, still_listed) => if still_listed {
            view
        } else {
            view.remove(peer)
        },
    }
}

/// The view after a sequence of discovery changes, taken in order.
pub open spec fn view_after_all(view: Set<Seq<char>>, events: Seq<DiscoveryView>) -> Set<Seq<char>>
    decreases events.len(),
{
    if events.len() == 0 {
        view
    } else {
        view_after(view_after_all(view, events.drop_last()), events.last())
    }
}

/// Whether `event` is the expiry of a record of `peer`.
pub open spec fn expires(event: DiscoveryView, peer: Seq<char>) -> bool {
    event matches DiscoveryView::Expired(expired, _) && expired == peer
}

/// Whether `event` takes `peer` out of a view.
pub open spec fn removes(event: DiscoveryView, peer: Seq<char>) -> bool {
    event == DiscoveryView::Expired(peer, false)
}

/// The set of peers with which the node exchanges the topic's traffic.
#[derive(Debug)]
pub struct MembershipView {
    peers: Vec<String>,
}

impl View for MembershipView {
    type V = Set<Seq<char>>;

    closed spec fn view(&self) -> Set<Seq<char>> {
        texts(self.peers@).to_set()
    }
}

impl MembershipView {
    #[verifier::type_invariant]
    spec fn each_peer_once(self) -> bool {
        texts(self.peers@).no_duplicates()
    }

    /// A view without peers.
    pub fn new() -> (r: Self)
        ensures
            r@ == Set::<Seq<char>>::empty(),
    {
        let r = MembershipView { peers: Vec::new() };
        assert(texts(r.peers@).to_set() =~= Set::<Seq<char>>::empty());
        r
    }

    /// Whether `peer` is in the view.
    pub fn contains(&self, peer: &str) -> (r: bool)
        ensures
            r == self@.contains(peer@),
    {
        contains_text(&self.peers, peer)
    }

    /// The number of peers in the view.
    pub fn len(&self) -> (r: usize)
        ensures
            self@.finite(),
            r == self@.len(),
    {
        proof {
            use_type_invariant(self);
            texts(self.peers@).unique_seq_to_set();
        }
        self.peers.len()
    }

    /// The peers in the view, each once.
    pub fn peers(&self) -> (r: Vec<String>)
        ensures
            texts(r@).no_duplicates(),
            texts(r@).to_set() == self@,
    {
        proof {
            use_type_invariant(self);
        }
        let mut copy: Vec<String> = Vec::new();
        let mut i: usize = 0;
        while i < self.peers.len()
            invariant
                i <= self.peers.len(),
                texts(copy@) == texts(self.peers@).subrange(0, i as int),
            decreases self.peers.len() - i,
        {
            let ghost before = texts(copy@);
            copy.push(self.peers[i].clone());
            assert(texts(copy@) =~= before.push(self.peers@[i as int]@));
            i += 1;
        }
        assert(texts(copy@) =~= texts(self.peers@));
        copy
    }

    /// Takes a discovered peer into the view, where it may be already.
    /// Returns whether the peer is new to the view.
    pub fn on_peer_discovered(&mut self, peer: String) -> (r: bool)
        ensures
            final(self)@ == old(self)@.insert(peer@),
            r == !old(self)@.contains(peer@),
    {
        proof {
            use_type_invariant(&*self);
        }
        if contains_text(&self.peers, peer.as_str()) {
            assert(old(self)@.insert(peer@) =~= old(self)@);
            false
        } else {
            proof {
                texts(self.peers@).lemma_push_to_set_commute(peer@);
                assert(texts(self.peers@.push(peer)) =~= texts(self.peers@).push(peer@));
            }
            let mut peers: Vec<String> = Vec::new();
            core::mem::swap(&mut self.peers, &mut peers);
            peers.push(peer);
            self.peers = peers;
            true
        }
    }

    /// Handles the expiry of a record of `peer`: the peer leaves the view,
    /// unless discovery still lists it, in which case the view stays as it
    /// is. Returns whether the peer left the view.
    pub fn on_peer_expired(&mut self, peer: &str, still_listed: bool) -> (r: bool)
        ensures
            final(self)@ == if still_listed {
                old(self)@
            } else {
                old(self)@.remove(peer@)
            },
            r == (!still_listed && old(self)@.contains(peer@)),
    {
        proof {
            use_type_invariant(&*self);
        }
        if still_listed {
            return false;
        }
        let mut i: usize = 0;
        while i < self.peers.len()
            invariant
                i <= self.peers.len(),
                !still_listed,
                self.peers == old(self).peers,
                texts(self.peers@).no_duplicates(),
                forall|j: int| 0 <= j < i ==> texts(self.peers@)[j] != peer@,
            decreases self.peers.len() - i,
        {
            if same_text(self.peers[i].as_str(), peer) {
                let ghost before = texts(self.peers@);
                let mut peers: Vec<String> = Vec::new();
                core::mem::swap(&mut self.peers, &mut peers);
                peers.remove(i);
                proof {
                    lemma_remove_at(before, i as int);
                    assert(texts(peers@) =~= before.remove(i as int));
                }
                self.peers = peers;
                return true;
            }
            i += 1;
        }
        assert(!texts(self.peers@).contains(peer@));
        assert(old(self)@.remove(peer@) =~= old(self)@);
        false
    }

    /// Applies one discovery change to the view.
    pub fn apply(&mut self, event: &Discovery)
        ensures
            final(self)@ == view_after(old(self)@, event@),
    {
        match event {
            Discovery::Discovered(peer) => {
                self.on_peer_discovered(peer.clone());
            },
            Discovery::Expired(peer, still_listed) => {
                self.on_peer_expired(peer.as_str(), *still_listed);
            },
        }
    }

    /// Applies a list of discovery changes to the view, in order.
    pub fn apply_all(&mut self, events: &Vec<Discovery>)
        ensures
            final(self)@ == view_after_all(old(self)@, discovery_views(events@)),
    {
        let ghost all = discovery_views(events@);
        let mut i: usize = 0;
        assert(all.subrange(0, 0) =~= Seq::<DiscoveryView>::empty());
        while i < events.len()
            invariant
                i <= events.len(),
                all == discovery_views(events@),
                self@ == view_after_all(old(self)@, all.subrange(0, i as int)),
            decreases events.len() - i,
        {
            proof {
                let next = all.subrange(0, i + 1);
                assert(next.drop_last() =~= all.subrange(0, i as int));
                assert(next.last() == events@[i as int]@);
            }
            self.apply(&events[i]);
            i += 1;
        }
        assert(all.subrange(0, events.len() as int) =~= all);
    }
}

/// A discovered peer whose later expiries all found it still listed by
/// discovery is in the view at the end.
pub proof fn lemma_expired_while_listed_stays(
    view: Set<Seq<char>>,
    events: Seq<DiscoveryView>,
    found: int,
    peer: Seq<char>,
)
    requires
        0 <= found < events.len(),
        events[found] == DiscoveryView::Discovered(peer),
        forall|j: int| found < j < events.len() ==> !removes(#[trigger] events[j], peer),
    ensures
        view_after_all(view, events).contains(peer),
    decreases events.len(),
{
    if found < events.len() - 1 {
        lemma_expired_while_listed_stays(view, events.drop_last(), found, peer);
        assert(!removes(events[events.len() - 1], peer));
    }
}

/// A peer that was discovered, and of which no record expired afterwards, is
/// in the view at the end.
pub proof fn lemma_discovered_stays(
    view: Set<Seq<char>>,
    events: Seq<DiscoveryView>,
    found: int,
    peer: Seq<char>,
)
    requires
        0 <= found < events.len(),
        events[found] == DiscoveryView::Discovered(peer),
        forall|j: int| found < j < events.len() ==> !expires(#[trigger] events[j], peer),
    ensures
        view_after_all(view, events).contains(peer),
{
    lemma_expired_while_listed_stays(view, events, found, peer);
}

/// A peer of which a record expired while discovery listed it no longer, and
/// which was not discovered again afterwards, is not in the view at the end.
pub proof fn lemma_expired_leaves(
    view: Set<Seq<char>>,
    events: Seq<DiscoveryView>,
    expired: int,
    peer: Seq<char>,
)
    requires
        0 <= expired < events.len(),
        events[expired] == DiscoveryView::Expired(peer, false),
        forall|j: int|
            expired < j < events.len() ==> #[trigger] events[j] != DiscoveryView::Discovered(peer),
    ensures
        !view_after_all(view, events).contains(peer),
    decreases events.len(),
{
    if expired < events.len() - 1 {
        lemma_expired_leaves(view, events.drop_last(), expired, peer);
        assert(events[events.len() - 1] != DiscoveryView::Discovered(peer));
    }
}

/// The peers that discovery lists after one of its changes: a discovered
/// peer is listed, and a peer with an expired record is listed or not as the
/// change itself tells.
pub open spec fn listed_after(listed: Set<Seq<char>>, event: DiscoveryView) -> Set<Seq<char>> {
    match event {
        DiscoveryView::Discovered(peer) => listed.insert(peer),
        DiscoveryView::Expired(peer, still_listed) => if still_listed {
            listed.insert(peer)
        } else {
            listed.remove(peer)
        },
    }
}

/// The peers that discovery lists after a sequence of its changes.
pub open spec fn listed_after_all(listed: Set<Seq<char>>, events: Seq<DiscoveryView>) -> Set<
    Seq<char>,
>
    decreases events.len(),
{
    if events.len() == 0 {
        listed
    } else {
        listed_after(listed_after_all(listed, events.drop_last()), events.last())
    }
}

/// A view that held only peers that discovery listed holds only such peers
/// after any sequence of discovery changes.
pub proof fn lemma_view_within_listed(
    view: Set<Seq<char>>,
    listed: Set<Seq<char>>,
    events: Seq<DiscoveryView>,
)
    requires
        view.subset_of(listed),
    ensures
        view_after_all(view, events).subset_of(listed_after_all(listed, events)),
    decreases events.len(),
{
    if events.len() > 0 {
        lemma_view_within_listed(view, listed, events.drop_last());
    }
}

/// Taking one item out of a list without repetitions leaves a list without
/// repetitions that holds the other items, and only them.
proof fn lemma_remove_at(list: Seq<Seq<char>>, at: int)
    requires
        list.no_duplicates(),
        0 <= at < list.len(),
    ensures
        list.remove(at).no_duplicates(),
        list.remove(at).to_set() == list.to_set().remove(list[at]),
{
    let after = list.remove(at);
    assert forall|p: Seq<char>| after.to_set().contains(p) <==> list.to_set().remove(
        list[at],
    ).contains(p) by {
        if after.contains(p) {
            let k = choose|k: int| 0 <= k < after.len() && after[k] == p;
            if k < at {
                assert(list[k] == p);
            } else {
                assert(list[k + 1] == p);
            }
        }
        if list.contains(p) && p != list[at] {
            let k = choose|k: int| 0 <= k < list.len() && list[k] == p;
            if k < at {
                assert(after[k] == p);
            } else {
                assert(after[k - 1] == p);
            }
        }
    }
    assert(after.to_set() =~= list.to_set().remove(list[at]));
}

} // verus!
