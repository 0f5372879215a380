//! The local loop of a node: it takes one event at a time, a line from the
//! operator or a response that is ready to go out, and says what to do.
//!
//! The loop is `Starting` until the node listens, `Listening` while it
//! handles events, and `Stopped` once the operator typed `exit`. Nothing but
//! that command stops it.

use vstd::prelude::*;
use crate::client::Client;
use crate::messages::{EventType, EventTypeView};
use crate::text::{distinct, distinct_texts, lemma_distinct, same_text, texts};
use crate::wire::{encode, response_text};

verus! {

/// Where the loop stands.
#[derive(Debug, Clone, Copy, PartialEq, Eq, Structural)]
pub enum Phase {
    Starting,
    Listening,
    Stopped,
}

/// What the operator asked for.
#[derive(Debug, Clone, Copy, PartialEq, Eq, Structural)]
pub enum Command {
    /// `ls p`: show the discovered peers.
    ListPeers,
    /// `exit`: stop the loop.
    Exit,
    /// Anything else.
    Unknown,
}

/// The command that a line stands for.
pub open spec fn line_command(line: Seq<char>) -> Command {
    if line == "ls p"@ {
        Command::ListPeers
    } else if line == "exit"@ {
        Command::Exit
    } else {
        Command::Unknown
    }
}

impl Command {
    /// Reads a line that the operator typed.
    pub fn parse(line: &str) -> (r: Command)
        ensures
            r == line_command(line@),
    {
        if same_text(line, "ls p") {
            Command::ListPeers
        } else if same_text(line, "exit") {
            Command::Exit
        } else {
            Command::Unknown
        }
    }
}

/// What the caller of the loop has to do after an event.
#[derive(Debug, PartialEq, Eq)]
pub enum Effect {
    /// Publish these bytes on the shared topic.
    Publish(Vec<u8>),
    /// Show the discovered peers to the operator.
    ListPeers,
    /// Tell the operator that the command is unknown.
    UnknownCommand,
    /// Leave the loop.
    Stop,
}

/// What an [`Effect`] holds.
pub enum EffectView {
    Publish(Seq<u8>),
    ListPeers,
    UnknownCommand,
    Stop,
}

impl View for Effect {
    type V = EffectView;

    open spec fn view(&self) -> EffectView {
        match self {
            Effect::Publish(bytes) => EffectView::Publish(bytes@),
            Effect::ListPeers => EffectView::ListPeers,
            Effect::UnknownCommand => EffectView::UnknownCommand,
            Effect::Stop => EffectView::Stop,
        }
    }
}

/// What a list of effects holds, in order.
pub open spec fn effect_views(effects: Seq<Effect>) -> Seq<EffectView> {
    effects.map_values(|effect: Effect| effect@)
}

/// What a list of events holds, in order.
pub open spec fn event_views(events: Seq<EventType>) -> Seq<EventTypeView> {
    events.map_values(|event: EventType| event@)
}

/// The effect of an event on a listening loop.
pub open spec fn event_effect(event: EventTypeView) -> EffectView {
    match event {
        EventTypeView::Response(response) => EffectView::Publish(response_text(response)),
        EventTypeView::Input(line) => match line_command(line) {
            Command::ListPeers => EffectView::ListPeers,
            Command::Exit => EffectView::Stop,
            Command::Unknown => EffectView::UnknownCommand,
        },
    }
}

/// One step of the loop: a listening loop handles the event, and stops if
/// the event is the command to exit; a loop that is not listening leaves the
/// event alone.
pub open spec fn step(phase: Phase, event: EventTypeView) -> (Phase, Option<EffectView>) {
    if phase == Phase::Listening {
        let effect = event_effect(event);
        (
            if effect == EffectView::Stop {
                Phase::Stopped
            } else {
                Phase::Listening
            },
            Some(effect),
        )
    } else {
        (phase, None)
    }
}

/// The loop over a sequence of events, taken in order: where it stands at the
/// end, and the effects of the events it handled.
pub open spec fn run(phase: Phase, events: Seq<EventTypeView>) -> (Phase, Seq<EffectView>)
    decreases events.len(),
{
    if events.len() == 0 {
        (phase, Seq::empty())
    } else {
        let (before, effects) = run(phase, events.drop_last());
        match step(before, events.last()) {
            (after, Some(effect)) => (after, effects.push(effect)),
            (after, None) => (after, effects),
        }
    }
}

/// The local loop of a node.
#[derive(Debug)]
pub struct Server {
    pub client: Client,
    pub phase: Phase,
}

impl Server {
    /// The loop of `client`, which has not started to listen.
    pub fn new(client: Client) -> (r: Self)
        ensures
            r.client == client,
            r.phase == Phase::Starting,
    {
        Server { client, phase: Phase::Starting }
    }

    /// Records that the node listens: a starting loop becomes a listening
    /// one, and any other stays as it is.
    pub fn start_listen(&mut self)
        ensures
            final(self).client == old(self).client,
            final(self).phase == if old(self).phase == Phase::Starting {
                Phase::Listening
            } else {
                old(self).phase
            },
    {
        if self.phase == Phase::Starting {
            self.phase = Phase::Listening;
        }
    }

    /// Handles one event. A listening loop answers with the effect of the
    /// event: a response is encoded for publication, and a line is read as a
    /// command. The loop stops on the command to exit and on nothing else. A
    /// loop that is not listening answers `None`.
    pub fn handle_event(&mut self, event: &EventType) -> (r: Option<Effect>)
        ensures
            final(self).client == old(self).client,
            final(self).phase == step(old(self).phase, event@).0,
            match r {
                Some(effect) => step(old(self).phase, event@).1 == Some(effect@),
                None => step(old(self).phase, event@).1 is None,
            },
            final(self).phase == Phase::Stopped <==> old(self).phase == Phase::Stopped || (old(
                self,
            ).phase == Phase::Listening && event@ == EventTypeView::Input("exit"@)),
    {
        if self.phase != Phase::Listening {
            return None;
        }
        proof {
            reveal_strlit("ls p");
            reveal_strlit("exit");
            assert("ls p"@[0] != "exit"@[0]);
        }
        let effect = match event {
            EventType::Response(response) => Effect::Publish(encode(response)),
            EventType::Input(line) => match Command::parse(line.as_str()) {
                Command::ListPeers => Effect::ListPeers,
                Command::Exit => {
                    self.phase = Phase::Stopped;
                    Effect::Stop
                },
                Command::Unknown => Effect::UnknownCommand,
            },
        };
        Some(effect)
    }

    /// Handles a sequence of events in the order given, as the loop does:
    /// one at a time, and none after the command to exit.
    pub fn handle_events(&mut self, events: &Vec<EventType>) -> (r: Vec<Effect>)
        ensures
            final(self).client == old(self).client,
            (final(self).phase, effect_views(r@)) == run(old(self).phase, event_views(events@)),
    {
        let ghost all = event_views(events@);
        let mut effects: Vec<Effect> = Vec::new();
        let mut i: usize = 0;
        proof {
            assert(all.subrange(0, 0) =~= Seq::<EventTypeView>::empty());
            assert(effect_views(effects@) =~= Seq::<EffectView>::empty());
        }
        while i < events.len()
            invariant
                i <= events.len(),
                all == event_views(events@),
                self.client == old(self).client,
                (self.phase, effect_views(effects@)) == run(
                    old(self).phase,
                    all.subrange(0, i as int),
                ),
            decreases events.len() - i,
        {
            let ghost before = effect_views(effects@);
            proof {
                let next = all.subrange(0, i + 1);
                assert(next.drop_last() =~= all.subrange(0, i as int));
                assert(next.last() == events@[i as int]@);
            }
            match self.handle_event(&events[i]) {
                Some(effect) => {
                    effects.push(effect);
                    assert(effect_views(effects@) =~= before.push(effect@));
                },
                None => {},
            }
            i += 1;
        }
        assert(all.subrange(0, events.len() as int) =~= all);
        effects
    }

    /// The peers to show for the command `ls p`, out of the nodes that peer
    /// discovery lists: every listed peer once, however often it is listed.
    pub fn handle_list_peers(&self, nodes: &Vec<String>) -> (r: Vec<String>)
        ensures
            texts(r@) == distinct(texts(nodes@)),
            texts(r@).no_duplicates(),
            texts(r@).to_set() == texts(nodes@).to_set(),
    {
        proof {
            lemma_distinct(texts(nodes@));
        }
        distinct_texts(nodes)
    }
}

/// A listening loop is stopped after a sequence of events exactly if the
/// command to exit is among them: no other line and no response stops it.
pub proof fn lemma_only_exit_stops(events: Seq<EventTypeView>)
    ensures
        run(Phase::Listening, events).0 == Phase::Stopped <==> exists|i: int|
            0 <= i < events.len() && #[trigger] events[i] == EventTypeView::Input("exit"@),
        run(Phase::Listening, events).0 != Phase::Starting,
    decreases events.len(),
{
    reveal_strlit("ls p");
    reveal_strlit("exit");
    assert("ls p"@[0] != "exit"@[0]);
    if events.len() > 0 {
        let earlier = events.drop_last();
        lemma_only_exit_stops(earlier);
        if exists|i: int| 0 <= i < earlier.len() && #[trigger] earlier[i] == EventTypeView::Input(
            "exit"@,
        ) {
            let i = choose|i: int|
                0 <= i < earlier.len() && #[trigger] earlier[i] == EventTypeView::Input("exit"@);
            assert(events[i] == EventTypeView::Input("exit"@));
        }
        if exists|i: int| 0 <= i < events.len() && #[trigger] events[i] == EventTypeView::Input(
            "exit"@,
        ) {
            let i = choose|i: int|
                0 <= i < events.len() && #[trigger] events[i] == EventTypeView::Input("exit"@);
            if i < earlier.len() {
                assert(earlier[i] == EventTypeView::Input("exit"@));
            }
        }
    }
}

} // verus!
