//! Routing of inbound messages: what a node does with a payload that the
//! shared topic delivered.
//!
//! Every subscriber receives every message, so addressing is decided here: a
//! response counts only for the node it names as receiver, and a targeted
//! request only for the node it names.

use vstd::prelude::*;
use crate::messages::{ListMode, ListModeView, ListResponse, ListResponseView};
use crate::recipe::{public_only, public_recipes, recipe_views, Recipe, RecipeView};
use crate::text::same_text;
use crate::wire::{decode, payload_message, Decoded, DecodedView};

verus! {

/// A message as the topic delivers it: the peer that published it, and the
/// bytes it published.
#[derive(Debug, PartialEq, Eq)]
pub struct RawMessage {
    pub source: String,
    pub data: Vec<u8>,
}

/// What a node does with an inbound message.
#[derive(Debug, PartialEq, Eq)]
pub enum Action {
    /// Drop it.
    Ignore,
    /// Report the response, which is addressed to this node.
    LogResponse(ListResponse),
    /// Answer a request that went to every node; the peer named sent it.
    ServeAll(String),
    /// Answer a request that went to this node alone; the peer named sent it.
    ServeTargeted(String),
}

/// What an [`Action`] holds.
pub enum ActionView {
    Ignore,
    LogResponse(ListResponseView),
    ServeAll(Seq<char>),
    ServeTargeted(Seq<char>),
}

impl View for Action {
    type V = ActionView;

    open spec fn view(&self) -> ActionView {
        match self {
            Action::Ignore => ActionView::Ignore,
            Action::LogResponse(response) => ActionView::LogResponse(response@),
            Action::ServeAll(source) => ActionView::ServeAll(source@),
            Action::ServeTargeted(source) => ActionView::ServeTargeted(source@),
        }
    }
}

/// The action for a decoded message from `source`, at the node `self_id`.
pub open spec fn message_action(
    message: DecodedView,
    source: Seq<char>,
    self_id: Seq<char>,
) -> ActionView {
    match message {
        DecodedView::Unrecognized => ActionView::Ignore,
        DecodedView::Response(response) => if response.receiver == self_id {
            ActionView::LogResponse(response)
        } else {
            ActionView::Ignore
        },
        DecodedView::Request(request) => match request.mode {
            ListModeView::ALL => ActionView::ServeAll(source),
            ListModeView::One(peer) => if peer == self_id {
                ActionView::ServeTargeted(source)
            } else {
                ActionView::Ignore
            },
        },
    }
}

/// The action for a payload from `source`, at the node `self_id`.
pub open spec fn payload_action(
    payload: Seq<u8>,
    source: Seq<char>,
    self_id: Seq<char>,
) -> ActionView {
    message_action(payload_message(payload), source, self_id)
}

/// Decides what to do with a decoded message from `source`. A response is
/// reported where it names this node as receiver and dropped otherwise; a
/// request is served where it asks every node or names this one.
pub fn route_decoded(message: Decoded, source: &str, self_id: &str) -> (r: Action)
    ensures
        r@ == message_action(message@, source@, self_id@),
        message@ matches DecodedView::Response(response) ==> r@ == if response.receiver
            == self_id@ {
            ActionView::LogResponse(response)
        } else {
            ActionView::Ignore
        },
{
    match message {
        Decoded::Unrecognized => Action::Ignore,
        Decoded::Response(response) => {
            if same_text(response.receiver.as_str(), self_id) {
                Action::LogResponse(response)
            } else {
                Action::Ignore
            }
        },
        Decoded::Request(request) => match request.mode {
            ListMode::ALL => Action::ServeAll(source.to_owned()),
            ListMode::One(peer) => {
                if same_text(peer.as_str(), self_id) {
                    Action::ServeTargeted(source.to_owned())
                } else {
                    Action::Ignore
                }
            },
        },
    }
}

/// Decides what to do with a message that the topic delivered. The action
/// depends on the message and on `self_id`, and on nothing else.
pub fn route(message: &RawMessage, self_id: &str) -> (r: Action)
    ensures
        r@ == payload_action(message.data@, message.source@, self_id@),
        payload_message(message.data@) matches DecodedView::Response(response) ==> r@
            == if response.receiver == self_id@ {
            ActionView::LogResponse(response)
        } else {
            ActionView::Ignore
        },
{
    route_decoded(decode(message.data.as_slice()), message.source.as_str(), self_id)
}

/// Routing depends on nothing but its inputs: the same payload from the same
/// source at the same node gives the same action.
pub proof fn lemma_route_deterministic(
    payload: Seq<u8>,
    source: Seq<char>,
    self_id: Seq<char>,
    again_payload: Seq<u8>,
    again_source: Seq<char>,
    again_self_id: Seq<char>,
)
    requires
        payload == again_payload,
        source == again_source,
        self_id == again_self_id,
    ensures
        payload_action(payload, source, self_id) == payload_action(
            again_payload,
            again_source,
            again_self_id,
        ),
{
}

/// A response is reported exactly at the node that it names as receiver, and
/// dropped at every other, whoever sent it.
pub proof fn lemma_response_addressing(
    response: ListResponseView,
    source: Seq<char>,
    self_id: Seq<char>,
)
    ensures
        response.receiver == self_id ==> message_action(
            DecodedView::Response(response),
            source,
            self_id,
        ) == ActionView::LogResponse(response),
        response.receiver != self_id ==> message_action(
            DecodedView::Response(response),
            source,
            self_id,
        ) == ActionView::Ignore,
{
}

/// The response that answers `action` at the node `self_id`, which holds
/// `recipes`: none unless the action is to serve a request; else the public
/// recipes, addressed to the peer that asked, under the mode of its request.
pub open spec fn action_response(
    action: ActionView,
    self_id: Seq<char>,
    recipes: Seq<RecipeView>,
) -> Option<ListResponseView> {
    match action {
        ActionView::ServeAll(source) => Some(
            ListResponseView {
                mode: ListModeView::ALL,
                data: public_only(recipes),
                receiver: source,
            },
        ),
        ActionView::ServeTargeted(source) => Some(
            ListResponseView {
                mode: ListModeView::One(self_id),
                data: public_only(recipes),
                receiver: source,
            },
        ),
        _ => None,
    }
}

/// Builds the response that answers `action`, from the recipes that local
/// storage holds. Only public recipes enter a response.
pub fn respond(action: &Action, self_id: &str, recipes: &Vec<Recipe>) -> (r: Option<ListResponse>)
    ensures
        match r {
            Some(response) => action_response(action@, self_id@, recipe_views(recipes@)) == Some(
                response@,
            ),
            None => action_response(action@, self_id@, recipe_views(recipes@)) is None,
        },
        r matches Some(response) ==> forall|i: int|
            0 <= i < response.data@.len() ==> (#[trigger] response.data@[i]).public,
{
    let (mode, receiver) = match action {
        Action::ServeAll(source) => (ListMode::ALL, source.clone()),
        Action::ServeTargeted(source) => (ListMode::One(self_id.to_owned()), source.clone()),
        _ => return None,
    };
    let data = public_recipes(recipes);
    proof {
        let all = recipe_views(recipes@);
        assert forall|i: int| 0 <= i < data@.len() implies (#[trigger] data@[i]).public by {
            assert(recipe_views(data@)[i] == data@[i]@);
            all.lemma_filter_pred(|r: RecipeView| r.public, i);
        }
    }
    Some(ListResponse { mode, data, receiver })
}

} // verus!
