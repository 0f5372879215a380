//! The messages that nodes exchange on the shared topic, and the events that
//! the local loop handles.

use vstd::prelude::*;
use crate::recipe::{recipe_views, Recipe, RecipeView};

verus! {

/// Whom a list request asks: every node, or the one named.
#[derive(Debug, PartialEq, Eq)]
pub enum ListMode {
    ALL,
    One(String),
}

/// What a [`ListMode`] holds.
pub enum ListModeView {
    ALL,
    One(Seq<char>),
}

impl View for ListMode {
    type V = ListModeView;

    open spec fn view(&self) -> ListModeView {
        match self {
            ListMode::ALL => ListModeView::ALL,
            ListMode::One(peer) => ListModeView::One(peer@),
        }
    }
}

impl Clone for ListMode {
    fn clone(&self) -> (r: Self)
        ensures
            r@ == self@,
    {
        match self {
            ListMode::ALL => ListMode::ALL,
            ListMode::One(peer) => ListMode::One(peer.clone()),
        }
    }
}

/// The answer to a list request: recipes, addressed to `receiver`.
#[derive(Debug, PartialEq, Eq)]
pub struct ListResponse {
    pub mode: ListMode,
    pub data: Vec<Recipe>,
    pub receiver: String,
}

/// What a [`ListResponse`] holds.
pub struct ListResponseView {
    pub mode: ListModeView,
    pub data: Seq<RecipeView>,
    pub receiver: Seq<char>,
}

impl View for ListResponse {
    type V = ListResponseView;

    open spec fn view(&self) -> ListResponseView {
        ListResponseView {
            mode: self.mode@,
            data: recipe_views(self.data@),
            receiver: self.receiver@,
        }
    }
}

/// What the local loop takes from its two local sources: a response that is
/// ready to be published, or a line that the operator typed.
#[derive(Debug, PartialEq, Eq)]
pub enum EventType {
    Response(ListResponse),
    Input(String),
}

/// What an [`EventType`] holds.
pub enum EventTypeView {
    Response(ListResponseView),
    Input(Seq<char>),
}

impl View for EventType {
    type V = EventTypeView;

    open spec fn view(&self) -> EventTypeView {
        match self {
            EventType::Response(response) => EventTypeView::Response(response@),
            EventType::Input(line) => EventTypeView::Input(line@),
        }
    }
}

/// A request for the recipes of the nodes that `mode` selects.
#[derive(Debug, PartialEq, Eq)]
pub struct ListRequest {
    pub mode: ListMode,
}

/// What a [`ListRequest`] holds.
pub struct ListRequestView {
    pub mode: ListModeView,
}

impl View for ListRequest {
    type V = ListRequestView;

    open spec fn view(&self) -> ListRequestView {
        ListRequestView { mode: self.mode@ }
    }
}

} // verus!
