//! The renderer: what one wake-up of the renderer decides.
//!
//! [`draw_ui`] is one step of the renderer. The loop around it waits for a
//! change of the state, calls the step with the lock taken, copies out what
//! it is told to paint, and paints with the lock released. The step only
//! reads the state.

use crate::selection::cursor_view;
use crate::ui_types::Pane;
use crate::ui_types::PopUpPane;
use crate::ui_types::UiState;
use crate::ui_types::UiView;
use vstd::prelude::*;

verus! {

/// The pop-up to paint over the three panes, and the entry it is bound to.
#[derive(Clone, Copy, Debug, PartialEq, Eq)]
pub enum Overlay {
    /// No pop-up.
    Hidden,
    /// The pop-up of the event at `index`.
    Event { index: usize },
    /// The pop-up of the entity state at `index`, with the composed text.
    State { index: usize },
    /// The pop-up of the service at `index`, with the composed text and the
    /// highlighted operation.
    Service { index: usize, operation: Option<usize> },
}

/// What an [`Overlay`] shows.
pub enum OverlayView {
    Hidden,
    Event { index: nat },
    State { index: nat },
    Service { index: nat, operation: Option<nat> },
}

impl View for Overlay {
    type V = OverlayView;

    open spec fn view(&self) -> OverlayView {
        match self {
            Overlay::Hidden => OverlayView::Hidden,
            Overlay::Event { index } => OverlayView::Event { index: *index as nat },
            Overlay::State { index } => OverlayView::State { index: *index as nat },
            Overlay::Service { index, operation } => OverlayView::Service {
                index: *index as nat,
                operation: cursor_view(*operation),
            },
        }
    }
}

/// What the renderer does after it was woken.
#[derive(Clone, Copy, Debug, PartialEq, Eq)]
pub enum DrawAction {
    /// The state is closed: restore the terminal and leave the loop.
    Stop,
    /// Paint the three panes, and the overlay on top of them.
    Paint(Overlay),
}

/// What a [`DrawAction`] asks for.
pub enum DrawActionView {
    Stop,
    Paint(OverlayView),
}

impl View for DrawAction {
    type V = DrawActionView;

    open spec fn view(&self) -> DrawActionView {
        match self {
            DrawAction::Stop => DrawActionView::Stop,
            DrawAction::Paint(overlay) => DrawActionView::Paint(overlay@),
        }
    }
}

impl UiView {
    /// The pop-up to paint: the one that the active pane names, bound to the
    /// selected entry of its collection. Without such an entry there is
    /// nothing to show.
    pub open spec fn overlay(self) -> OverlayView {
        match self.active {
            Pane::PopUp(PopUpPane::Events) => match self.events.cursor {
                Some(index) => OverlayView::Event { index },
                None => OverlayView::Hidden,
            },
            Pane::PopUp(PopUpPane::States) => match self.states.cursor {
                Some(index) => OverlayView::State { index },
                None => OverlayView::Hidden,
            },
            Pane::PopUp(PopUpPane::Services) => match self.services.cursor {
                Some(index) => OverlayView::Service { index, operation: self.popup.cursor },
                None => OverlayView::Hidden,
            },
            _ => OverlayView::Hidden,
        }
    }

    /// What the renderer does when it finds the state like this.
    pub open spec fn draw_action(self) -> DrawActionView {
        if self.active == Pane::Closed {
            DrawActionView::Stop
        } else {
            DrawActionView::Paint(self.overlay())
        }
    }
}

/// One step of the renderer: decides whether to paint, and which pop-up.
/// Every index it hands out names an entry of its list.
pub fn draw_ui(state: &UiState) -> (action: DrawAction)
    ensures
        action@ == state@.draw_action(),
        state@.valid(),
{
    let events_cursor = state.events.selected();
    let states_cursor = state.states.selected();
    let services_cursor = state.services.selected();
    let operation = state.services_popup.selected();
    match state.active {
        Pane::Closed => DrawAction::Stop,
        Pane::PopUp(PopUpPane::Events) => match events_cursor {
            Some(index) => DrawAction::Paint(Overlay::Event { index }),
            None => DrawAction::Paint(Overlay::Hidden),
        },
        Pane::PopUp(PopUpPane::States) => match states_cursor {
            Some(index) => DrawAction::Paint(Overlay::State { index }),
            None => DrawAction::Paint(Overlay::Hidden),
        },
        Pane::PopUp(PopUpPane::Services) => match services_cursor {
            Some(index) => DrawAction::Paint(Overlay::Service { index, operation }),
            None => DrawAction::Paint(Overlay::Hidden),
        },
        _ => DrawAction::Paint(Overlay::Hidden),
    }
}

/// Copies out what the renderer paints from: the whole state as it is now.
/// The renderer paints from the copy, with the lock released.
pub fn snapshot(state: &UiState) -> (copy: UiState)
    ensures
        copy@ == state@,
{
    state.clone()
}

/// The renderer stops exactly when it finds the state closed.
pub proof fn lemma_renderer_stops_when_closed(state: UiView)
    ensures
        state.draw_action() is Stop <==> state.active == Pane::Closed,
{
}

/// An overlay is bound to an entry that exists: its index is inside the
/// collection that the pop-up was opened on.
pub proof fn lemma_overlay_names_an_entry(state: UiView)
    requires
        state.valid(),
    ensures
        match state.overlay() {
            OverlayView::Hidden => true,
            OverlayView::Event { index } => index < state.events.items.len(),
            OverlayView::State { index } => index < state.states.items.len(),
            OverlayView::Service { index, operation } => index < state.services.items.len() && (
            operation matches Some(chosen) ==> chosen < state.popup.operations.len()),
        },
{
}

} // verus!
