//! The three actors together: what holds of the interface state however
//! their steps follow one another.

use crate::fetcher::lemma_poll_keeps_cursors_valid;
use crate::fetcher::PollActionView;
use crate::fetcher::PollEvent;
use crate::key_handler::lemma_event_keeps_cursors_valid;
use crate::key_handler::InputEvent;
use crate::key_handler::Reaction;
use crate::ui::DrawActionView;
use crate::ui_types::Pane;
use crate::ui_types::UiView;
use vstd::prelude::*;

verus! {

/// One step of one actor, taken with the lock on the state.
pub enum Step {
    /// The input listener handles a terminal event.
    Listen { event: InputEvent },
    /// The poller takes note of an event of its cycle. `fields` is what the
    /// composed text denotes as a JSON object of strings.
    Poll { event: PollEvent, fields: Option<Map<Seq<char>, Seq<char>>> },
    /// The renderer decides what to paint. It only reads the state.
    Draw,
}

impl UiView {
    /// The state after one step of one actor.
    pub open spec fn after_step(self, step: Step) -> UiView {
        match step {
            Step::Listen { event } => self.after_event(event),
            Step::Poll { event, fields } => self.after_poll(event, fields),
            Step::Draw => self,
        }
    }

    /// The state after the steps `steps`, first to last, in whatever order
    /// the actors got the lock.
    pub open spec fn after_steps(self, steps: Seq<Step>) -> UiView
        decreases steps.len(),
    {
        if steps.len() == 0 {
            self
        } else {
            self.after_steps(steps.drop_last()).after_step(steps.last())
        }
    }

    /// Whether the actor that takes `step` is told to leave its loop.
    pub open spec fn stops_at(self, step: Step) -> bool {
        match step {
            Step::Listen { event } => self.reaction(event) == Reaction::Shutdown,
            Step::Poll { event, fields } => self.poll_action(event, fields) == PollActionView::Stop,
            Step::Draw => self.draw_action() == DrawActionView::Stop,
        }
    }
}

/// However the steps of the three actors follow one another, every cursor
/// stays inside its list, and is absent exactly when the list is empty.
pub proof fn lemma_cursors_stay_valid(state: UiView, steps: Seq<Step>)
    requires
        state.valid(),
    ensures
        state.after_steps(steps).valid(),
    decreases steps.len(),
{
    if steps.len() > 0 {
        lemma_cursors_stay_valid(state, steps.drop_last());
        let before = state.after_steps(steps.drop_last());
        match steps.last() {
            Step::Listen { event } => {
                lemma_event_keeps_cursors_valid(before, event);
            },
            Step::Poll { event, fields } => {
                lemma_poll_keeps_cursors_valid(before, event, fields);
            },
            Step::Draw => {},
        }
    }
}

/// Once the state is closed it stays closed, no actor changes it any more,
/// and the next step of every actor tells it to leave its loop.
pub proof fn lemma_closed_state_is_final(state: UiView, steps: Seq<Step>, next: Step)
    requires
        state.active == Pane::Closed,
    ensures
        state.after_steps(steps) == state,
        state.after_steps(steps).stops_at(next),
    decreases steps.len(),
{
    if steps.len() > 0 {
        lemma_closed_state_is_final(state, steps.drop_last(), next);
    }
}

/// No actor leaves its loop before the state is closed, except the listener
/// at the moment it closes the state itself.
pub proof fn lemma_actors_stop_for_closed_state_only(state: UiView, step: Step)
    requires
        state.stops_at(step),
    ensures
        state.after_step(step).active == Pane::Closed,
{
}

} // verus!
