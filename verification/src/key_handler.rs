//! The input listener: what each terminal event does to the interface state.
//!
//! [`key_handler`] is one step of the listener. The loop around it reads the
//! next terminal event, takes the lock on the state, calls the step, and
//! acts on the [`Reaction`] it gets back.

use crate::selection::lemma_move_keeps_cursor_valid;
use crate::selection::KeyDirection;
use crate::ui_types::InputView;
use crate::ui_types::Pane;
use crate::ui_types::PopUpPane;
use crate::ui_types::PopUpSelection;
use crate::ui_types::PopUpView;
use crate::ui_types::UiState;
use crate::ui_types::UiView;
use vstd::prelude::*;

verus! {

/// The keys that the listener tells apart.
#[derive(Clone, Copy, Debug, PartialEq, Eq, Structural)]
pub enum KeyCode {
    Up,
    Down,
    Enter,
    Esc,
    Backspace,
    Char(char),
    /// Any other key.
    Other,
}

/// One event of the terminal.
#[derive(Clone, Copy, Debug, PartialEq, Eq, Structural)]
pub enum InputEvent {
    /// A key press; `ctrl` tells whether the control key was held.
    Key { code: KeyCode, ctrl: bool },
    /// The window changed its size.
    Resize,
    /// The window lost the focus.
    FocusLost,
    /// Any other event.
    Other,
}

/// What the listener does after a step.
#[derive(Clone, Copy, Debug, PartialEq, Eq, Structural)]
pub enum Reaction {
    /// Nothing: go on with the next event.
    Ignored,
    /// Wake everyone who waits for a change of the state.
    Repaint,
    /// The event asked for something that is not offered. The state is as it
    /// was; say so where the operator sees it.
    Unsupported,
    /// The state is closed: wake everyone who waits, and stop listening.
    Shutdown,
}

impl UiView {
    /// The same state with another active pane.
    pub open spec fn with_active(self, active: Pane) -> UiView {
        UiView { active, ..self }
    }

    /// The same state with another composed text.
    pub open spec fn with_input(self, input: InputView) -> UiView {
        UiView { input, ..self }
    }

    /// The state after the quit command.
    pub open spec fn after_quit(self) -> UiView {
        self.with_active(Pane::Closed)
    }

    /// The state after a directional key: the cursor of the active pane
    /// moves, or the cursor over the operation names inside the services
    /// pop-up. Elsewhere nothing moves.
    pub open spec fn after_move(self, direction: KeyDirection) -> UiView {
        match self.active {
            Pane::Events => UiView { events: self.events.moved(direction), ..self },
            Pane::Services => UiView { services: self.services.moved(direction), ..self },
            Pane::States => UiView { states: self.states.moved(direction), ..self },
            Pane::PopUp(PopUpPane::Services) => UiView {
                popup: self.popup.moved(direction),
                ..self
            },
            _ => self,
        }
    }

    /// What follows a directional key.
    pub open spec fn move_reaction(self) -> Reaction {
        match self.active {
            Pane::Events | Pane::Services | Pane::States => Reaction::Repaint,
            Pane::PopUp(PopUpPane::Services) => Reaction::Repaint,
            Pane::Closed => Reaction::Shutdown,
            _ => Reaction::Ignored,
        }
    }

    /// The state after a request to show the pane `target`. Only the three
    /// collection panes can be asked for, and not from inside a pop-up.
    pub open spec fn after_pane_switch(self, target: Pane) -> UiView {
        if target.is_base() && !self.active.is_pop_up() && self.active != Pane::Closed {
            self.with_active(target)
        } else {
            self
        }
    }

    /// The state after the enter key. On a collection pane it opens the
    /// pop-up of that pane; the services pop-up starts with the cursor on the
    /// first operation of the selected service. Inside a pop-up it marks the
    /// composed text as ready to be sent.
    pub open spec fn after_enter(self) -> UiView {
        match self.active {
            Pane::Events => self.with_active(Pane::PopUp(PopUpPane::Events)),
            Pane::Services => UiView {
                active: Pane::PopUp(PopUpPane::Services),
                popup: PopUpView::opened(self.selected_operations()),
                ..self
            },
            Pane::States => self.with_active(Pane::PopUp(PopUpPane::States)),
            Pane::PopUp(_) => self.with_input(
                InputView { buffer: self.input.buffer, ready: true },
            ),
            Pane::Search => self,
            Pane::Closed => self,
        }
    }

    /// What follows the enter key. Search is not offered.
    pub open spec fn enter_reaction(self) -> Reaction {
        match self.active {
            Pane::Search => Reaction::Unsupported,
            Pane::Closed => Reaction::Shutdown,
            _ => Reaction::Repaint,
        }
    }

    /// The state after the escape key. A pop-up is left for the pane below
    /// it, and the composed text is dropped. Elsewhere nothing changes.
    pub open spec fn after_escape(self) -> UiView {
        if self.active.is_pop_up() {
            UiView { active: self.active.underlying(), input: InputView::empty(), ..self }
        } else {
            self
        }
    }

    /// The state after the search key: a pop-up gives way to the search pane.
    pub open spec fn after_search(self) -> UiView {
        if self.active.is_pop_up() {
            self.with_active(Pane::Search)
        } else {
            self
        }
    }

    /// The state after a character was typed into a pop-up.
    pub open spec fn after_text(self, ch: char) -> UiView {
        if self.active.takes_text() {
            self.with_input(
                InputView { buffer: self.input.buffer.push(ch), ready: self.input.ready },
            )
        } else {
            self
        }
    }

    /// The state after the backspace key: inside a pop-up the composed text
    /// loses its last character, if it has one.
    pub open spec fn after_backspace(self) -> UiView {
        if self.active.takes_text() && self.input.buffer.len() > 0 {
            self.with_input(
                InputView { buffer: self.input.buffer.drop_last(), ready: self.input.ready },
            )
        } else {
            self
        }
    }

    /// The state after a printable character. Inside a pop-up over a
    /// collection it is text. Elsewhere it is a command: `q` quits, `e`, `s`
    /// and `x` with the control key show the events, services and states
    /// pane, and `/` asks for the search pane.
    pub open spec fn after_char(self, ch: char, ctrl: bool) -> UiView {
        if self.active.takes_text() {
            self.after_text(ch)
        } else if ch == 'q' {
            self.after_quit()
        } else if ch == 'e' && ctrl {
            self.after_pane_switch(Pane::Events)
        } else if ch == 's' && ctrl {
            self.after_pane_switch(Pane::Services)
        } else if ch == 'x' && ctrl {
            self.after_pane_switch(Pane::States)
        } else if ch == '/' {
            self.after_search()
        } else {
            self
        }
    }

    /// What follows a printable character.
    pub open spec fn char_reaction(self, ch: char, ctrl: bool) -> Reaction {
        if self.active == Pane::Closed {
            Reaction::Shutdown
        } else if self.active.takes_text() {
            Reaction::Repaint
        } else if ch == 'q' {
            Reaction::Shutdown
        } else if (ch == 'e' || ch == 's' || ch == 'x') && ctrl {
            Reaction::Repaint
        } else if ch == '/' {
            Reaction::Repaint
        } else {
            Reaction::Ignored
        }
    }

    /// The state after the terminal event `event`. A closed state stays as
    /// it is.
    pub open spec fn after_event(self, event: InputEvent) -> UiView {
        if self.active == Pane::Closed {
            self
        } else {
            match event {
                InputEvent::Key { code, ctrl } => match code {
                    KeyCode::Up => self.after_move(KeyDirection::Up),
                    KeyCode::Down => self.after_move(KeyDirection::Down),
                    KeyCode::Enter => self.after_enter(),
                    KeyCode::Esc => self.after_escape(),
                    KeyCode::Backspace => self.after_backspace(),
                    KeyCode::Char(ch) => self.after_char(ch, ctrl),
                    KeyCode::Other => self,
                },
                _ => self,
            }
        }
    }

    /// What the listener does after the terminal event `event`.
    pub open spec fn reaction(self, event: InputEvent) -> Reaction {
        if self.active == Pane::Closed {
            Reaction::Shutdown
        } else {
            match event {
                InputEvent::Key { code, ctrl } => match code {
                    KeyCode::Up => self.move_reaction(),
                    KeyCode::Down => self.move_reaction(),
                    KeyCode::Enter => self.enter_reaction(),
                    KeyCode::Esc => Reaction::Repaint,
                    KeyCode::Backspace => Reaction::Repaint,
                    KeyCode::Char(ch) => self.char_reaction(ch, ctrl),
                    KeyCode::Other => Reaction::Repaint,
                },
                InputEvent::Resize => Reaction::Repaint,
                InputEvent::FocusLost => Reaction::Ignored,
                InputEvent::Other => Reaction::Ignored,
            }
        }
    }

    /// The state after the terminal events `events`, first to last.
    pub open spec fn after_events(self, events: Seq<InputEvent>) -> UiView
        decreases events.len(),
    {
        if events.len() == 0 {
            self
        } else {
            self.after_events(events.drop_last()).after_event(events.last())
        }
    }
}

/// Closes the state. Every actor that sees it closed stops.
pub fn quit(state: &mut UiState) -> (reaction: Reaction)
    ensures
        final(state)@ == old(state)@.after_quit(),
        reaction == Reaction::Shutdown,
{
    state.active = Pane::Closed;
    Reaction::Shutdown
}

/// Moves the cursor of the active pane one step in `direction`.
pub fn handle_up_or_down(state: &mut UiState, direction: KeyDirection) -> (reaction: Reaction)
    ensures
        final(state)@ == old(state)@.after_move(direction),
        reaction == old(state)@.move_reaction(),
{
    match state.active {
        Pane::Events => {
            state.events.move_cursor(direction);
            Reaction::Repaint
        },
        Pane::States => {
            state.states.move_cursor(direction);
            Reaction::Repaint
        },
        Pane::Services => {
            state.services.move_cursor(direction);
            Reaction::Repaint
        },
        Pane::PopUp(PopUpPane::Services) => {
            state.services_popup.move_cursor(direction);
            Reaction::Repaint
        },
        Pane::Closed => Reaction::Shutdown,
        _ => Reaction::Ignored,
    }
}

/// Shows the pane `switch_to_pane`, unless a pop-up is open or the state is
/// closed. Only the three collection panes can be asked for.
pub fn handle_pane_switch(state: &mut UiState, switch_to_pane: Pane) -> (reaction: Reaction)
    ensures
        final(state)@ == old(state)@.after_pane_switch(switch_to_pane),
        reaction == if old(state)@.active == Pane::Closed {
            Reaction::Shutdown
        } else {
            Reaction::Repaint
        },
{
    match state.active {
        Pane::Closed => Reaction::Shutdown,
        Pane::PopUp(_) => Reaction::Repaint,
        _ => {
            if switch_to_pane.in_base_pane() {
                state.active = switch_to_pane;
            }
            Reaction::Repaint
        },
    }
}

/// Opens the pop-up of the active pane, or, inside a pop-up, marks the
/// composed text as ready to be sent.
pub fn handle_enter(state: &mut UiState) -> (reaction: Reaction)
    ensures
        final(state)@ == old(state)@.after_enter(),
        reaction == old(state)@.enter_reaction(),
{
    match state.active {
        Pane::Events => {
            state.active = Pane::PopUp(PopUpPane::Events);
            Reaction::Repaint
        },
        Pane::Services => {
            let names = state.selected_operations();
            state.services_popup = PopUpSelection::open(names);
            state.active = Pane::PopUp(PopUpPane::Services);
            Reaction::Repaint
        },
        Pane::States => {
            state.active = Pane::PopUp(PopUpPane::States);
            Reaction::Repaint
        },
        Pane::PopUp(_) => {
            state.input_pane.ready = true;
            Reaction::Repaint
        },
        Pane::Search => Reaction::Unsupported,
        Pane::Closed => Reaction::Shutdown,
    }
}

/// Leaves a pop-up for the pane below it and drops the composed text.
pub fn handle_escape(state: &mut UiState) -> (reaction: Reaction)
    ensures
        final(state)@ == old(state)@.after_escape(),
        reaction == if old(state)@.active == Pane::Closed {
            Reaction::Shutdown
        } else {
            Reaction::Repaint
        },
{
    match state.active {
        Pane::PopUp(target) => {
            match target {
                PopUpPane::Events => {
                    state.active = Pane::Events;
                },
                PopUpPane::Services => {
                    state.active = Pane::Services;
                },
                PopUpPane::States => {
                    state.active = Pane::States;
                },
                PopUpPane::Unset => {},
            }
            state.input_pane.clear();
            Reaction::Repaint
        },
        Pane::Closed => Reaction::Shutdown,
        _ => Reaction::Repaint,
    }
}

/// Gives way to the search pane, from a pop-up only.
pub fn activate_search(state: &mut UiState) -> (reaction: Reaction)
    ensures
        final(state)@ == old(state)@.after_search(),
        reaction == if old(state)@.active == Pane::Closed {
            Reaction::Shutdown
        } else {
            Reaction::Repaint
        },
{
    match state.active {
        Pane::PopUp(_) => {
            state.active = Pane::Search;
            Reaction::Repaint
        },
        Pane::Closed => Reaction::Shutdown,
        _ => Reaction::Repaint,
    }
}

/// Appends `ch` to the composed text, inside a pop-up over a collection.
pub fn handle_popup_input(state: &mut UiState, ch: char) -> (reaction: Reaction)
    ensures
        final(state)@ == old(state)@.after_text(ch),
        reaction == if old(state)@.active.takes_text() {
            Reaction::Repaint
        } else if old(state)@.active == Pane::Closed {
            Reaction::Shutdown
        } else {
            Reaction::Ignored
        },
{
    if state.active.in_pop_up() {
        state.input_pane.buffer.push(ch);
        Reaction::Repaint
    } else if state.active == Pane::Closed {
        Reaction::Shutdown
    } else {
        Reaction::Ignored
    }
}

/// Removes the last character of the composed text, inside a pop-up over a
/// collection.
pub fn handle_backspace(state: &mut UiState) -> (reaction: Reaction)
    ensures
        final(state)@ == old(state)@.after_backspace(),
        reaction == if old(state)@.active == Pane::Closed {
            Reaction::Shutdown
        } else {
            Reaction::Repaint
        },
{
    if state.active.in_pop_up() {
        let _ = state.input_pane.buffer.pop();
        Reaction::Repaint
    } else if state.active == Pane::Closed {
        Reaction::Shutdown
    } else {
        Reaction::Repaint
    }
}

/// Handles a printable character: text inside a pop-up over a collection, a
/// command elsewhere.
pub fn handle_char(state: &mut UiState, ch: char, ctrl: bool) -> (reaction: Reaction)
    ensures
        final(state)@ == if old(state)@.active == Pane::Closed {
            old(state)@
        } else {
            old(state)@.after_char(ch, ctrl)
        },
        reaction == old(state)@.char_reaction(ch, ctrl),
{
    if state.active == Pane::Closed {
        Reaction::Shutdown
    } else if state.active.in_pop_up() {
        handle_popup_input(state, ch)
    } else if ch == 'q' {
        quit(state)
    } else if ch == 'e' && ctrl {
        handle_pane_switch(state, Pane::Events)
    } else if ch == 's' && ctrl {
        handle_pane_switch(state, Pane::Services)
    } else if ch == 'x' && ctrl {
        handle_pane_switch(state, Pane::States)
    } else if ch == '/' {
        activate_search(state)
    } else {
        Reaction::Ignored
    }
}

/// One step of the input listener: applies the terminal event `event` to the
/// state and says what the listener does next.
pub fn key_handler(state: &mut UiState, event: InputEvent) -> (reaction: Reaction)
    ensures
        final(state)@ == old(state)@.after_event(event),
        reaction == old(state)@.reaction(event),
{
    if state.active == Pane::Closed {
        return Reaction::Shutdown;
    }
    match event {
        InputEvent::Key { code, ctrl } => match code {
            KeyCode::Up => handle_up_or_down(state, KeyDirection::Up),
            KeyCode::Down => handle_up_or_down(state, KeyDirection::Down),
            KeyCode::Enter => handle_enter(state),
            KeyCode::Esc => handle_escape(state),
            KeyCode::Backspace => handle_backspace(state),
            KeyCode::Char(ch) => handle_char(state, ch, ctrl),
            KeyCode::Other => Reaction::Repaint,
        },
        InputEvent::Resize => Reaction::Repaint,
        InputEvent::FocusLost => Reaction::Ignored,
        InputEvent::Other => Reaction::Ignored,
    }
}

/// The escape key, as an event.
pub open spec fn escape_press() -> InputEvent {
    InputEvent::Key { code: KeyCode::Esc, ctrl: false }
}

/// The enter key, as an event.
pub open spec fn enter_press() -> InputEvent {
    InputEvent::Key { code: KeyCode::Enter, ctrl: false }
}

/// No terminal event moves a cursor out of its list.
pub proof fn lemma_event_keeps_cursors_valid(state: UiView, event: InputEvent)
    requires
        state.valid(),
    ensures
        state.after_event(event).valid(),
{
    lemma_move_keeps_cursor_valid(state.events.cursor, state.events.items.len(), KeyDirection::Up);
    lemma_move_keeps_cursor_valid(
        state.events.cursor,
        state.events.items.len(),
        KeyDirection::Down,
    );
    lemma_move_keeps_cursor_valid(
        state.services.cursor,
        state.services.items.len(),
        KeyDirection::Up,
    );
    lemma_move_keeps_cursor_valid(
        state.services.cursor,
        state.services.items.len(),
        KeyDirection::Down,
    );
    lemma_move_keeps_cursor_valid(state.states.cursor, state.states.items.len(), KeyDirection::Up);
    lemma_move_keeps_cursor_valid(
        state.states.cursor,
        state.states.items.len(),
        KeyDirection::Down,
    );
    lemma_move_keeps_cursor_valid(
        state.popup.cursor,
        state.popup.operations.len(),
        KeyDirection::Up,
    );
    lemma_move_keeps_cursor_valid(
        state.popup.cursor,
        state.popup.operations.len(),
        KeyDirection::Down,
    );
}

/// Whatever the terminal sends, and however much of it, every cursor stays
/// inside its list, and is absent exactly when the list is empty.
pub proof fn lemma_events_keep_cursors_valid(state: UiView, events: Seq<InputEvent>)
    requires
        state.valid(),
    ensures
        state.after_events(events).valid(),
    decreases events.len(),
{
    if events.len() > 0 {
        lemma_events_keep_cursors_valid(state, events.drop_last());
        lemma_event_keeps_cursors_valid(state.after_events(events.drop_last()), events.last());
    }
}

/// Pressing escape on a collection pane, any number of times, changes
/// nothing: not the active pane, not the composed text, nor anything else.
pub proof fn lemma_escape_on_base_pane_changes_nothing(state: UiView, presses: nat)
    requires
        state.active.is_base(),
    ensures
        state.after_events(Seq::new(presses, |i: int| escape_press())) == state,
    decreases presses,
{
    let events = Seq::new(presses, |i: int| escape_press());
    if presses > 0 {
        let shorter = Seq::new((presses - 1) as nat, |i: int| escape_press());
        assert(events.drop_last() =~= shorter);
        lemma_escape_on_base_pane_changes_nothing(state, (presses - 1) as nat);
    }
}

/// Leaving a pop-up always drops the composed text and the request to send
/// it, and ends on the pane below the pop-up.
pub proof fn lemma_leaving_pop_up_clears_input(state: UiView)
    requires
        state.active.is_pop_up(),
    ensures
        state.after_event(escape_press()).input == InputView::empty(),
        state.after_event(escape_press()).active == state.active.underlying(),
        state.active.takes_text() ==> state.after_event(escape_press()).active.is_base(),
{
}

/// Text that is ready to be sent is not submitted a second time: pressing
/// enter again changes nothing.
pub proof fn lemma_enter_on_ready_input_changes_nothing(state: UiView)
    requires
        state.active.is_pop_up(),
        state.input.ready,
    ensures
        state.after_event(enter_press()) == state,
{
}

/// The listener marks text as ready only on the enter key inside a pop-up,
/// and takes the mark back only by leaving the pop-up.
pub proof fn lemma_ready_changes_on_enter_and_escape_only(state: UiView, event: InputEvent)
    ensures
        !state.input.ready && state.after_event(event).input.ready ==> state.active.is_pop_up()
            && event matches InputEvent::Key { code: KeyCode::Enter, .. },
        state.input.ready && !state.after_event(event).input.ready ==> state.active.is_pop_up()
            && event matches InputEvent::Key { code: KeyCode::Esc, .. },
{
}

/// A closed state is final for the listener: no event changes it, and every
/// event tells the listener to stop.
pub proof fn lemma_closed_state_stops_listener(state: UiView, events: Seq<InputEvent>)
    requires
        state.active == Pane::Closed,
    ensures
        state.after_events(events) == state,
        forall|event: InputEvent| #[trigger] state.reaction(event) == Reaction::Shutdown,
    decreases events.len(),
{
    if events.len() > 0 {
        lemma_closed_state_stops_listener(state, events.drop_last());
    }
}

/// The quit key closes the state from every pane that does not take it as
/// text, and tells the listener to stop.
pub proof fn lemma_quit_key_closes(state: UiView, ctrl: bool)
    requires
        !state.active.takes_text(),
    ensures
        state.after_event(InputEvent::Key { code: KeyCode::Char('q'), ctrl }).active
            == Pane::Closed,
        state.reaction(InputEvent::Key { code: KeyCode::Char('q'), ctrl }) == Reaction::Shutdown,
{
}

/// The quit key, without the control key, as an event.
pub open spec fn quit_press() -> InputEvent {
    InputEvent::Key { code: KeyCode::Char('q'), ctrl: false }
}

/// No pane is a trap: from every state, escape followed by the quit key
/// closes the state.
pub proof fn lemma_escape_then_quit_closes(state: UiView)
    ensures
        state.after_event(escape_press()).after_event(quit_press()).active == Pane::Closed,
        state.after_event(escape_press()).reaction(quit_press()) == Reaction::Shutdown,
{
}

} // verus!
