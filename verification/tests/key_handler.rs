use haoscli::fetcher::apply_fetch;
use haoscli::key_handler::activate_search;
use haoscli::key_handler::handle_backspace;
use haoscli::key_handler::handle_char;
use haoscli::key_handler::handle_enter;
use haoscli::key_handler::handle_escape;
use haoscli::key_handler::handle_pane_switch;
use haoscli::key_handler::handle_popup_input;
use haoscli::key_handler::handle_up_or_down;
use haoscli::key_handler::key_handler;
use haoscli::key_handler::quit;
use haoscli::key_handler::InputEvent;
use haoscli::key_handler::KeyCode;
use haoscli::key_handler::Reaction;
use haoscli::selection::KeyDirection;
use haoscli::types::Event;
use haoscli::types::Service;
use haoscli::types::State;
use haoscli::ui_types::Pane;
use haoscli::ui_types::PopUpPane;
use haoscli::ui_types::PopUpSelection;
use haoscli::ui_types::UiState;

fn key(code: KeyCode) -> InputEvent {
    InputEvent::Key { code, ctrl: false }
}

fn ctrl(ch: char) -> InputEvent {
    InputEvent::Key { code: KeyCode::Char(ch), ctrl: true }
}

fn event(name: &str) -> Event {
    Event { event: name.to_string(), listener_count: 1 }
}

fn service(domain: &str, operations: &[&str]) -> Service {
    let mut members = serde_json::Map::new();
    for name in operations {
        members.insert(name.to_string(), serde_json::Value::Null);
    }
    Service { domain: domain.to_string(), services: serde_json::Value::Object(members) }
}

fn entity(entity_id: &str) -> State {
    State {
        entity_id: entity_id.to_string(),
        state: "on".to_string(),
        last_changed: 0,
        attributes: serde_json::Value::Null,
    }
}

fn filled() -> UiState {
    let mut state = UiState::new();
    apply_fetch(
        &mut state,
        vec![event("a"), event("b"), event("c")],
        vec![service("light", &["turn_on", "turn_off", "toggle"]), service("lock", &["open"])],
        vec![entity("light.kitchen"), entity("lock.door")],
    );
    state
}

fn typed(state: &mut UiState, text: &str) {
    for ch in text.chars() {
        assert_eq!(key_handler(state, key(KeyCode::Char(ch))), Reaction::Repaint);
    }
}

#[test]
fn a_new_state_shows_the_events_pane() {
    let state = UiState::new();
    assert_eq!(state.active, Pane::Events);
    assert!(state.events.is_empty());
    assert!(state.services.is_empty());
    assert!(state.states.is_empty());
    assert_eq!(state.events.selected(), None);
    assert_eq!(state.services_popup.len(), 0);
    assert_eq!(state.services_popup.selected(), None);
    assert_eq!(state.services_popup.highlighted(), "");
    assert_eq!(state.input_pane.buffer, "");
    assert!(!state.input_pane.ready);
    let other = UiState::default();
    assert_eq!(other.active, Pane::Events);
    assert_eq!(Pane::default(), Pane::Events);
    assert_eq!(PopUpPane::default(), PopUpPane::Unset);
}

#[test]
fn arrows_move_the_cursor_of_the_active_pane_only() {
    let mut state = filled();
    assert_eq!(key_handler(&mut state, key(KeyCode::Down)), Reaction::Repaint);
    assert_eq!(state.events.selected(), Some(1));
    assert_eq!(state.services.selected(), Some(0));
    assert_eq!(state.states.selected(), Some(0));
    assert_eq!(key_handler(&mut state, ctrl('x')), Reaction::Repaint);
    assert_eq!(key_handler(&mut state, key(KeyCode::Up)), Reaction::Repaint);
    assert_eq!(state.states.selected(), Some(1));
    assert_eq!(state.events.selected(), Some(1));
    assert_eq!(key_handler(&mut state, ctrl('s')), Reaction::Repaint);
    assert_eq!(key_handler(&mut state, key(KeyCode::Down)), Reaction::Repaint);
    assert_eq!(state.services.selected(), Some(1));
    assert_eq!(key_handler(&mut state, key(KeyCode::Down)), Reaction::Repaint);
    assert_eq!(state.services.selected(), Some(0));
}

#[test]
fn arrows_on_an_empty_pane_select_nothing_and_still_repaint() {
    let mut state = UiState::new();
    assert_eq!(key_handler(&mut state, key(KeyCode::Down)), Reaction::Repaint);
    assert_eq!(state.events.selected(), None);
    assert_eq!(key_handler(&mut state, key(KeyCode::Up)), Reaction::Repaint);
    assert_eq!(state.events.selected(), None);
}

#[test]
fn arrows_inside_the_services_pop_up_move_the_operation_cursor() {
    let mut state = filled();
    key_handler(&mut state, ctrl('s'));
    assert_eq!(key_handler(&mut state, key(KeyCode::Enter)), Reaction::Repaint);
    assert_eq!(state.active, Pane::PopUp(PopUpPane::Services));
    assert_eq!(state.services_popup.operations(), &vec!["turn_on", "turn_off", "toggle"]);
    assert_eq!(state.services_popup.selected(), Some(0));
    assert_eq!(state.services_popup.highlighted(), "turn_on");
    assert_eq!(key_handler(&mut state, key(KeyCode::Up)), Reaction::Repaint);
    assert_eq!(state.services_popup.selected(), Some(2));
    assert_eq!(state.services_popup.highlighted(), "toggle");
    assert_eq!(key_handler(&mut state, key(KeyCode::Down)), Reaction::Repaint);
    assert_eq!(state.services_popup.highlighted(), "turn_on");
    assert_eq!(state.services.selected(), Some(0));
}

#[test]
fn arrows_inside_other_pop_ups_are_ignored() {
    let mut state = filled();
    key_handler(&mut state, key(KeyCode::Enter));
    assert_eq!(state.active, Pane::PopUp(PopUpPane::Events));
    assert_eq!(key_handler(&mut state, key(KeyCode::Down)), Reaction::Ignored);
    assert_eq!(state.events.selected(), Some(0));
    let mut state = filled();
    key_handler(&mut state, ctrl('x'));
    key_handler(&mut state, key(KeyCode::Enter));
    assert_eq!(state.active, Pane::PopUp(PopUpPane::States));
    assert_eq!(key_handler(&mut state, key(KeyCode::Up)), Reaction::Ignored);
    assert_eq!(state.states.selected(), Some(0));
    state.active = Pane::Search;
    assert_eq!(handle_up_or_down(&mut state, KeyDirection::Down), Reaction::Ignored);
    state.active = Pane::PopUp(PopUpPane::Unset);
    assert_eq!(handle_up_or_down(&mut state, KeyDirection::Down), Reaction::Ignored);
}

#[test]
fn enter_opens_the_pop_up_of_each_pane() {
    let mut state = filled();
    assert_eq!(handle_enter(&mut state), Reaction::Repaint);
    assert_eq!(state.active, Pane::PopUp(PopUpPane::Events));
    state.active = Pane::States;
    assert_eq!(handle_enter(&mut state), Reaction::Repaint);
    assert_eq!(state.active, Pane::PopUp(PopUpPane::States));
    state.active = Pane::Services;
    assert_eq!(handle_enter(&mut state), Reaction::Repaint);
    assert_eq!(state.active, Pane::PopUp(PopUpPane::Services));
    assert!(!state.input_pane.ready);
}

#[test]
fn opening_the_services_pop_up_reads_the_selected_service() {
    let mut state = filled();
    state.active = Pane::Services;
    assert!(state.services.select(1));
    handle_enter(&mut state);
    assert_eq!(state.services_popup.operations(), &vec!["open"]);
    assert_eq!(state.services_popup.highlighted(), "open");
    assert_eq!(state.get_selected_service().unwrap().domain, "lock");
    assert_eq!(state.selected_operations(), vec!["open"]);
}

#[test]
fn opening_the_services_pop_up_resets_the_operation_cursor() {
    let mut state = filled();
    state.active = Pane::Services;
    handle_enter(&mut state);
    handle_up_or_down(&mut state, KeyDirection::Down);
    assert_eq!(state.services_popup.selected(), Some(1));
    handle_escape(&mut state);
    assert_eq!(state.active, Pane::Services);
    handle_enter(&mut state);
    assert_eq!(state.services_popup.selected(), Some(0));
    assert_eq!(state.services_popup.highlighted(), "turn_on");
}

#[test]
fn a_service_without_an_operations_object_has_no_operation() {
    let mut state = UiState::new();
    apply_fetch(
        &mut state,
        Vec::new(),
        vec![Service { domain: "odd".to_string(), services: serde_json::Value::Bool(true) }],
        Vec::new(),
    );
    state.active = Pane::Services;
    assert_eq!(handle_enter(&mut state), Reaction::Repaint);
    assert_eq!(state.active, Pane::PopUp(PopUpPane::Services));
    assert_eq!(state.services_popup.len(), 0);
    assert_eq!(state.services_popup.selected(), None);
    assert_eq!(state.services_popup.highlighted(), "");
    assert_eq!(handle_up_or_down(&mut state, KeyDirection::Down), Reaction::Repaint);
    assert_eq!(state.services_popup.selected(), None);
}

#[test]
fn opening_the_services_pop_up_without_services_shows_no_operation() {
    let mut state = UiState::new();
    state.active = Pane::Services;
    assert!(state.get_selected_service().is_none());
    assert!(state.selected_operations().is_empty());
    assert_eq!(handle_enter(&mut state), Reaction::Repaint);
    assert_eq!(state.active, Pane::PopUp(PopUpPane::Services));
    assert_eq!(state.services_popup.len(), 0);
}

#[test]
fn enter_inside_a_pop_up_marks_the_text_ready() {
    let mut state = filled();
    key_handler(&mut state, key(KeyCode::Enter));
    typed(&mut state, "ab");
    assert!(!state.input_pane.ready);
    assert_eq!(key_handler(&mut state, key(KeyCode::Enter)), Reaction::Repaint);
    assert_eq!(state.active, Pane::PopUp(PopUpPane::Events));
    assert!(state.input_pane.ready);
    assert_eq!(state.input_pane.buffer, "ab");
    assert_eq!(key_handler(&mut state, key(KeyCode::Enter)), Reaction::Repaint);
    assert!(state.input_pane.ready);
    assert_eq!(state.input_pane.buffer, "ab");
    assert_eq!(state.active, Pane::PopUp(PopUpPane::Events));
}

#[test]
fn enter_in_the_search_pane_is_not_offered() {
    let mut state = filled();
    state.active = Pane::Search;
    assert_eq!(key_handler(&mut state, key(KeyCode::Enter)), Reaction::Unsupported);
    assert_eq!(state.active, Pane::Search);
    assert!(!state.input_pane.ready);
}

#[test]
fn escape_leaves_a_pop_up_and_drops_the_text() {
    for (pop_up, below) in [
        (PopUpPane::Events, Pane::Events),
        (PopUpPane::Services, Pane::Services),
        (PopUpPane::States, Pane::States),
    ] {
        let mut state = filled();
        state.active = Pane::PopUp(pop_up);
        typed(&mut state, "text");
        key_handler(&mut state, key(KeyCode::Enter));
        assert!(state.input_pane.ready);
        assert_eq!(key_handler(&mut state, key(KeyCode::Esc)), Reaction::Repaint);
        assert_eq!(state.active, below);
        assert_eq!(state.input_pane.buffer, "");
        assert!(!state.input_pane.ready);
    }
}

#[test]
fn escape_from_an_unbound_pop_up_drops_the_text_and_stays() {
    let mut state = filled();
    state.active = Pane::PopUp(PopUpPane::Unset);
    state.input_pane.buffer = "left over".to_string();
    state.input_pane.ready = true;
    assert_eq!(handle_escape(&mut state), Reaction::Repaint);
    assert_eq!(state.active, Pane::PopUp(PopUpPane::Unset));
    assert_eq!(state.input_pane.buffer, "");
    assert!(!state.input_pane.ready);
}

#[test]
fn escape_on_a_base_pane_changes_nothing() {
    for pane in [Pane::Events, Pane::Services, Pane::States] {
        let mut state = filled();
        state.active = pane;
        state.input_pane.buffer = "kept".to_string();
        state.input_pane.ready = true;
        for _ in 0..5 {
            assert_eq!(key_handler(&mut state, key(KeyCode::Esc)), Reaction::Repaint);
            assert_eq!(state.active, pane);
            assert_eq!(state.input_pane.buffer, "kept");
            assert!(state.input_pane.ready);
            assert_eq!(state.events.selected(), Some(0));
        }
    }
}

#[test]
fn escape_in_the_search_pane_changes_nothing() {
    let mut state = filled();
    state.active = Pane::Search;
    assert_eq!(key_handler(&mut state, key(KeyCode::Esc)), Reaction::Repaint);
    assert_eq!(state.active, Pane::Search);
}

#[test]
fn characters_inside_a_pop_up_are_text() {
    let mut state = filled();
    key_handler(&mut state, ctrl('x'));
    key_handler(&mut state, key(KeyCode::Enter));
    typed(&mut state, "q/es x");
    assert_eq!(key_handler(&mut state, ctrl('e')), Reaction::Repaint);
    assert_eq!(key_handler(&mut state, ctrl('q')), Reaction::Repaint);
    assert_eq!(state.input_pane.buffer, "q/es xeq");
    assert_eq!(state.active, Pane::PopUp(PopUpPane::States));
}

#[test]
fn backspace_removes_the_last_character_inside_a_pop_up() {
    let mut state = filled();
    key_handler(&mut state, key(KeyCode::Enter));
    typed(&mut state, "héllo");
    assert_eq!(key_handler(&mut state, key(KeyCode::Backspace)), Reaction::Repaint);
    assert_eq!(state.input_pane.buffer, "héll");
    for _ in 0..4 {
        key_handler(&mut state, key(KeyCode::Backspace));
    }
    assert_eq!(state.input_pane.buffer, "");
    assert_eq!(key_handler(&mut state, key(KeyCode::Backspace)), Reaction::Repaint);
    assert_eq!(state.input_pane.buffer, "");
}

#[test]
fn backspace_outside_a_pop_up_changes_nothing() {
    let mut state = filled();
    state.input_pane.buffer = "kept".to_string();
    assert_eq!(handle_backspace(&mut state), Reaction::Repaint);
    assert_eq!(state.input_pane.buffer, "kept");
    state.active = Pane::PopUp(PopUpPane::Unset);
    assert_eq!(handle_backspace(&mut state), Reaction::Repaint);
    assert_eq!(state.input_pane.buffer, "kept");
}

#[test]
fn text_outside_a_pop_up_is_not_taken() {
    let mut state = filled();
    assert_eq!(handle_popup_input(&mut state, 'a'), Reaction::Ignored);
    assert_eq!(state.input_pane.buffer, "");
    state.active = Pane::PopUp(PopUpPane::Unset);
    assert_eq!(handle_popup_input(&mut state, 'a'), Reaction::Ignored);
    assert_eq!(state.input_pane.buffer, "");
    state.active = Pane::PopUp(PopUpPane::Services);
    assert_eq!(handle_popup_input(&mut state, 'a'), Reaction::Repaint);
    assert_eq!(state.input_pane.buffer, "a");
}

#[test]
fn control_keys_switch_between_the_panes() {
    let mut state = filled();
    assert_eq!(key_handler(&mut state, ctrl('s')), Reaction::Repaint);
    assert_eq!(state.active, Pane::Services);
    assert_eq!(key_handler(&mut state, ctrl('x')), Reaction::Repaint);
    assert_eq!(state.active, Pane::States);
    assert_eq!(key_handler(&mut state, ctrl('e')), Reaction::Repaint);
    assert_eq!(state.active, Pane::Events);
    state.active = Pane::Search;
    assert_eq!(key_handler(&mut state, ctrl('x')), Reaction::Repaint);
    assert_eq!(state.active, Pane::States);
}

#[test]
fn pane_keys_without_control_do_nothing() {
    let mut state = filled();
    for ch in ['e', 's', 'x', 'z', 'Q', ' '] {
        assert_eq!(key_handler(&mut state, key(KeyCode::Char(ch))), Reaction::Ignored);
        assert_eq!(state.active, Pane::Events);
    }
    assert_eq!(key_handler(&mut state, ctrl('z')), Reaction::Ignored);
    assert_eq!(handle_char(&mut state, 'z', true), Reaction::Ignored);
    assert_eq!(state.active, Pane::Events);
}

#[test]
fn pane_switch_inside_a_pop_up_does_nothing() {
    let mut state = filled();
    state.active = Pane::PopUp(PopUpPane::Events);
    assert_eq!(handle_pane_switch(&mut state, Pane::States), Reaction::Repaint);
    assert_eq!(state.active, Pane::PopUp(PopUpPane::Events));
    state.active = Pane::PopUp(PopUpPane::Unset);
    assert_eq!(key_handler(&mut state, ctrl('s')), Reaction::Repaint);
    assert_eq!(state.active, Pane::PopUp(PopUpPane::Unset));
}

#[test]
fn pane_switch_takes_collection_panes_only() {
    for target in [Pane::Search, Pane::Closed, Pane::PopUp(PopUpPane::Events), Pane::PopUp(PopUpPane::Unset)] {
        let mut state = filled();
        state.active = Pane::Services;
        assert_eq!(handle_pane_switch(&mut state, target), Reaction::Repaint);
        assert_eq!(state.active, Pane::Services);
    }
}

#[test]
fn search_key_gives_way_to_search_from_an_unbound_pop_up_only() {
    let mut state = filled();
    state.active = Pane::PopUp(PopUpPane::Unset);
    assert_eq!(key_handler(&mut state, key(KeyCode::Char('/'))), Reaction::Repaint);
    assert_eq!(state.active, Pane::Search);
    assert_eq!(key_handler(&mut state, key(KeyCode::Char('/'))), Reaction::Repaint);
    assert_eq!(state.active, Pane::Search);
    let mut state = filled();
    state.active = Pane::PopUp(PopUpPane::States);
    assert_eq!(activate_search(&mut state), Reaction::Repaint);
    assert_eq!(state.active, Pane::Search);
    let mut state = filled();
    assert_eq!(activate_search(&mut state), Reaction::Repaint);
    assert_eq!(state.active, Pane::Events);
}

#[test]
fn quit_key_closes_the_state() {
    let mut state = filled();
    assert_eq!(key_handler(&mut state, key(KeyCode::Char('q'))), Reaction::Shutdown);
    assert_eq!(state.active, Pane::Closed);
    let mut state = filled();
    state.active = Pane::Search;
    assert_eq!(key_handler(&mut state, ctrl('q')), Reaction::Shutdown);
    assert_eq!(state.active, Pane::Closed);
    let mut state = filled();
    assert_eq!(quit(&mut state), Reaction::Shutdown);
    assert_eq!(state.active, Pane::Closed);
}

#[test]
fn a_closed_state_answers_every_event_with_shutdown() {
    let mut state = filled();
    state.input_pane.buffer = "kept".to_string();
    quit(&mut state);
    let events = [
        key(KeyCode::Up),
        key(KeyCode::Down),
        key(KeyCode::Enter),
        key(KeyCode::Esc),
        key(KeyCode::Backspace),
        key(KeyCode::Char('a')),
        key(KeyCode::Char('/')),
        ctrl('e'),
        key(KeyCode::Other),
        InputEvent::Resize,
        InputEvent::FocusLost,
        InputEvent::Other,
    ];
    for event in events {
        assert_eq!(key_handler(&mut state, event), Reaction::Shutdown);
        assert_eq!(state.active, Pane::Closed);
        assert_eq!(state.input_pane.buffer, "kept");
        assert_eq!(state.events.selected(), Some(0));
    }
    assert_eq!(handle_up_or_down(&mut state, KeyDirection::Up), Reaction::Shutdown);
    assert_eq!(handle_enter(&mut state), Reaction::Shutdown);
    assert_eq!(handle_escape(&mut state), Reaction::Shutdown);
    assert_eq!(handle_backspace(&mut state), Reaction::Shutdown);
    assert_eq!(handle_popup_input(&mut state, 'a'), Reaction::Shutdown);
    assert_eq!(handle_pane_switch(&mut state, Pane::Events), Reaction::Shutdown);
    assert_eq!(activate_search(&mut state), Reaction::Shutdown);
    assert_eq!(handle_char(&mut state, 'q', false), Reaction::Shutdown);
    assert_eq!(state.active, Pane::Closed);
    assert_eq!(state.input_pane.buffer, "kept");
}

#[test]
fn events_that_are_no_keys() {
    let mut state = filled();
    assert_eq!(key_handler(&mut state, InputEvent::Resize), Reaction::Repaint);
    assert_eq!(key_handler(&mut state, InputEvent::FocusLost), Reaction::Ignored);
    assert_eq!(key_handler(&mut state, InputEvent::Other), Reaction::Ignored);
    assert_eq!(key_handler(&mut state, key(KeyCode::Other)), Reaction::Repaint);
    assert_eq!(state.active, Pane::Events);
    assert_eq!(state.events.selected(), Some(0));
}

#[test]
fn pane_predicates() {
    assert!(Pane::Events.in_base_pane());
    assert!(Pane::Services.in_base_pane());
    assert!(Pane::States.in_base_pane());
    assert!(!Pane::Search.in_base_pane());
    assert!(!Pane::Closed.in_base_pane());
    assert!(!Pane::PopUp(PopUpPane::Events).in_base_pane());
    assert!(Pane::PopUp(PopUpPane::Events).in_pop_up());
    assert!(Pane::PopUp(PopUpPane::Services).in_pop_up());
    assert!(Pane::PopUp(PopUpPane::States).in_pop_up());
    assert!(!Pane::PopUp(PopUpPane::Unset).in_pop_up());
    assert!(!Pane::Events.in_pop_up());
    assert!(!Pane::Search.in_pop_up());
    assert!(!Pane::Closed.in_pop_up());
}

#[test]
fn pop_up_selection_over_names() {
    let mut selection = PopUpSelection::open(vec!["a".to_string(), "b".to_string()]);
    assert_eq!(selection.len(), 2);
    assert_eq!(selection.selected(), Some(0));
    assert_eq!(selection.highlighted(), "a");
    selection.move_cursor(KeyDirection::Down);
    assert_eq!(selection.highlighted(), "b");
    selection.move_cursor(KeyDirection::Down);
    assert_eq!(selection.highlighted(), "a");
    let copy = selection.clone();
    assert_eq!(copy.operations(), selection.operations());
    assert_eq!(copy.selected(), selection.selected());
    let empty = PopUpSelection::new();
    assert_eq!(empty.len(), 0);
    assert_eq!(empty.highlighted(), "");
    let none = PopUpSelection::open(Vec::new());
    assert_eq!(none.selected(), None);
}

#[test]
fn escape_then_quit_closes_from_every_pane() {
    let panes = [
        Pane::Events,
        Pane::Services,
        Pane::States,
        Pane::Search,
        Pane::Closed,
        Pane::PopUp(PopUpPane::Events),
        Pane::PopUp(PopUpPane::Services),
        Pane::PopUp(PopUpPane::States),
        Pane::PopUp(PopUpPane::Unset),
    ];
    for pane in panes {
        let mut state = filled();
        state.active = pane;
        key_handler(&mut state, key(KeyCode::Esc));
        assert_eq!(key_handler(&mut state, key(KeyCode::Char('q'))), Reaction::Shutdown);
        assert_eq!(state.active, Pane::Closed);
    }
}
