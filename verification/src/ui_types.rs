//! The shared interface state: which pane is active, the three collections
//! with their cursors, the selection inside the services pop-up, and the text
//! that the user is composing.

use crate::outside::member_names;
use crate::outside::object_keys;
use crate::selection::clamped_cursor;
use crate::selection::cursor_valid;
use crate::selection::cursor_view;
use crate::selection::moved_cursor;
use crate::selection::Collection;
use crate::selection::CollectionView;
use crate::selection::KeyDirection;
use crate::types::Event;
use crate::types::Service;
use crate::types::State;
use vstd::prelude::*;

verus! {

/// Which pane is the active one.
#[derive(Clone, Copy, Debug, PartialEq, Eq, Structural)]
pub enum Pane {
    Events,
    Services,
    States,
    PopUp(PopUpPane),
    Search,
    /// The program is shutting down. No pane becomes active again.
    Closed,
}

/// Which collection the selected item of a pop-up is looked up in.
#[derive(Clone, Copy, Debug, PartialEq, Eq, Structural)]
pub enum PopUpPane {
    Events,
    Services,
    States,
    /// The pop-up is bound to no collection.
    Unset,
}

impl Default for Pane {
    fn default() -> (pane: Self)
        ensures
            pane == Pane::Events,
    {
        Pane::Events
    }
}

impl Default for PopUpPane {
    fn default() -> (pane: Self)
        ensures
            pane == PopUpPane::Unset,
    {
        PopUpPane::Unset
    }
}

impl Pane {
    /// One of the three panes that show a collection.
    pub open spec fn is_base(self) -> bool {
        self == Pane::Events || self == Pane::Services || self == Pane::States
    }

    /// Any pop-up, bound to a collection or not.
    pub open spec fn is_pop_up(self) -> bool {
        self is PopUp
    }

    /// A pop-up over one of the three collections. Such a pop-up takes every
    /// printable character as text.
    pub open spec fn takes_text(self) -> bool {
        self == Pane::PopUp(PopUpPane::Events) || self == Pane::PopUp(PopUpPane::Services)
            || self == Pane::PopUp(PopUpPane::States)
    }

    /// The pane that a pop-up goes back to when it is left.
    pub open spec fn underlying(self) -> Pane {
        match self {
            Pane::PopUp(PopUpPane::Events) => Pane::Events,
            Pane::PopUp(PopUpPane::Services) => Pane::Services,
            Pane::PopUp(PopUpPane::States) => Pane::States,
            _ => self,
        }
    }

    /// Whether this is one of the three panes that show a collection.
    pub fn in_base_pane(&self) -> (base: bool)
        ensures
            base == self.is_base(),
    {
        match self {
            Pane::Events | Pane::Services | Pane::States => true,
            _ => false,
        }
    }

    /// Whether this is a pop-up over one of the three collections.
    pub fn in_pop_up(&self) -> (inside: bool)
        ensures
            inside == self.takes_text(),
    {
        match self {
            Pane::PopUp(PopUpPane::Events) => true,
            Pane::PopUp(PopUpPane::States) => true,
            Pane::PopUp(PopUpPane::Services) => true,
            _ => false,
        }
    }
}

/// The text being composed, and whether it waits to be sent.
pub struct InputView {
    pub buffer: Seq<char>,
    pub ready: bool,
}

impl InputView {
    /// No text, nothing to send.
    pub open spec fn empty() -> Self {
        InputView { buffer: Seq::empty(), ready: false }
    }
}

/// Free text composed while a pop-up is open. `ready` tells the poller to
/// send it on its next cycle.
#[derive(Debug)]
pub struct PendingInput {
    pub buffer: String,
    pub ready: bool,
}

impl View for PendingInput {
    type V = InputView;

    open spec fn view(&self) -> InputView {
        InputView { buffer: self.buffer@, ready: self.ready }
    }
}

impl PendingInput {
    /// No text, nothing to send.
    pub fn new() -> (input: Self)
        ensures
            input@ == InputView::empty(),
    {
        PendingInput { buffer: String::new(), ready: false }
    }

    /// Drops the text and the request to send it.
    pub fn clear(&mut self)
        ensures
            final(self)@ == InputView::empty(),
    {
        self.buffer = String::new();
        self.ready = false;
    }
}

impl Clone for PendingInput {
    fn clone(&self) -> (copy: Self)
        ensures
            copy@ == self@,
    {
        PendingInput { buffer: self.buffer.clone(), ready: self.ready }
    }
}

/// The selection inside the services pop-up: the operation names of the
/// service it was opened on, and which of them is highlighted.
pub struct PopUpView {
    pub operations: Seq<Seq<char>>,
    pub cursor: Option<nat>,
}

impl PopUpView {
    /// The cursor is legal for the operation names.
    pub open spec fn valid(self) -> bool {
        cursor_valid(self.cursor, self.operations.len())
    }

    /// The name under the cursor, or the empty text where there is none.
    pub open spec fn highlighted(self) -> Seq<char> {
        match self.cursor {
            Some(index) => if index < self.operations.len() {
                self.operations[index as int]
            } else {
                Seq::empty()
            },
            None => Seq::empty(),
        }
    }

    /// The selection of a pop-up that was just opened on `operations`: the
    /// cursor stands on the first name.
    pub open spec fn opened(operations: Seq<Seq<char>>) -> Self {
        PopUpView { operations, cursor: clamped_cursor(None, operations.len()) }
    }

    /// The selection after one key press.
    pub open spec fn moved(self, direction: KeyDirection) -> Self {
        PopUpView {
            operations: self.operations,
            cursor: moved_cursor(self.cursor, self.operations.len(), direction),
        }
    }
}

/// A second cursor, over the operation names of the service that the
/// services pop-up was opened on. It leaves the cursor of the services
/// collection where it is.
#[derive(Debug)]
pub struct PopUpSelection {
    operations: Collection<String>,
}

impl View for PopUpSelection {
    type V = PopUpView;

    closed spec fn view(&self) -> PopUpView {
        PopUpView {
            operations: self.operations@.items.map_values(|name: String| name@),
            cursor: self.operations@.cursor,
        }
    }
}

impl PopUpSelection {
    /// A selection over no operation.
    pub fn new() -> (selection: Self)
        ensures
            selection@ == PopUpView::opened(Seq::empty()),
    {
        let selection = PopUpSelection { operations: Collection::new() };
        assert(selection@.operations =~= Seq::<Seq<char>>::empty());
        selection
    }

    /// A selection over `names`, with the cursor on the first of them.
    pub fn open(names: Vec<String>) -> (selection: Self)
        ensures
            selection@ == PopUpView::opened(names.deep_view()),
    {
        let ghost wanted = names.deep_view();
        let selection = PopUpSelection { operations: Collection::from_items(names) };
        assert(selection@.operations =~= wanted);
        selection
    }

    /// The number of operation names.
    pub fn len(&self) -> (len: usize)
        ensures
            len == self@.operations.len(),
    {
        self.operations.len()
    }

    /// The index of the highlighted operation.
    pub fn selected(&self) -> (cursor: Option<usize>)
        ensures
            cursor_view(cursor) == self@.cursor,
            self@.valid(),
    {
        self.operations.selected()
    }

    /// The operation names, in order.
    pub fn operations(&self) -> (names: &Vec<String>)
        ensures
            names.deep_view() == self@.operations,
    {
        self.operations.items()
    }

    /// The highlighted operation name, or the empty text where the pop-up has
    /// no operation.
    pub fn highlighted(&self) -> (name: &str)
        ensures
            name@ == self@.highlighted(),
    {
        match self.operations.selected_item() {
            Some(name) => name.as_str(),
            None => {
                proof {
                    reveal_strlit("");
                }
                ""
            },
        }
    }

    /// Moves the cursor one step in `direction`, wrapping at both ends.
    pub fn move_cursor(&mut self, direction: KeyDirection)
        ensures
            final(self)@ == old(self)@.moved(direction),
            final(self)@.valid(),
    {
        self.operations.move_cursor(direction);
    }
}

impl Clone for PopUpSelection {
    fn clone(&self) -> (copy: Self)
        ensures
            copy@ == self@,
    {
        let copy = PopUpSelection { operations: self.operations.clone() };
        assert(copy@.operations =~= self@.operations);
        copy
    }
}

/// What the interface state is to its callers.
pub struct UiView {
    pub active: Pane,
    pub events: CollectionView<Event>,
    pub services: CollectionView<Service>,
    pub states: CollectionView<State>,
    pub popup: PopUpView,
    pub input: InputView,
}

impl UiView {
    /// The state at start-up: the events pane is active, the collections are
    /// empty, and no text is composed.
    pub open spec fn initial() -> Self {
        UiView {
            active: Pane::Events,
            events: CollectionView::empty(),
            services: CollectionView::empty(),
            states: CollectionView::empty(),
            popup: PopUpView::opened(Seq::empty()),
            input: InputView::empty(),
        }
    }

    /// Every cursor is legal for its list.
    pub open spec fn valid(self) -> bool {
        &&& self.events.valid()
        &&& self.services.valid()
        &&& self.states.valid()
        &&& self.popup.valid()
    }

    /// The operation names of the selected service: the member names of its
    /// operations object. There is none where no service is selected or
    /// where its operations are not a JSON object.
    pub open spec fn selected_operations(self) -> Seq<Seq<char>> {
        match self.services.selected() {
            Some(service) => match object_keys(service.services) {
                Some(names) => names,
                None => Seq::empty(),
            },
            None => Seq::empty(),
        }
    }
}

/// The state of the interface, shared by the input listener, the poller and
/// the renderer.
#[derive(Debug)]
pub struct UiState {
    pub active: Pane,
    pub events: Collection<Event>,
    pub services: Collection<Service>,
    pub states: Collection<State>,
    pub services_popup: PopUpSelection,
    pub input_pane: PendingInput,
}

impl View for UiState {
    type V = UiView;

    open spec fn view(&self) -> UiView {
        UiView {
            active: self.active,
            events: self.events@,
            services: self.services@,
            states: self.states@,
            popup: self.services_popup@,
            input: self.input_pane@,
        }
    }
}

impl UiState {
    /// The state at start-up: the events pane is active, the collections are
    /// empty, and no text is composed.
    pub fn new() -> (state: Self)
        ensures
            state@ == UiView::initial(),
    {
        UiState {
            active: Pane::Events,
            events: Collection::new(),
            services: Collection::new(),
            states: Collection::new(),
            services_popup: PopUpSelection::new(),
            input_pane: PendingInput::new(),
        }
    }

    /// The service under the cursor of the services collection.
    pub fn get_selected_service(&self) -> (service: Option<&Service>)
        ensures
            match service {
                Some(found) => self@.services.selected() == Some(*found),
                None => self@.services.selected() is None,
            },
    {
        self.services.selected_item()
    }

    /// The operation names of the service under the cursor.
    pub fn selected_operations(&self) -> (names: Vec<String>)
        ensures
            names.deep_view() == self@.selected_operations(),
    {
        match self.services.selected_item() {
            Some(service) => match member_names(&service.services) {
                Some(names) => names,
                None => Vec::new(),
            },
            None => Vec::new(),
        }
    }
}

impl Clone for UiState {
    fn clone(&self) -> (copy: Self)
        ensures
            copy@ == self@,
    {
        let copy = UiState {
            active: self.active,
            events: self.events.clone(),
            services: self.services.clone(),
            states: self.states.clone(),
            services_popup: self.services_popup.clone(),
            input_pane: self.input_pane.clone(),
        };
        assert(copy@.events.items =~= self@.events.items);
        assert(copy@.services.items =~= self@.services.items);
        assert(copy@.states.items =~= self@.states.items);
        copy
    }
}

impl Default for UiState {
    fn default() -> (state: Self)
        ensures
            state@ == UiView::initial(),
    {
        UiState::new()
    }
}

} // verus!
