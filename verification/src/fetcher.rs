//! The poller: what one polling cycle does to the interface state.
//!
//! A cycle is a short conversation between the loop that talks to the hub
//! and [`fetcher`], the step function of the poller. The loop reports what
//! happened as a [`PollEvent`], with the lock on the state taken, and gets
//! back a [`PollAction`] to perform with the lock released.

use crate::key_handler::InputEvent;
use crate::outside::parse_fields;
use crate::outside::parsed_fields;
use crate::selection::lemma_clamp_keeps_cursor_valid;
use crate::types::Event;
use crate::types::RequestEntityObject;
use crate::types::RequestStateStruct;
use crate::types::Service;
use crate::types::State;
use crate::ui_types::InputView;
use crate::ui_types::Pane;
use crate::ui_types::PopUpPane;
use crate::ui_types::UiState;
use crate::ui_types::UiView;
use std::collections::HashMap;
use vstd::prelude::*;
use vstd::string::StringExecFns;

verus! {

/// A change that the poller asks the hub to make.
#[derive(Debug)]
pub enum WriteRequest {
    /// Set the state of the entity `entity_id` to `payload`.
    SetState { entity_id: String, payload: RequestStateStruct },
    /// Call the operation `service` of the domain `domain` on the entity
    /// `entity_id`.
    CallService { domain: String, service: String, entity_id: String },
}

/// What a [`WriteRequest`] asks for.
pub enum WriteView {
    SetState { entity_id: Seq<char>, fields: Map<Seq<char>, Seq<char>> },
    CallService { domain: Seq<char>, service: Seq<char>, entity_id: Seq<char> },
}

impl View for WriteRequest {
    type V = WriteView;

    open spec fn view(&self) -> WriteView {
        match self {
            WriteRequest::SetState { entity_id, payload } => WriteView::SetState {
                entity_id: entity_id@,
                fields: payload.state.deep_view(),
            },
            WriteRequest::CallService { domain, service, entity_id } => WriteView::CallService {
                domain: domain@,
                service: service@,
                entity_id: entity_id@,
            },
        }
    }
}

impl WriteView {
    /// The REST end point that takes the request: `/states/` and the entity
    /// for a new state, `/services/`, the domain, `/` and the operation for
    /// a service call.
    pub open spec fn end_point(self) -> Seq<char> {
        match self {
            WriteView::SetState { entity_id, .. } => "/states/"@ + entity_id,
            WriteView::CallService { domain, service, .. } => "/services/"@ + domain + "/"@
                + service,
        }
    }
}

impl WriteRequest {
    /// The REST end point that takes the request.
    pub fn end_point(&self) -> (path: String)
        ensures
            path@ == self@.end_point(),
    {
        match self {
            WriteRequest::SetState { entity_id, .. } => {
                let mut path = String::from_str("/states/");
                path.append(entity_id.as_str());
                path
            },
            WriteRequest::CallService { domain, service, .. } => {
                let mut path = String::from_str("/services/");
                path.append(domain.as_str());
                path.append("/");
                path.append(service.as_str());
                path
            },
        }
    }

    /// The entity that a service call is aimed at.
    pub fn entity(&self) -> (target: Option<RequestEntityObject<'_>>)
        ensures
            match self@ {
                WriteView::CallService { entity_id, .. } => target matches Some(object)
                    && object.entity_id@ == entity_id,
                WriteView::SetState { .. } => target is None,
            },
    {
        match self {
            WriteRequest::CallService { entity_id, .. } => Some(
                RequestEntityObject { entity_id: entity_id.as_str() },
            ),
            WriteRequest::SetState { .. } => None,
        }
    }
}

/// Why composed text was dropped without being sent.
#[derive(Clone, Copy, Debug, PartialEq, Eq, Structural)]
pub enum Rejection {
    /// The text was composed over the events pop-up. Events cannot be sent.
    EventsUnsupported,
    /// The pop-up has no entry that the text could apply to.
    NothingSelected,
    /// The text is not a JSON object of strings, as a new state has to be.
    MalformedPayload,
    /// No pop-up over a collection is open.
    NoPopUp,
}

/// What the loop around the poller reports to it.
#[derive(Debug)]
pub enum PollEvent {
    /// A new cycle begins.
    Wake,
    /// The write that the poller asked for is over. `delivered` tells whether
    /// the hub carried it out.
    WriteFinished { delivered: bool },
    /// The three collections were asked for. A collection is absent where
    /// fetching it failed.
    Fetched {
        events: Option<Vec<Event>>,
        services: Option<Vec<Service>>,
        states: Option<Vec<State>>,
    },
}

/// What the poller asks the loop around it to do next.
#[derive(Debug)]
pub enum PollAction {
    /// The state is closed: leave the loop.
    Stop,
    /// Send the request to the hub, then report `WriteFinished`. A request
    /// is sent once; it is not tried again when the hub refuses it.
    Submit(WriteRequest),
    /// The composed text was dropped without being sent. Say why where the
    /// operator sees it, then go on as for `Fetch`.
    Reject(Rejection),
    /// Fetch the three collections, then report `Fetched`.
    Fetch,
    /// Wake everyone who waits for a change of the state, then sleep until
    /// the next cycle is due and report `Wake`.
    Sleep,
}

/// What a [`PollAction`] asks for.
pub enum PollActionView {
    Stop,
    Submit(WriteView),
    Reject(Rejection),
    Fetch,
    Sleep,
}

impl View for PollAction {
    type V = PollActionView;

    open spec fn view(&self) -> PollActionView {
        match self {
            PollAction::Stop => PollActionView::Stop,
            PollAction::Submit(request) => PollActionView::Submit(request@),
            PollAction::Reject(reason) => PollActionView::Reject(*reason),
            PollAction::Fetch => PollActionView::Fetch,
            PollAction::Sleep => PollActionView::Sleep,
        }
    }
}

impl UiView {
    /// The request that the composed text stands for, given the `fields`
    /// that the text denotes as a JSON object of strings.
    ///
    /// Over the states pop-up the text is the new state of the selected
    /// entity. Over the services pop-up it names the entity on which the
    /// highlighted operation of the selected service is called. Over the
    /// events pop-up, and outside a pop-up, nothing can be sent.
    pub open spec fn planned_write(self, fields: Option<Map<Seq<char>, Seq<char>>>) -> Result<
        WriteView,
        Rejection,
    > {
        match self.active {
            Pane::PopUp(PopUpPane::States) => match self.states.selected() {
                Some(entity) => match fields {
                    Some(new_state) => Ok(
                        WriteView::SetState { entity_id: entity.entity_id@, fields: new_state },
                    ),
                    None => Err(Rejection::MalformedPayload),
                },
                None => Err(Rejection::NothingSelected),
            },
            Pane::PopUp(PopUpPane::Services) => match self.services.selected() {
                Some(service) => if self.popup.cursor is Some {
                    Ok(
                        WriteView::CallService {
                            domain: service.domain@,
                            service: self.popup.highlighted(),
                            entity_id: self.input.buffer,
                        },
                    )
                } else {
                    Err(Rejection::NothingSelected)
                },
                None => Err(Rejection::NothingSelected),
            },
            Pane::PopUp(PopUpPane::Events) => Err(Rejection::EventsUnsupported),
            _ => Err(Rejection::NoPopUp),
        }
    }

    /// The state after the collections are replaced by freshly fetched ones.
    /// Each cursor stays where it was, as far as the new list allows.
    pub open spec fn after_fetch(
        self,
        events: Seq<Event>,
        services: Seq<Service>,
        states: Seq<State>,
    ) -> UiView {
        UiView {
            events: self.events.replaced(events),
            services: self.services.replaced(services),
            states: self.states.replaced(states),
            ..self
        }
    }

    /// The state after the poller was told of `event`. `fields` is what the
    /// composed text denotes as a JSON object of strings.
    ///
    /// A closed state stays as it is. Text that cannot be sent is dropped at
    /// the start of the cycle; text that was sent is dropped when the write
    /// is over, delivered or not. Fetched collections are taken over only if
    /// all three are there; otherwise the state shows what it showed before.
    pub open spec fn after_poll(
        self,
        event: PollEvent,
        fields: Option<Map<Seq<char>, Seq<char>>>,
    ) -> UiView {
        if self.active == Pane::Closed {
            self
        } else {
            match event {
                PollEvent::Wake => if self.input.ready && self.planned_write(fields) is Err {
                    self.with_input(InputView::empty())
                } else {
                    self
                },
                PollEvent::WriteFinished { .. } => self.with_input(InputView::empty()),
                PollEvent::Fetched {
                    events: Some(events),
                    services: Some(services),
                    states: Some(states),
                } => self.after_fetch(events@, services@, states@),
                PollEvent::Fetched { .. } => self,
            }
        }
    }

    /// What the poller asks for after it was told of `event`. A write that
    /// the hub did not carry out ends the cycle: nothing is fetched before
    /// the next one.
    pub open spec fn poll_action(
        self,
        event: PollEvent,
        fields: Option<Map<Seq<char>, Seq<char>>>,
    ) -> PollActionView {
        if self.active == Pane::Closed {
            PollActionView::Stop
        } else {
            match event {
                PollEvent::Wake => if self.input.ready {
                    match self.planned_write(fields) {
                        Ok(request) => PollActionView::Submit(request),
                        Err(reason) => PollActionView::Reject(reason),
                    }
                } else {
                    PollActionView::Fetch
                },
                PollEvent::WriteFinished { delivered } => if delivered {
                    PollActionView::Fetch
                } else {
                    PollActionView::Sleep
                },
                PollEvent::Fetched { .. } => PollActionView::Sleep,
            }
        }
    }
}

/// The view of an optional map of strings.
pub open spec fn fields_view(fields: Option<HashMap<String, String>>) -> Option<
    Map<Seq<char>, Seq<char>>,
> {
    match fields {
        Some(map) => Some(map.deep_view()),
        None => None,
    }
}

/// Works out the request that the composed text stands for. `fields` is the
/// text read as a JSON object of strings, or `None` where it is none.
pub fn plan_write(state: &UiState, fields: Option<HashMap<String, String>>) -> (plan: Result<
    WriteRequest,
    Rejection,
>)
    ensures
        match plan {
            Ok(request) => state@.planned_write(fields_view(fields)) == Ok::<WriteView, Rejection>(
                request@,
            ),
            Err(reason) => state@.planned_write(fields_view(fields)) == Err::<
                WriteView,
                Rejection,
            >(reason),
        },
{
    match state.active {
        Pane::PopUp(PopUpPane::States) => match state.states.selected_item() {
            Some(entity) => match fields {
                Some(new_state) => Ok(
                    WriteRequest::SetState {
                        entity_id: entity.entity_id.clone(),
                        payload: RequestStateStruct { state: new_state },
                    },
                ),
                None => Err(Rejection::MalformedPayload),
            },
            None => Err(Rejection::NothingSelected),
        },
        Pane::PopUp(PopUpPane::Services) => match state.services.selected_item() {
            Some(service) => match state.services_popup.selected() {
                Some(_) => Ok(
                    WriteRequest::CallService {
                        domain: service.domain.clone(),
                        service: state.services_popup.highlighted().to_owned(),
                        entity_id: state.input_pane.buffer.clone(),
                    },
                ),
                None => Err(Rejection::NothingSelected),
            },
            None => Err(Rejection::NothingSelected),
        },
        Pane::PopUp(PopUpPane::Events) => Err(Rejection::EventsUnsupported),
        _ => Err(Rejection::NoPopUp),
    }
}

/// Replaces the three collections by freshly fetched ones. Each cursor stays
/// where it was, as far as the new list allows.
pub fn apply_fetch(
    state: &mut UiState,
    events: Vec<Event>,
    services: Vec<Service>,
    states: Vec<State>,
)
    ensures
        final(state)@ == old(state)@.after_fetch(events@, services@, states@),
{
    state.events.replace(events);
    state.services.replace(services);
    state.states.replace(states);
}

/// One step of the poller: takes note of `event`, updates the state, and
/// says what the loop around the poller does next.
pub fn fetcher(state: &mut UiState, event: PollEvent) -> (action: PollAction)
    ensures
        final(state)@ == old(state)@.after_poll(event, parsed_fields(old(state)@.input.buffer)),
        action@ == old(state)@.poll_action(event, parsed_fields(old(state)@.input.buffer)),
{
    if state.active == Pane::Closed {
        return PollAction::Stop;
    }
    match event {
        PollEvent::Wake => {
            if !state.input_pane.ready {
                return PollAction::Fetch;
            }
            let fields = match state.active {
                Pane::PopUp(PopUpPane::States) => match parse_fields(
                    state.input_pane.buffer.as_str(),
                ) {
                    Ok(new_state) => Some(new_state),
                    Err(_) => None,
                },
                _ => None,
            };
            match plan_write(state, fields) {
                Ok(request) => PollAction::Submit(request),
                Err(reason) => {
                    state.input_pane.clear();
                    PollAction::Reject(reason)
                },
            }
        },
        PollEvent::WriteFinished { delivered } => {
            state.input_pane.clear();
            if delivered {
                PollAction::Fetch
            } else {
                PollAction::Sleep
            }
        },
        PollEvent::Fetched {
            events: Some(events),
            services: Some(services),
            states: Some(states),
        } => {
            apply_fetch(state, events, services, states);
            PollAction::Sleep
        },
        PollEvent::Fetched { .. } => PollAction::Sleep,
    }
}

/// Fetching never leaves a cursor out of its list.
pub proof fn lemma_poll_keeps_cursors_valid(
    state: UiView,
    event: PollEvent,
    fields: Option<Map<Seq<char>, Seq<char>>>,
)
    requires
        state.valid(),
    ensures
        state.after_poll(event, fields).valid(),
{
    match event {
        PollEvent::Fetched {
            events: Some(events),
            services: Some(services),
            states: Some(states),
        } => {
            lemma_clamp_keeps_cursor_valid(state.events.cursor, events@.len());
            lemma_clamp_keeps_cursor_valid(state.services.cursor, services@.len());
            lemma_clamp_keeps_cursor_valid(state.states.cursor, states@.len());
        },
        _ => {},
    }
}

/// A failed fetch leaves the state as it was: the collections that were
/// shown before are still shown.
pub proof fn lemma_failed_fetch_changes_nothing(
    state: UiView,
    events: Option<Vec<Event>>,
    services: Option<Vec<Service>>,
    states: Option<Vec<State>>,
    fields: Option<Map<Seq<char>, Seq<char>>>,
)
    requires
        events is None || services is None || states is None,
    ensures
        state.after_poll(PollEvent::Fetched { events, services, states }, fields) == state,
{
}

/// The poller sends composed text only when it is marked ready, and sending
/// leaves the state as it is until the write is over.
pub proof fn lemma_only_ready_text_is_sent(
    state: UiView,
    fields: Option<Map<Seq<char>, Seq<char>>>,
)
    ensures
        state.poll_action(PollEvent::Wake, fields) is Submit ==> state.input.ready
            && state.after_poll(PollEvent::Wake, fields) == state,
        state.poll_action(PollEvent::Wake, fields) is Reject ==> state.input.ready
            && state.after_poll(PollEvent::Wake, fields).input == InputView::empty(),
{
}

/// At most one write is under way. Whatever the listener does to the state
/// while the hub is busy with a write, the composed text is dropped when the
/// write is over, delivered or not, and the next cycle sends nothing.
pub proof fn lemma_one_write_in_flight(
    state: UiView,
    meanwhile: Seq<InputEvent>,
    delivered: bool,
    fields: Option<Map<Seq<char>, Seq<char>>>,
    later_fields: Option<Map<Seq<char>, Seq<char>>>,
)
    ensures
        ({
            let after = state.after_events(meanwhile).after_poll(
                PollEvent::WriteFinished { delivered },
                fields,
            );
            after.active != Pane::Closed ==> after.input == InputView::empty() && after.poll_action(
                PollEvent::Wake,
                later_fields,
            ) == PollActionView::Fetch
        }),
{
}

/// A closed state is final for the poller: no event changes it, and every
/// event tells the poller to stop.
pub proof fn lemma_closed_state_stops_poller(
    state: UiView,
    event: PollEvent,
    fields: Option<Map<Seq<char>, Seq<char>>>,
)
    requires
        state.active == Pane::Closed,
    ensures
        state.after_poll(event, fields) == state,
        state.poll_action(event, fields) == PollActionView::Stop,
{
}

} // verus!
