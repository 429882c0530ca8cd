//! The records exchanged with the hub, and the connection settings.

use std::collections::HashMap;
use vstd::prelude::*;

verus! {

/// How to reach a Home Assistant instance over its REST end points.
#[derive(Debug)]
pub struct HomeAssistantConnection {
    /// The URL of the instance.
    pub url: String,
    /// The token presented to the instance.
    pub token: Token,
    /// The client id under which this program connects.
    pub client_id: String,
    /// How many times a failed request is tried again.
    pub retries: i32,
}

/// The credential of a connection.
#[derive(Debug)]
#[non_exhaustive]
pub enum Token {
    LongLivedToken(String),
    /// No token was set.
    Missing,
}

/// One event type known to the hub.
#[derive(Debug)]
pub struct Event {
    pub event: String,
    pub listener_count: i32,
}

/// One service domain of the hub.
#[derive(Debug)]
pub struct Service {
    /// The domain of the service: lights, alarms and so on.
    pub domain: String,
    /// The operations of the domain, a JSON object keyed by operation name.
    pub services: serde_json::Value,
}

/// Names the entity that a service call is aimed at.
#[derive(Debug)]
pub struct RequestEntityObject<'a> {
    pub entity_id: &'a str,
}

/// The state of one entity of the hub.
#[derive(Debug)]
pub struct State {
    pub entity_id: String,
    pub state: String,
    /// When the state last changed, in microseconds since the Unix epoch.
    pub last_changed: i64,
    pub attributes: serde_json::Value,
}

/// The new state that a state change asks for.
#[derive(Debug)]
pub struct RequestStateStruct {
    pub state: HashMap<String, String>,
}

impl Clone for Event {
    fn clone(&self) -> (copy: Self)
        ensures
            copy == *self,
    {
        Event { event: self.event.clone(), listener_count: self.listener_count }
    }
}

impl Clone for Service {
    fn clone(&self) -> (copy: Self)
        ensures
            copy == *self,
    {
        Service { domain: self.domain.clone(), services: self.services.clone() }
    }
}

impl Clone for State {
    fn clone(&self) -> (copy: Self)
        ensures
            copy == *self,
    {
        State {
            entity_id: self.entity_id.clone(),
            state: self.state.clone(),
            last_changed: self.last_changed,
            attributes: self.attributes.clone(),
        }
    }
}

} // verus!
