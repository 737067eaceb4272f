//! Messages that Home Assistant sends to the client.

use vstd::prelude::*;
use crate::types::command::copy_opt_string;

verus! {

/// A message received over the websocket, tagged by its `type` on the wire.
#[derive(Clone, Debug)]
pub enum Response {
    AuthRequired(AuthRequired),
    AuthOk(AuthOk),
    AuthInvalid(AuthInvalid),
    Result(WSResult),
    Pong(WSPong),
    Event(WSEvent),
    Close(String),
}

/// The server asks for authentication.
#[derive(Clone, Debug)]
pub struct AuthRequired {
    pub ha_version: String,
}

/// Authentication succeeded.
#[derive(Clone, Debug)]
pub struct AuthOk {
    pub ha_version: String,
}

/// Authentication failed.
#[derive(Clone, Debug)]
pub struct AuthInvalid {
    pub message: String,
}

/// An event delivered on a subscription.
#[derive(Clone, Debug)]
pub struct WSEvent {
    pub id: u64,
    pub event: HassEvent,
}

/// An event of the Home Assistant event bus.
#[derive(Clone, Debug)]
pub struct HassEvent {
    pub event_type: String,
    pub data: EventData,
    pub origin: String,
    pub time_fired: String,
    pub context: Context,
}

/// The payload of a `state_changed` event.
#[derive(Clone, Debug)]
pub struct EventData {
    pub entity_id: String,
    pub new_state: Option<HassEntity>,
    pub old_state: Option<HassEntity>,
}

/// The state of one entity.
#[derive(Clone, Debug)]
pub struct HassEntity {
    pub entity_id: String,
    pub state: String,
    pub last_changed: String,
    pub last_updated: String,
    /// The entity's attributes as JSON text.
    pub attributes: String,
    pub context: Context,
}

/// The context in which a state change or event happened.
#[derive(Clone, Debug)]
pub struct Context {
    pub id: String,
    pub parent_id: Option<String>,
    pub user_id: Option<String>,
}

/// The answer to a command that carried an id.
#[derive(Clone, Debug)]
pub struct WSResult {
    pub id: u64,
    pub success: bool,
    pub result: Option<ResultValue>,
    pub error: Option<ErrorCode>,
}

/// The `result` field of a [`WSResult`]: a JSON array, each element read as an
/// entity state where it is one, or any other JSON value.
#[derive(Clone, Debug)]
pub enum ResultValue {
    Array(Vec<ResultItem>),
    Other(String),
}

/// An element of a JSON array result.
#[derive(Clone, Debug)]
pub enum ResultItem {
    /// The element reads as an entity state.
    Entity(HassEntity),
    /// The element does not read as an entity state; a rendering of it.
    Unparsed(String),
}

/// The error of a failed command.
#[derive(Clone, Debug)]
pub struct ErrorCode {
    pub code: String,
    pub message: String,
}

/// The answer to a ping.
#[derive(Clone, Debug)]
pub struct WSPong {
    pub id: u64,
}

impl Context {
    /// A copy of the context.
    pub fn copy(&self) -> (c: Context)
        ensures
            c == *self,
    {
        Context {
            id: self.id.clone(),
            parent_id: copy_opt_string(&self.parent_id),
            user_id: copy_opt_string(&self.user_id),
        }
    }
}

impl HassEntity {
    /// A copy of the entity state.
    pub fn copy(&self) -> (e: HassEntity)
        ensures
            e == *self,
    {
        HassEntity {
            entity_id: self.entity_id.clone(),
            state: self.state.clone(),
            last_changed: self.last_changed.clone(),
            last_updated: self.last_updated.clone(),
            attributes: self.attributes.clone(),
            context: self.context.copy(),
        }
    }
}

/// Copies an optional entity state.
pub fn copy_opt_entity(e: &Option<HassEntity>) -> (r: Option<HassEntity>)
    ensures
        r == *e,
{
    match e {
        Some(e) => Some(e.copy()),
        None => None,
    }
}

impl EventData {
    /// A copy of the event payload.
    pub fn copy(&self) -> (d: EventData)
        ensures
            d == *self,
    {
        EventData {
            entity_id: self.entity_id.clone(),
            new_state: copy_opt_entity(&self.new_state),
            old_state: copy_opt_entity(&self.old_state),
        }
    }
}

} // verus!
