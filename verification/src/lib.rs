//! A Home Assistant websocket client: the message types of the websocket
//! API, the connection's state machine (authentication, event subscription,
//! the entity state cache, service calls) and the decisions of the bundled
//! light automations. Transport, timers and JSON encoding live around it.

pub mod types;
pub mod hass;
pub mod websocket;
pub mod automation;
pub mod laws;

pub use types::command::{Auth, CallService, Command, GetStates, SubscribeEvents, Target};
pub use types::response::{
    AuthInvalid, AuthOk, AuthRequired, Context, ErrorCode, EventData, HassEntity, HassEvent,
    ResultItem, ResultValue, Response, WSEvent, WSPong, WSResult,
};
pub use hass::{Hass, HassAction, HassCommand, HassConfig};
