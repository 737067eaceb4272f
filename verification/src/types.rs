//! Messages exchanged with the Home Assistant websocket API.

pub mod command;
pub mod response;
