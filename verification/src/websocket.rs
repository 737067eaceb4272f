//! Decisions of the websocket transport: where to connect, and what each
//! event of the sending and the receiving half leads to.

use vstd::prelude::*;
use crate::hass::{api_websocket_path, HassConfig};
use crate::types::command::Command;
use crate::types::response::Response;

verus! {

/// Seconds without a command after which the sending half pings the server.
pub const PING_INTERVAL_SECS: u64 = 8;

/// Seconds without a message after which the receiving half gives up.
pub const RECEIVE_TIMEOUT_SECS: u64 = 18;

/// Seconds to wait before connecting again.
pub const RECONNECT_DELAY_SECS: u64 = 5;

#[verifier::external_type_specification]
#[verifier::external_body]
pub struct ExUrl(url::Url);

#[verifier::external_type_specification]
#[verifier::external_body]
pub struct ExUrlParseError(url::ParseError);

/// What `url::Url::parse` gives for a text: the URL it reads, or `None`
/// where it refuses the text.
pub uninterp spec fn url_parse(input: Seq<char>) -> Option<url::Url>;

/// Calls `url::Url::parse`. Claimed: the outcome depends on the input alone,
/// and is named by `url_parse`: it succeeds exactly where `url_parse` gives a
/// URL, and then returns that URL. Not stated: which `ParseError` comes back
/// on failure.
#[verifier::external_body]
fn parse_url(input: &str) -> (r: Result<url::Url, url::ParseError>)
    ensures
        r is Ok <==> url_parse(input@) is Some,
        r matches Ok(u) ==> url_parse(input@) == Some(u),
{
    url::Url::parse(input)
}

/// The address of the websocket API could not be read as a URL.
pub enum EndpointError {
    /// The address that was refused.
    InvalidUrl(String),
}

/// The URL of the websocket API of the configured server.
pub fn websocket_endpoint(config: &HassConfig) -> (r: Result<url::Url, EndpointError>)
    ensures
        r is Ok <==> url_parse(config@.url + api_websocket_path()) is Some,
        r matches Ok(u) ==> url_parse(config@.url + api_websocket_path()) == Some(u),
        r matches Err(EndpointError::InvalidUrl(a)) ==> a@ == config@.url + api_websocket_path(),
{
    let address = config.websocket_address();
    match parse_url(address.as_str()) {
        Ok(u) => Ok(u),
        Err(_) => Err(EndpointError::InvalidUrl(address)),
    }
}

/// What the sending half observed while waiting for the next command.
pub enum SendEvent {
    /// A command to transmit.
    Command(Command),
    /// The command channel closed: nobody can send any more.
    ChannelClosed,
    /// No command came within [`PING_INTERVAL_SECS`].
    Idle,
}

/// What the sending half does next.
pub enum SendStep {
    /// Transmit the command as a text frame, then wait again.
    Transmit(Command),
    /// Send a ping frame to keep the connection alive, then wait again.
    Ping,
    /// Stop sending.
    Stop,
}

/// Decides the sending half's next step.
pub fn send_step(event: SendEvent) -> (step: SendStep)
    ensures
        match event {
            SendEvent::Command(c) => step == SendStep::Transmit(c),
            SendEvent::ChannelClosed => step is Stop,
            SendEvent::Idle => step is Ping,
        },
{
    match event {
        SendEvent::Command(c) => SendStep::Transmit(c),
        SendEvent::ChannelClosed => SendStep::Stop,
        SendEvent::Idle => SendStep::Ping,
    }
}

/// What the receiving half observed while waiting for the next frame.
pub enum ReceiveEvent {
    /// A text frame that reads as a message of the server.
    Message(Response),
    /// A text frame that does not read as a message of the server.
    Unreadable,
    Ping,
    Pong,
    /// The server closed the connection.
    Close,
    /// A binary or other frame.
    OtherFrame,
    /// The connection failed.
    Error,
    /// The stream of frames ended.
    StreamEnded,
    /// No frame came within [`RECEIVE_TIMEOUT_SECS`].
    TimedOut,
}

/// What the receiving half does next.
pub enum ReceiveStep {
    /// Hand the message to the client, then wait again.
    Forward(Response),
    /// Wait for the next frame.
    Continue,
    /// Stop receiving: the connection is over.
    Stop,
}

/// Whether an observation of the receiving half ends the connection.
pub open spec fn ends_connection(event: ReceiveEvent) -> bool {
    match event {
        ReceiveEvent::Close | ReceiveEvent::Error | ReceiveEvent::StreamEnded
        | ReceiveEvent::TimedOut => true,
        _ => false,
    }
}

/// Decides the receiving half's next step.
pub fn receive_step(event: ReceiveEvent) -> (step: ReceiveStep)
    ensures
        event matches ReceiveEvent::Message(r) ==> step == ReceiveStep::Forward(r),
        ends_connection(event) <==> step is Stop,
        !(event is Message) && !ends_connection(event) ==> step is Continue,
{
    match event {
        ReceiveEvent::Message(r) => ReceiveStep::Forward(r),
        ReceiveEvent::Unreadable | ReceiveEvent::Ping | ReceiveEvent::Pong
        | ReceiveEvent::OtherFrame => ReceiveStep::Continue,
        ReceiveEvent::Close | ReceiveEvent::Error | ReceiveEvent::StreamEnded
        | ReceiveEvent::TimedOut => ReceiveStep::Stop,
    }
}

} // verus!
