//! Commands that the client sends to Home Assistant.

use vstd::prelude::*;

verus! {

/// A command sent over the websocket, tagged by its `type` on the wire.
#[derive(Clone, Debug)]
pub enum Command {
    Auth(Auth),
    SubscribeEvents(SubscribeEvents),
    CallService(CallService),
    GetStates(GetStates),
}

/// Authentication with a long-lived access token.
#[derive(Clone, Debug)]
pub struct Auth {
    pub access_token: String,
}

/// Subscription to the event bus, optionally to one event type.
#[derive(Clone, Debug)]
pub struct SubscribeEvents {
    pub id: u64,
    pub event_type: Option<String>,
}

/// A service call such as `light.turn_on`.
#[derive(Clone, Debug)]
pub struct CallService {
    pub id: u64,
    /// The message type on the wire (`call_service`).
    pub service_type: String,
    pub domain: String,
    pub service: String,
    /// Service data as JSON text.
    pub service_data: Option<String>,
    pub target: Option<Target>,
}

/// The entity a service call acts on.
#[derive(Clone, Debug)]
pub struct Target {
    pub entity_id: String,
}

/// A request for the current state of every entity.
#[derive(Clone, Debug)]
pub struct GetStates {
    pub id: u64,
    /// The message type on the wire (`get_states`).
    pub command_type: String,
}

/// The abstract value of a [`Command`]: strings taken as character sequences.
pub enum CommandView {
    Auth { access_token: Seq<char> },
    SubscribeEvents { id: u64, event_type: Option<Seq<char>> },
    CallService {
        id: u64,
        service_type: Seq<char>,
        domain: Seq<char>,
        service: Seq<char>,
        service_data: Option<Seq<char>>,
        target: Option<Seq<char>>,
    },
    GetStates { id: u64, command_type: Seq<char> },
}

/// The character sequence of an optional string.
pub open spec fn opt_str_view(s: Option<String>) -> Option<Seq<char>> {
    match s {
        Some(s) => Some(s@),
        None => None,
    }
}

/// The entity id of an optional target.
pub open spec fn opt_target_view(t: Option<Target>) -> Option<Seq<char>> {
    match t {
        Some(t) => Some(t.entity_id@),
        None => None,
    }
}

impl View for Command {
    type V = CommandView;

    open spec fn view(&self) -> CommandView {
        match self {
            Command::Auth(a) => CommandView::Auth { access_token: a.access_token@ },
            Command::SubscribeEvents(s) => CommandView::SubscribeEvents {
                id: s.id,
                event_type: opt_str_view(s.event_type),
            },
            Command::CallService(c) => CommandView::CallService {
                id: c.id,
                service_type: c.service_type@,
                domain: c.domain@,
                service: c.service@,
                service_data: opt_str_view(c.service_data),
                target: opt_target_view(c.target),
            },
            Command::GetStates(g) => CommandView::GetStates { id: g.id, command_type: g.command_type@ },
        }
    }
}

impl CommandView {
    /// The request id of the command; authentication carries none.
    pub open spec fn id(self) -> Option<u64> {
        match self {
            CommandView::Auth { .. } => None,
            CommandView::SubscribeEvents { id, .. } => Some(id),
            CommandView::CallService { id, .. } => Some(id),
            CommandView::GetStates { id, .. } => Some(id),
        }
    }
}

/// Copies an optional string.
pub fn copy_opt_string(s: &Option<String>) -> (r: Option<String>)
    ensures
        r == *s,
{
    match s {
        Some(s) => Some(s.clone()),
        None => None,
    }
}

impl Target {
    /// A target naming one entity.
    pub fn new(entity_id: String) -> (t: Target)
        ensures
            t.entity_id == entity_id,
    {
        Target { entity_id }
    }

    /// A copy of the target.
    pub fn copy(&self) -> (t: Target)
        ensures
            t == *self,
    {
        Target { entity_id: self.entity_id.clone() }
    }
}

} // verus!
