//! The client's state machine: it reacts to requests of the program and to
//! messages of the server, keeps the cache of entity states, numbers the
//! commands it sends, and says what the transport is to do.

use vstd::prelude::*;
use vstd::hash_map::StringHashMap;
use crate::types::command::{
    opt_str_view, opt_target_view, Auth, CallService, Command, CommandView, GetStates,
    SubscribeEvents, Target,
};
use crate::types::response::{EventData, HassEntity, ResultItem, ResultValue, Response, WSEvent};

verus! {

broadcast use vstd::string::group_string_axioms;

/// Where and how to connect: the server's base URL and an access token.
pub struct HassConfig {
    access_token: String,
    url: String,
}

/// The abstract value of a [`HassConfig`].
pub struct HassConfigView {
    pub access_token: Seq<char>,
    pub url: Seq<char>,
}

impl View for HassConfig {
    type V = HassConfigView;

    closed spec fn view(&self) -> HassConfigView {
        HassConfigView { access_token: self.access_token@, url: self.url@ }
    }
}

/// The path of the websocket API below the server's base URL.
pub open spec fn api_websocket_path() -> Seq<char> {
    "/api/websocket"@
}

impl HassConfig {
    /// A configuration from an access token and the server's base URL.
    pub fn from_parts(access_token: String, url: String) -> (c: HassConfig)
        ensures
            c@ == (HassConfigView { access_token: access_token@, url: url@ }),
    {
        HassConfig { access_token, url }
    }

    /// The access token.
    pub fn access_token(&self) -> (t: String)
        ensures
            t@ == self@.access_token,
    {
        self.access_token.clone()
    }

    /// The server's base URL.
    pub fn url(&self) -> (u: String)
        ensures
            u@ == self@.url,
    {
        self.url.clone()
    }

    /// The address of the websocket API: the base URL followed by
    /// `/api/websocket`.
    pub fn websocket_address(&self) -> (a: String)
        ensures
            a@ == self@.url + api_websocket_path(),
    {
        let path = "/api/websocket".to_string();
        let mut a = self.url.clone();
        a.append(path.as_str());
        a
    }
}

/// A request to the client from the program around it (the reply channels of
/// the requests stay with the caller).
#[derive(Clone, Debug)]
pub enum HassCommand {
    /// Call a service such as `light.turn_on`; `service_data` is JSON text.
    CallService {
        domain: String,
        service: String,
        service_data: Option<String>,
        target: Option<Target>,
    },
    /// Hand the caller a receiver of the event stream.
    SubscribeEvents,
    /// Answer the cached state of one entity.
    GetState { entity_id: String },
    /// A message that arrived from the server.
    Response(Response),
    /// The transport connected: commands can be sent from now on.
    SetCommandHandle,
}

/// What the client asks of the program around it.
#[derive(Clone, Debug)]
pub enum HassAction {
    /// Send a command to the server.
    Send(Command),
    /// Publish an event to the subscribers of the event stream.
    Broadcast(EventData),
    /// Give the requester of [`HassCommand::SubscribeEvents`] a receiver.
    ReplySubscription,
    /// Answer a [`HassCommand::GetState`].
    ReplyState(Option<HassEntity>),
    /// An element of the state list could not be read as an entity state.
    ReportUnparsedState(String),
}

/// The abstract value of a [`HassAction`].
pub enum HassActionView {
    Send(CommandView),
    Broadcast(EventData),
    ReplySubscription,
    ReplyState(Option<HassEntity>),
    ReportUnparsedState(Seq<char>),
}

impl View for HassAction {
    type V = HassActionView;

    open spec fn view(&self) -> HassActionView {
        match self {
            HassAction::Send(c) => HassActionView::Send(c@),
            HassAction::Broadcast(d) => HassActionView::Broadcast(*d),
            HassAction::ReplySubscription => HassActionView::ReplySubscription,
            HassAction::ReplyState(s) => HassActionView::ReplyState(*s),
            HassAction::ReportUnparsedState(t) => HassActionView::ReportUnparsedState(t@),
        }
    }
}

/// The abstract values of a sequence of actions.
pub open spec fn action_views(v: Seq<HassAction>) -> Seq<HassActionView> {
    v.map_values(|a: HassAction| a@)
}

/// The client's state.
pub struct Hass {
    config: HassConfig,
    connected: bool,
    id: u64,
    state: StringHashMap<HassEntity>,
    fetch_states_id: Option<u64>,
}

/// The abstract state of the client.
pub struct HassView {
    pub config: HassConfigView,
    /// Whether the transport is connected, so that commands reach the server.
    pub connected: bool,
    /// The last command id handed out; the next is one more.
    pub last_id: u64,
    /// The cached state of each entity, by entity id.
    pub states: Map<Seq<char>, HassEntity>,
    /// The id of the outstanding request for all states, if any.
    pub pending_fetch: Option<u64>,
}

impl View for Hass {
    type V = HassView;

    closed spec fn view(&self) -> HassView {
        HassView {
            config: self.config@,
            connected: self.connected,
            last_id: self.id,
            states: self.state@,
            pending_fetch: self.fetch_states_id,
        }
    }
}

/// The actions that sending `c` gives: the command itself when connected,
/// nothing otherwise.
pub open spec fn send_if(connected: bool, c: CommandView) -> Seq<HassActionView> {
    if connected {
        seq![HassActionView::Send(c)]
    } else {
        seq![]
    }
}

/// The authentication command.
pub open spec fn auth_command(access_token: Seq<char>) -> CommandView {
    CommandView::Auth { access_token }
}

/// The subscription to `state_changed` events.
pub open spec fn subscribe_command(id: u64) -> CommandView {
    CommandView::SubscribeEvents { id, event_type: Some("state_changed"@) }
}

/// The request for all entity states.
pub open spec fn get_states_command(id: u64) -> CommandView {
    CommandView::GetStates { id, command_type: "get_states"@ }
}

/// A service call.
pub open spec fn call_service_command(
    id: u64,
    domain: Seq<char>,
    service: Seq<char>,
    service_data: Option<Seq<char>>,
    target: Option<Seq<char>>,
) -> CommandView {
    CommandView::CallService {
        id,
        service_type: "call_service"@,
        domain,
        service,
        service_data,
        target,
    }
}

/// The cache after reading a list of states in order: each element that is an
/// entity state replaces the entry of its entity id.
pub open spec fn load_states(states: Map<Seq<char>, HassEntity>, items: Seq<ResultItem>) -> Map<
    Seq<char>,
    HassEntity,
>
    decreases items.len(),
{
    if items.len() == 0 {
        states
    } else {
        let before = load_states(states, items.drop_last());
        match items.last() {
            ResultItem::Entity(e) => before.insert(e.entity_id@, e),
            ResultItem::Unparsed(_) => before,
        }
    }
}

/// A report for each element of a list of states that is no entity state, in order.
pub open spec fn unparsed_reports(items: Seq<ResultItem>) -> Seq<HassActionView>
    decreases items.len(),
{
    if items.len() == 0 {
        seq![]
    } else {
        unparsed_reports(items.drop_last()) + match items.last() {
            ResultItem::Entity(_) => Seq::<HassActionView>::empty(),
            ResultItem::Unparsed(t) => seq![HassActionView::ReportUnparsedState(t@)],
        }
    }
}

/// Whether an event records a state change that carries the new state.
pub open spec fn changes_state(ev: WSEvent) -> bool {
    ev.event.event_type@ == "state_changed"@ && ev.event.data.new_state is Some
}

/// The effect of a message of the server on the client's state, and the
/// actions it gives.
pub open spec fn response_step(s: HassView, r: Response) -> (HassView, Seq<HassActionView>) {
    match r {
        Response::Event(ev) => {
            let states = if changes_state(ev) {
                s.states.insert(ev.event.data.entity_id@, ev.event.data.new_state->0)
            } else {
                s.states
            };
            (HassView { states, ..s }, seq![HassActionView::Broadcast(ev.event.data)])
        },
        Response::AuthRequired(_) => (s, send_if(s.connected, auth_command(s.config.access_token))),
        Response::AuthOk(_) => {
            let sub_id = (s.last_id + 1) as u64;
            let fetch_id = (s.last_id + 2) as u64;
            (
                HassView { last_id: fetch_id, pending_fetch: Some(fetch_id), ..s },
                send_if(s.connected, subscribe_command(sub_id)) + send_if(
                    s.connected,
                    get_states_command(fetch_id),
                ),
            )
        },
        Response::Result(res) => {
            if s.pending_fetch == Some(res.id) {
                match res.result {
                    Some(ResultValue::Array(items)) => (
                        HassView {
                            states: load_states(s.states, items@),
                            pending_fetch: None,
                            ..s
                        },
                        unparsed_reports(items@),
                    ),
                    _ => (HassView { pending_fetch: None, ..s }, seq![]),
                }
            } else {
                (s, seq![])
            }
        },
        _ => (s, seq![]),
    }
}

/// The reply to a state query: the cached state of the entity, if any.
pub open spec fn lookup(states: Map<Seq<char>, HassEntity>, entity_id: Seq<char>) -> Option<
    HassEntity,
> {
    if states.contains_key(entity_id) {
        Some(states[entity_id])
    } else {
        None
    }
}

/// The effect of a request on the client's state, and the actions it gives.
pub open spec fn hass_step(s: HassView, c: HassCommand) -> (HassView, Seq<HassActionView>) {
    match c {
        HassCommand::CallService { domain, service, service_data, target } => {
            let id = (s.last_id + 1) as u64;
            (
                HassView { last_id: id, ..s },
                send_if(
                    s.connected,
                    call_service_command(
                        id,
                        domain@,
                        service@,
                        opt_str_view(service_data),
                        opt_target_view(target),
                    ),
                ),
            )
        },
        HassCommand::SubscribeEvents => (s, seq![HassActionView::ReplySubscription]),
        HassCommand::GetState { entity_id } => (
            s,
            seq![HassActionView::ReplyState(lookup(s.states, entity_id@))],
        ),
        HassCommand::Response(r) => response_step(s, r),
        HassCommand::SetCommandHandle => (HassView { connected: true, ..s }, seq![]),
    }
}

/// How many command ids a request uses up.
pub open spec fn ids_needed(c: HassCommand) -> nat {
    match c {
        HassCommand::CallService { .. } => 1,
        HassCommand::Response(Response::AuthOk(_)) => 2,
        _ => 0,
    }
}

impl Hass {
    /// A client that is not connected, has handed out no id and caches nothing.
    pub fn new(config: HassConfig) -> (h: Hass)
        ensures
            h@ == (HassView {
                config: config@,
                connected: false,
                last_id: 0,
                states: Map::empty(),
                pending_fetch: None,
            }),
    {
        Hass {
            config,
            connected: false,
            id: 0,
            state: StringHashMap::new(),
            fetch_states_id: None,
        }
    }

    /// Whether the command ids left suffice for `command`: handing out ids
    /// past `u64::MAX` is refused.
    pub fn can_handle(&self, command: &HassCommand) -> (b: bool)
        ensures
            b == (self@.last_id + ids_needed(*command) <= u64::MAX),
    {
        let needed: u64 = match command {
            HassCommand::CallService { .. } => 1,
            HassCommand::Response(Response::AuthOk(_)) => 2,
            _ => 0,
        };
        self.id <= u64::MAX - needed
    }

    /// The last command id handed out.
    pub fn last_id(&self) -> (id: u64)
        ensures
            id == self@.last_id,
    {
        self.id
    }

    /// Whether the transport is connected.
    pub fn is_connected(&self) -> (b: bool)
        ensures
            b == self@.connected,
    {
        self.connected
    }

    /// The id of the outstanding request for all states, if any.
    pub fn pending_fetch(&self) -> (id: Option<u64>)
        ensures
            id == self@.pending_fetch,
    {
        self.fetch_states_id
    }

    /// The next command id.
    fn get_id(&mut self) -> (id: u64)
        requires
            old(self)@.last_id < u64::MAX,
        ensures
            id == old(self)@.last_id + 1,
            final(self)@ == (HassView { last_id: id, ..old(self)@ }),
    {
        self.id = self.id + 1;
        self.id
    }

    /// The cached state of an entity.
    pub fn get_state(&self, entity_id: &str) -> (r: Option<HassEntity>)
        ensures
            r == lookup(self@.states, entity_id@),
    {
        match self.state.get(entity_id) {
            Some(e) => Some(e.copy()),
            None => None,
        }
    }

    /// Appends the sending of `command` to `out` when connected.
    fn send(&self, command: Command, out: &mut Vec<HassAction>)
        ensures
            action_views(final(out)@) == action_views(old(out)@) + send_if(self@.connected, command@),
            self@.connected ==> final(out)@ == old(out)@.push(HassAction::Send(command)),
            !self@.connected ==> final(out)@ == old(out)@,
    {
        let ghost before = out@;
        if self.connected {
            out.push(HassAction::Send(command));
            proof {
                assert(action_views(out@) =~= action_views(before) + send_if(self@.connected, command@));
            }
        } else {
            assert(action_views(out@) =~= action_views(before) + send_if(self@.connected, command@));
        }
    }

    /// Authenticates with the configured token.
    fn send_auth(&self, out: &mut Vec<HassAction>)
        ensures
            action_views(final(out)@) == action_views(old(out)@) + send_if(
                self@.connected,
                auth_command(self@.config.access_token),
            ),
            self@.connected ==> final(out)@.len() == old(out)@.len() + 1 && (final(out)@.last() matches HassAction::Send(Command::Auth(a)) && a.access_token@
                == self@.config.access_token),
            final(out)@.len() >= old(out)@.len(),
            forall|i: int| 0 <= i < old(out)@.len() ==> final(out)@[i] == old(out)@[i],
    {
        let auth = Auth { access_token: self.config.access_token.clone() };
        self.send(Command::Auth(auth), out);
    }

    /// Subscribes to `state_changed` events under a new id.
    fn subscribe_events(&mut self, out: &mut Vec<HassAction>)
        requires
            old(self)@.last_id < u64::MAX,
        ensures
            final(self)@ == (HassView { last_id: (old(self)@.last_id + 1) as u64, ..old(self)@ }),
            action_views(final(out)@) == action_views(old(out)@) + send_if(
                old(self)@.connected,
                subscribe_command((old(self)@.last_id + 1) as u64),
            ),
    {
        let id = self.get_id();
        let sub = SubscribeEvents { id, event_type: Some("state_changed".to_string()) };
        self.send(Command::SubscribeEvents(sub), out);
    }

    /// Asks for all entity states under a new id, which it returns.
    fn fetch_states(&mut self, out: &mut Vec<HassAction>) -> (id: u64)
        requires
            old(self)@.last_id < u64::MAX,
        ensures
            id == old(self)@.last_id + 1,
            final(self)@ == (HassView { last_id: id, ..old(self)@ }),
            action_views(final(out)@) == action_views(old(out)@) + send_if(
                old(self)@.connected,
                get_states_command(id),
            ),
    {
        let id = self.get_id();
        let get_states = GetStates { id, command_type: "get_states".to_string() };
        self.send(Command::GetStates(get_states), out);
        id
    }

    /// Calls a service under a new id.
    pub fn call_service(
        &mut self,
        domain: &str,
        service: &str,
        service_data: Option<String>,
        target: Option<Target>,
    ) -> (out: Vec<HassAction>)
        requires
            old(self)@.last_id < u64::MAX,
        ensures
            final(self)@ == (HassView { last_id: (old(self)@.last_id + 1) as u64, ..old(self)@ }),
            action_views(out@) == send_if(
                old(self)@.connected,
                call_service_command(
                    (old(self)@.last_id + 1) as u64,
                    domain@,
                    service@,
                    opt_str_view(service_data),
                    opt_target_view(target),
                ),
            ),
            old(self)@.connected ==> out@.len() == 1 && (out@[0] matches HassAction::Send(
                Command::CallService(c),
            ) && c.id == old(self)@.last_id + 1 && c.service_type@ == "call_service"@
                && c.domain@ == domain@ && c.service@ == service@ && c.service_data
                == service_data && c.target == target),
            !old(self)@.connected ==> out@.len() == 0,
    {
        let mut out: Vec<HassAction> = Vec::new();
        let id = self.get_id();
        let call = CallService {
            id,
            service_type: "call_service".to_string(),
            domain: domain.to_string(),
            service: service.to_string(),
            service_data,
            target,
        };
        proof {
            assert(action_views(out@) =~= Seq::<HassActionView>::empty());
        }
        self.send(Command::CallService(call), &mut out);
        out
    }

    /// Reads a list of states into the cache, in order, and reports each
    /// element that is no entity state.
    fn load_state_list(&mut self, items: &Vec<ResultItem>, out: &mut Vec<HassAction>)
        ensures
            final(self)@ == (HassView { states: load_states(old(self)@.states, items@), ..old(self)@ }),
            action_views(final(out)@) == action_views(old(out)@) + unparsed_reports(items@),
    {
        let ghost s0 = self@;
        let ghost out0 = action_views(out@);
        let n = items.len();
        let mut i: usize = 0;
        assert(items@.take(0) =~= Seq::<ResultItem>::empty());
        assert(action_views(out@) =~= out0 + unparsed_reports(items@.take(0)));
        while i < n
            invariant
                n == items@.len(),
                0 <= i <= n,
                self@ == (HassView { states: load_states(s0.states, items@.take(i as int)), ..s0 }),
                action_views(out@) == out0 + unparsed_reports(items@.take(i as int)),
            decreases n - i,
        {
            let ghost before = out@;
            assert(items@.take(i + 1).drop_last() =~= items@.take(i as int));
            assert(items@.take(i + 1).last() == items@[i as int]);
            match &items[i] {
                ResultItem::Entity(e) => {
                    self.state.insert(e.entity_id.clone(), e.copy());
                    assert(action_views(out@) =~= out0 + unparsed_reports(items@.take(i + 1)));
                },
                ResultItem::Unparsed(t) => {
                    out.push(HassAction::ReportUnparsedState(t.clone()));
                    assert(action_views(out@) =~= action_views(before).push(
                        HassActionView::ReportUnparsedState(t@),
                    ));
                    assert(action_views(out@) =~= out0 + unparsed_reports(items@.take(i + 1)));
                },
            }
            i = i + 1;
        }
        assert(items@.take(n as int) =~= items@);
    }

    /// Reacts to a message of the server.
    pub fn process_response(&mut self, response: Response) -> (out: Vec<HassAction>)
        requires
            old(self)@.last_id + ids_needed(HassCommand::Response(response)) <= u64::MAX,
        ensures
            final(self)@ == response_step(old(self)@, response).0,
            action_views(out@) == response_step(old(self)@, response).1,
            (response matches Response::Event(ev) && ev.event.event_type@ == "state_changed"@
                && ev.event.data.new_state is Some) ==> final(self)@.states == old(
                self,
            )@.states.insert(response->Event_0.event.data.entity_id@, response->Event_0.event.data.new_state->0),
            response is AuthRequired && old(self)@.connected ==> out@.len() == 1 && (
            out@[0] matches HassAction::Send(Command::Auth(a)) && a.access_token@ == old(
                self,
            )@.config.access_token),
    {
        let mut out: Vec<HassAction> = Vec::new();
        assert(action_views(out@) =~= Seq::<HassActionView>::empty());
        match response {
            Response::Event(data) => {
                let state_changed = "state_changed".to_string();
                if data.event.event_type == state_changed {
                    match &data.event.data.new_state {
                        Some(new_state) => {
                            self.state.insert(data.event.data.entity_id.clone(), new_state.copy());
                        },
                        None => {},
                    }
                }
                out.push(HassAction::Broadcast(data.event.data));
                assert(action_views(out@) =~= seq![HassActionView::Broadcast(data.event.data)]);
            },
            Response::AuthRequired(_) => {
                self.send_auth(&mut out);
            },
            Response::AuthOk(_) => {
                self.subscribe_events(&mut out);
                let id = self.fetch_states(&mut out);
                self.fetch_states_id = Some(id);
            },
            Response::Result(result) => {
                let pending = self.fetch_states_id;
                let answers_fetch = match pending {
                    Some(id) => id == result.id,
                    None => false,
                };
                if answers_fetch {
                    match &result.result {
                        Some(ResultValue::Array(items)) => {
                            self.load_state_list(items, &mut out);
                        },
                        _ => {},
                    }
                    self.fetch_states_id = None;
                }
            },
            _ => {},
        }
        out
    }

    /// Reacts to a request of the program.
    pub fn handle(&mut self, command: HassCommand) -> (out: Vec<HassAction>)
        requires
            old(self)@.last_id + ids_needed(command) <= u64::MAX,
        ensures
            final(self)@ == hass_step(old(self)@, command).0,
            action_views(out@) == hass_step(old(self)@, command).1,
            (command matches HassCommand::CallService { .. } && old(self)@.connected) ==> out@.len()
                == 1 && (out@[0] matches HassAction::Send(Command::CallService(c)) && c.id
                == old(self)@.last_id + 1 && c.domain@ == command->domain@ && c.service@
                == command->service@ && c.service_data == command->service_data && c.target
                == command->target),
    {
        match command {
            HassCommand::CallService { domain, service, service_data, target } => {
                self.call_service(domain.as_str(), service.as_str(), service_data, target)
            },
            HassCommand::SubscribeEvents => {
                let out = vec![HassAction::ReplySubscription];
                assert(action_views(out@) =~= seq![HassActionView::ReplySubscription]);
                out
            },
            HassCommand::GetState { entity_id } => {
                let out = vec![HassAction::ReplyState(self.get_state(entity_id.as_str()))];
                assert(action_views(out@) =~= seq![HassActionView::ReplyState(lookup(self@.states, entity_id@))]);
                out
            },
            HassCommand::Response(response) => self.process_response(response),
            HassCommand::SetCommandHandle => {
                self.connected = true;
                let out: Vec<HassAction> = Vec::new();
                assert(action_views(out@) =~= Seq::<HassActionView>::empty());
                out
            },
        }
    }
}

} // verus!
