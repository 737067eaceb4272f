use hass_rs::{
    AuthInvalid, AuthOk, AuthRequired, Command, Context, EventData, Hass, HassAction, HassCommand,
    HassConfig, HassEntity, HassEvent, ResultItem, ResultValue, Response, Target, WSEvent, WSPong,
    WSResult,
};

fn config() -> HassConfig {
    HassConfig::from_parts("secret-token".to_string(), "http://homeassistant.local:8123".to_string())
}

fn context() -> Context {
    Context { id: "ctx".to_string(), parent_id: None, user_id: Some("user".to_string()) }
}

fn entity(id: &str, state: &str) -> HassEntity {
    HassEntity {
        entity_id: id.to_string(),
        state: state.to_string(),
        last_changed: "2023-01-01T00:00:00+00:00".to_string(),
        last_updated: "2023-01-01T00:00:00+00:00".to_string(),
        attributes: "{}".to_string(),
        context: context(),
    }
}

fn event(event_type: &str, id: &str, new_state: Option<HassEntity>) -> Response {
    Response::Event(WSEvent {
        id: 1,
        event: HassEvent {
            event_type: event_type.to_string(),
            data: EventData { entity_id: id.to_string(), new_state, old_state: None },
            origin: "LOCAL".to_string(),
            time_fired: "2023-01-01T00:00:00+00:00".to_string(),
            context: context(),
        },
    })
}

fn result(id: u64, value: Option<ResultValue>) -> Response {
    Response::Result(WSResult { id, success: true, result: value, error: None })
}

fn connected_client() -> Hass {
    let mut h = Hass::new(config());
    let out = h.handle(HassCommand::SetCommandHandle);
    assert!(out.is_empty());
    h
}

fn state_of(h: &mut Hass, id: &str) -> Option<HassEntity> {
    let mut out = h.handle(HassCommand::GetState { entity_id: id.to_string() });
    assert_eq!(out.len(), 1);
    match out.pop() {
        Some(HassAction::ReplyState(s)) => s,
        _ => panic!("expected a state reply"),
    }
}

#[test]
fn new_client_is_idle() {
    let h = Hass::new(config());
    assert!(!h.is_connected());
    assert_eq!(h.last_id(), 0);
    assert_eq!(h.pending_fetch(), None);
}

#[test]
fn auth_required_sends_token_when_connected() {
    let mut h = connected_client();
    let out = h.handle(HassCommand::Response(Response::AuthRequired(AuthRequired {
        ha_version: "2023.1".to_string(),
    })));
    assert_eq!(out.len(), 1);
    match &out[0] {
        HassAction::Send(Command::Auth(a)) => assert_eq!(a.access_token, "secret-token"),
        _ => panic!("expected the auth command"),
    }
    assert_eq!(h.last_id(), 0);
}

#[test]
fn nothing_is_sent_before_connection() {
    let mut h = Hass::new(config());
    let out = h.handle(HassCommand::Response(Response::AuthRequired(AuthRequired {
        ha_version: "2023.1".to_string(),
    })));
    assert!(out.is_empty());
    let out = h.handle(HassCommand::Response(Response::AuthOk(AuthOk {
        ha_version: "2023.1".to_string(),
    })));
    assert!(out.is_empty());
    // the ids are used up all the same, and the fetch is awaited
    assert_eq!(h.last_id(), 2);
    assert_eq!(h.pending_fetch(), Some(2));
}

#[test]
fn auth_ok_subscribes_and_fetches_states() {
    let mut h = connected_client();
    let out = h.handle(HassCommand::Response(Response::AuthOk(AuthOk {
        ha_version: "2023.1".to_string(),
    })));
    assert_eq!(out.len(), 2);
    match &out[0] {
        HassAction::Send(Command::SubscribeEvents(s)) => {
            assert_eq!(s.id, 1);
            assert_eq!(s.event_type.as_deref(), Some("state_changed"));
        },
        _ => panic!("expected the subscription"),
    }
    match &out[1] {
        HassAction::Send(Command::GetStates(g)) => {
            assert_eq!(g.id, 2);
            assert_eq!(g.command_type, "get_states");
        },
        _ => panic!("expected the state request"),
    }
    assert_eq!(h.pending_fetch(), Some(2));
    assert_eq!(h.last_id(), 2);
}

#[test]
fn auth_invalid_pong_and_close_do_nothing() {
    let mut h = connected_client();
    let out = h.handle(HassCommand::Response(Response::AuthInvalid(AuthInvalid {
        message: "bad token".to_string(),
    })));
    assert!(out.is_empty());
    let out = h.handle(HassCommand::Response(Response::Pong(WSPong { id: 3 })));
    assert!(out.is_empty());
    let out = h.handle(HassCommand::Response(Response::Close("bye".to_string())));
    assert!(out.is_empty());
    assert_eq!(h.last_id(), 0);
}

#[test]
fn call_service_numbers_commands() {
    let mut h = connected_client();
    let out = h.handle(HassCommand::CallService {
        domain: "light".to_string(),
        service: "turn_on".to_string(),
        service_data: Some("{\"brightness\":255}".to_string()),
        target: Some(Target::new("light.kitchen".to_string())),
    });
    assert_eq!(out.len(), 1);
    match &out[0] {
        HassAction::Send(Command::CallService(c)) => {
            assert_eq!(c.id, 1);
            assert_eq!(c.service_type, "call_service");
            assert_eq!(c.domain, "light");
            assert_eq!(c.service, "turn_on");
            assert_eq!(c.service_data.as_deref(), Some("{\"brightness\":255}"));
            assert_eq!(c.target.as_ref().map(|t| t.entity_id.as_str()), Some("light.kitchen"));
        },
        _ => panic!("expected the service call"),
    }
    let out = h.call_service("switch", "toggle", None, None);
    match &out[0] {
        HassAction::Send(Command::CallService(c)) => {
            assert_eq!(c.id, 2);
            assert!(c.target.is_none());
        },
        _ => panic!("expected the service call"),
    }
}

#[test]
fn call_service_uses_an_id_even_when_disconnected() {
    let mut h = Hass::new(config());
    let out = h.call_service("light", "turn_on", None, None);
    assert!(out.is_empty());
    assert_eq!(h.last_id(), 1);
}

#[test]
fn ids_are_unique_across_a_session() {
    let mut h = connected_client();
    let mut ids = Vec::new();
    let mut collect = |out: Vec<HassAction>| {
        for a in out {
            match a {
                HassAction::Send(Command::SubscribeEvents(s)) => ids.push(s.id),
                HassAction::Send(Command::GetStates(g)) => ids.push(g.id),
                HassAction::Send(Command::CallService(c)) => ids.push(c.id),
                _ => {},
            }
        }
    };
    collect(h.handle(HassCommand::Response(Response::AuthOk(AuthOk { ha_version: "x".to_string() }))));
    collect(h.call_service("light", "turn_on", None, None));
    collect(h.handle(HassCommand::Response(Response::AuthOk(AuthOk { ha_version: "x".to_string() }))));
    collect(h.call_service("light", "turn_off", None, None));
    assert_eq!(ids, vec![1, 2, 3, 4, 5, 6]);
}

#[test]
fn state_changed_event_is_cached_and_broadcast() {
    let mut h = connected_client();
    assert!(state_of(&mut h, "light.kitchen").is_none());
    let out = h.handle(HassCommand::Response(event(
        "state_changed",
        "light.kitchen",
        Some(entity("light.kitchen", "on")),
    )));
    assert_eq!(out.len(), 1);
    match &out[0] {
        HassAction::Broadcast(d) => {
            assert_eq!(d.entity_id, "light.kitchen");
            assert_eq!(d.new_state.as_ref().map(|s| s.state.as_str()), Some("on"));
        },
        _ => panic!("expected a broadcast"),
    }
    let s = state_of(&mut h, "light.kitchen").expect("cached state");
    assert_eq!(s.state, "on");
    assert_eq!(s.context.user_id.as_deref(), Some("user"));
    h.handle(HassCommand::Response(event(
        "state_changed",
        "light.kitchen",
        Some(entity("light.kitchen", "off")),
    )));
    assert_eq!(state_of(&mut h, "light.kitchen").unwrap().state, "off");
}

#[test]
fn other_events_are_broadcast_but_not_cached() {
    let mut h = connected_client();
    let out = h.handle(HassCommand::Response(event(
        "call_service",
        "light.kitchen",
        Some(entity("light.kitchen", "on")),
    )));
    assert_eq!(out.len(), 1);
    assert!(matches!(out[0], HassAction::Broadcast(_)));
    assert!(state_of(&mut h, "light.kitchen").is_none());
    // a state change without a new state is broadcast and not cached
    let out = h.handle(HassCommand::Response(event("state_changed", "light.kitchen", None)));
    assert_eq!(out.len(), 1);
    assert!(state_of(&mut h, "light.kitchen").is_none());
}

#[test]
fn subscription_is_answered() {
    let mut h = Hass::new(config());
    let out = h.handle(HassCommand::SubscribeEvents);
    assert_eq!(out.len(), 1);
    assert!(matches!(out[0], HassAction::ReplySubscription));
    assert_eq!(h.last_id(), 0);
}

#[test]
fn fetched_states_fill_the_cache_once() {
    let mut h = connected_client();
    h.handle(HassCommand::Response(Response::AuthOk(AuthOk { ha_version: "x".to_string() })));
    let items = vec![
        ResultItem::Entity(entity("sun.sun", "above_horizon")),
        ResultItem::Unparsed("{\"bogus\":1}".to_string()),
        ResultItem::Entity(entity("light.kitchen", "off")),
        ResultItem::Entity(entity("sun.sun", "below_horizon")),
    ];
    let out = h.handle(HassCommand::Response(result(2, Some(ResultValue::Array(items)))));
    assert_eq!(out.len(), 1);
    match &out[0] {
        HassAction::ReportUnparsedState(t) => assert_eq!(t, "{\"bogus\":1}"),
        _ => panic!("expected a report"),
    }
    assert_eq!(h.pending_fetch(), None);
    assert_eq!(state_of(&mut h, "sun.sun").unwrap().state, "below_horizon");
    assert_eq!(state_of(&mut h, "light.kitchen").unwrap().state, "off");
    // the same answer again is ignored
    let again = vec![ResultItem::Entity(entity("sun.sun", "above_horizon"))];
    let out = h.handle(HassCommand::Response(result(2, Some(ResultValue::Array(again)))));
    assert!(out.is_empty());
    assert_eq!(state_of(&mut h, "sun.sun").unwrap().state, "below_horizon");
}

#[test]
fn unrelated_results_are_ignored() {
    let mut h = connected_client();
    h.handle(HassCommand::Response(Response::AuthOk(AuthOk { ha_version: "x".to_string() })));
    let items = vec![ResultItem::Entity(entity("sun.sun", "above_horizon"))];
    let out = h.handle(HassCommand::Response(result(1, Some(ResultValue::Array(items)))));
    assert!(out.is_empty());
    assert_eq!(h.pending_fetch(), Some(2));
    assert!(state_of(&mut h, "sun.sun").is_none());
}

#[test]
fn a_non_list_answer_ends_the_fetch() {
    let mut h = connected_client();
    h.handle(HassCommand::Response(Response::AuthOk(AuthOk { ha_version: "x".to_string() })));
    let out = h.handle(HassCommand::Response(result(2, Some(ResultValue::Other("null".to_string())))));
    assert!(out.is_empty());
    assert_eq!(h.pending_fetch(), None);
    let out = h.handle(HassCommand::Response(result(2, None)));
    assert!(out.is_empty());
}

#[test]
fn ids_left_are_checked() {
    let h = Hass::new(config());
    assert!(h.can_handle(&HassCommand::SubscribeEvents));
    assert!(h.can_handle(&HassCommand::CallService {
        domain: "light".to_string(),
        service: "turn_on".to_string(),
        service_data: None,
        target: None,
    }));
}

#[test]
fn config_parts_and_address() {
    let c = config();
    assert_eq!(c.access_token(), "secret-token");
    assert_eq!(c.url(), "http://homeassistant.local:8123");
    assert_eq!(c.websocket_address(), "http://homeassistant.local:8123/api/websocket");
}

#[test]
fn only_the_latest_state_request_is_awaited() {
    let mut h = connected_client();
    h.handle(HassCommand::Response(Response::AuthOk(AuthOk { ha_version: "x".to_string() })));
    h.handle(HassCommand::Response(Response::AuthOk(AuthOk { ha_version: "x".to_string() })));
    assert_eq!(h.pending_fetch(), Some(4));
    let stale = vec![ResultItem::Entity(entity("sun.sun", "above_horizon"))];
    let out = h.handle(HassCommand::Response(result(2, Some(ResultValue::Array(stale)))));
    assert!(out.is_empty());
    assert!(state_of(&mut h, "sun.sun").is_none());
    assert_eq!(h.pending_fetch(), Some(4));
    let fresh = vec![ResultItem::Entity(entity("sun.sun", "below_horizon"))];
    h.handle(HassCommand::Response(result(4, Some(ResultValue::Array(fresh)))));
    assert_eq!(h.pending_fetch(), None);
    assert_eq!(state_of(&mut h, "sun.sun").unwrap().state, "below_horizon");
}
