use hass_rs::automation::{
    mirror_command, TimedLight, TimedLightAction, TimedLightCommand, OFF_DELAY_SECS,
};
use hass_rs::{Context, EventData, HassCommand, HassEntity};

fn state(id: &str, s: &str) -> HassEntity {
    HassEntity {
        entity_id: id.to_string(),
        state: s.to_string(),
        last_changed: String::new(),
        last_updated: String::new(),
        attributes: "{}".to_string(),
        context: Context { id: "c".to_string(), parent_id: None, user_id: None },
    }
}

fn change(id: &str, s: Option<&str>) -> EventData {
    EventData { entity_id: id.to_string(), new_state: s.map(|s| state(id, s)), old_state: None }
}

fn expect_light_call(cmd: &HassCommand, service: &str, light: &str) {
    match cmd {
        HassCommand::CallService { domain, service: s, service_data, target } => {
            assert_eq!(domain, "light");
            assert_eq!(s, service);
            assert!(service_data.is_none());
            assert_eq!(target.as_ref().map(|t| t.entity_id.as_str()), Some(light));
        },
        _ => panic!("expected a service call"),
    }
}

#[test]
fn mirror_follows_the_switch() {
    let on = mirror_command(&change("input_boolean.test", Some("on")), "input_boolean.test", "light.front_hall");
    expect_light_call(&on.unwrap(), "turn_on", "light.front_hall");
    let off = mirror_command(&change("input_boolean.test", Some("off")), "input_boolean.test", "light.front_hall");
    expect_light_call(&off.unwrap(), "turn_off", "light.front_hall");
    let unknown = mirror_command(&change("input_boolean.test", Some("unavailable")), "input_boolean.test", "light.front_hall");
    expect_light_call(&unknown.unwrap(), "turn_off", "light.front_hall");
}

#[test]
fn mirror_ignores_other_events() {
    assert!(mirror_command(&change("input_boolean.other", Some("on")), "input_boolean.test", "light.front_hall").is_none());
    assert!(mirror_command(&change("input_boolean.test", None), "input_boolean.test", "light.front_hall").is_none());
}

#[test]
fn timed_light_turns_on_then_goes_off_after_delay() {
    let mut t = TimedLight::new("input_boolean.test".to_string(), "light.front_hall".to_string());
    match t.event(&change("input_boolean.test", Some("on"))) {
        Some(TimedLightAction::Call(c)) => expect_light_call(&c, "turn_on", "light.front_hall"),
        _ => panic!("expected the light turned on"),
    }
    assert!(!t.timer_pending());
    assert!(matches!(t.event(&change("input_boolean.test", Some("off"))), Some(TimedLightAction::StartTimer)));
    assert!(t.timer_pending());
    let c = t.command(TimedLightCommand::LightOff);
    expect_light_call(&c, "turn_off", "light.front_hall");
    assert!(!t.timer_pending());
    assert_eq!(OFF_DELAY_SECS, 10);
}

#[test]
fn timed_light_switch_back_on_cancels_the_timer() {
    let mut t = TimedLight::new("input_boolean.test".to_string(), "light.front_hall".to_string());
    assert!(matches!(t.event(&change("input_boolean.test", Some("off"))), Some(TimedLightAction::StartTimer)));
    assert!(matches!(t.event(&change("input_boolean.test", Some("on"))), Some(TimedLightAction::CancelTimer)));
    assert!(!t.timer_pending());
    // the next "on" turns the light on again
    assert!(matches!(t.event(&change("input_boolean.test", Some("on"))), Some(TimedLightAction::Call(_))));
}

#[test]
fn timed_light_ignores_other_entities() {
    let mut t = TimedLight::new("input_boolean.test".to_string(), "light.front_hall".to_string());
    assert!(t.event(&change("input_boolean.other", Some("off"))).is_none());
    assert!(t.event(&change("input_boolean.test", None)).is_none());
    assert!(!t.timer_pending());
}
