//! Decisions of the bundled light automations: a light that mirrors a switch,
//! and a light that a switch turns on and that goes off a while after the
//! switch does.

use vstd::prelude::*;
use crate::hass::HassCommand;
use crate::types::command::Target;
use crate::types::response::EventData;

verus! {

broadcast use vstd::string::group_string_axioms;

/// Seconds a timed light stays on after its switch went off.
pub const OFF_DELAY_SECS: u64 = 10;

/// Whether `cmd` calls `light.<service>` on the one entity `light`, without
/// service data.
pub open spec fn light_call(cmd: HassCommand, service: Seq<char>, light: Seq<char>) -> bool {
    match cmd {
        HassCommand::CallService { domain, service: s, service_data, target } => {
            &&& domain@ == "light"@
            &&& s@ == service
            &&& service_data is None
            &&& target matches Some(t) && t.entity_id@ == light
        },
        _ => false,
    }
}

/// The call of `light.<service>` on `light`.
pub fn light_command(service: &str, light: &str) -> (cmd: HassCommand)
    ensures
        light_call(cmd, service@, light@),
{
    HassCommand::CallService {
        domain: "light".to_string(),
        service: service.to_string(),
        service_data: None,
        target: Some(Target::new(light.to_string())),
    }
}

/// Whether the event reports a new state of `entity`, and that state.
pub open spec fn new_state_of(event: EventData, entity: Seq<char>) -> bool {
    event.entity_id@ == entity && event.new_state is Some
}

/// Whether the new state in the event is `on`.
pub open spec fn turned_on(event: EventData) -> bool {
    event.new_state->0.state@ == "on"@
}

/// The service that the mirroring light calls for an event: `turn_on` or
/// `turn_off` for a new state of exactly the trigger entity, nothing otherwise.
pub open spec fn mirror_service(event: EventData, trigger: Seq<char>) -> Option<Seq<char>> {
    if event.entity_id@ == trigger && event.new_state is Some {
        if event.new_state->0.state@ == "on"@ {
            Some("turn_on"@)
        } else {
            Some("turn_off"@)
        }
    } else {
        None
    }
}

/// Whether two strings hold the same text.
fn same_text(a: &String, b: &str) -> (r: bool)
    ensures
        r == (a@ == b@),
{
    let b = b.to_string();
    *a == b
}

/// The light that mirrors a switch: on each new state of `trigger`, turn
/// `light` on when that state is `on` and off otherwise; ignore everything else.
pub fn mirror_command(event: &EventData, trigger: &str, light: &str) -> (cmd: Option<HassCommand>)
    ensures
        cmd is Some <==> new_state_of(*event, trigger@),
        new_state_of(*event, trigger@) && turned_on(*event) ==> light_call(
            cmd->0,
            "turn_on"@,
            light@,
        ),
        new_state_of(*event, trigger@) && !turned_on(*event) ==> light_call(
            cmd->0,
            "turn_off"@,
            light@,
        ),
        cmd is Some <==> mirror_service(*event, trigger@) is Some,
        cmd is Some ==> light_call(cmd->0, mirror_service(*event, trigger@)->0, light@),
        event.entity_id@ != trigger@ ==> cmd is None,
{
    if !same_text(&event.entity_id, trigger) {
        return None;
    }
    match &event.new_state {
        Some(state) => {
            if same_text(&state.state, "on") {
                Some(light_command("turn_on", light))
            } else {
                Some(light_command("turn_off", light))
            }
        },
        None => None,
    }
}

/// A light that switch `trigger` turns on, and that goes off
/// [`OFF_DELAY_SECS`] after the switch went off, unless the switch comes
/// back on before.
pub struct TimedLight {
    trigger: String,
    entity: String,
    timer_pending: bool,
}

/// The abstract state of a [`TimedLight`].
pub struct TimedLightView {
    pub trigger: Seq<char>,
    pub entity: Seq<char>,
    /// Whether the delayed switching off is scheduled.
    pub timer_pending: bool,
}

impl View for TimedLight {
    type V = TimedLightView;

    closed spec fn view(&self) -> TimedLightView {
        TimedLightView {
            trigger: self.trigger@,
            entity: self.entity@,
            timer_pending: self.timer_pending,
        }
    }
}

/// What a [`TimedLight`] asks of the program around it.
pub enum TimedLightAction {
    /// Cancel the scheduled switching off.
    CancelTimer,
    /// Send this request to the client.
    Call(HassCommand),
    /// Schedule [`TimedLightCommand::LightOff`] in [`OFF_DELAY_SECS`]. A
    /// switching off scheduled before is not cancelled: it still fires, and
    /// only the latest one can be cancelled.
    StartTimer,
}

/// The decision of a [`TimedLight`] on an event.
pub enum TimedLightMove {
    CancelTimer,
    TurnOn,
    StartTimer,
}

/// How a timed light reacts to an event: to a new state of exactly its
/// trigger entity, `on` cancels a scheduled switching off or, when none is
/// scheduled, turns the light on, and anything else schedules the switching
/// off; every other event is ignored.
pub open spec fn timed_light_step(v: TimedLightView, event: EventData) -> (
    TimedLightView,
    Option<TimedLightMove>,
) {
    if event.entity_id@ == v.trigger && event.new_state is Some {
        if event.new_state->0.state@ == "on"@ {
            if v.timer_pending {
                (TimedLightView { timer_pending: false, ..v }, Some(TimedLightMove::CancelTimer))
            } else {
                (v, Some(TimedLightMove::TurnOn))
            }
        } else {
            (TimedLightView { timer_pending: true, ..v }, Some(TimedLightMove::StartTimer))
        }
    } else {
        (v, None)
    }
}

/// Commands that a [`TimedLight`] schedules for itself.
pub enum TimedLightCommand {
    /// The delay after the switch went off has passed.
    LightOff,
}

impl TimedLight {
    /// A timed light with nothing scheduled.
    pub fn new(trigger: String, entity: String) -> (t: TimedLight)
        ensures
            t@ == (TimedLightView { trigger: trigger@, entity: entity@, timer_pending: false }),
    {
        TimedLight { trigger, entity, timer_pending: false }
    }

    /// Reacts to an event: a new state of the switch other than `on`
    /// schedules the switching off; `on` cancels a scheduled switching off,
    /// or, when none is scheduled, turns the light on. Anything else is
    /// ignored.
    pub fn event(&mut self, event: &EventData) -> (action: Option<TimedLightAction>)
        ensures
            final(self)@.trigger == old(self)@.trigger,
            final(self)@.entity == old(self)@.entity,
            !new_state_of(*event, old(self)@.trigger) ==> action is None && final(self)@ == old(
                self,
            )@,
            new_state_of(*event, old(self)@.trigger) && turned_on(*event) && old(self)@.timer_pending
                ==> action == Some(TimedLightAction::CancelTimer) && !final(self)@.timer_pending,
            new_state_of(*event, old(self)@.trigger) && turned_on(*event) && !old(
                self,
            )@.timer_pending ==> (action matches Some(TimedLightAction::Call(c)) && light_call(
                c,
                "turn_on"@,
                old(self)@.entity,
            )) && !final(self)@.timer_pending,
            new_state_of(*event, old(self)@.trigger) && !turned_on(*event) ==> action == Some(
                TimedLightAction::StartTimer,
            ) && final(self)@.timer_pending,
            final(self)@ == timed_light_step(old(self)@, *event).0,
            action is None <==> timed_light_step(old(self)@, *event).1 is None,
            timed_light_step(old(self)@, *event).1 == Some(TimedLightMove::CancelTimer) ==> action
                == Some(TimedLightAction::CancelTimer),
            timed_light_step(old(self)@, *event).1 == Some(TimedLightMove::StartTimer) ==> action
                == Some(TimedLightAction::StartTimer),
            timed_light_step(old(self)@, *event).1 == Some(TimedLightMove::TurnOn) ==> (
            action matches Some(TimedLightAction::Call(c)) && light_call(
                c,
                "turn_on"@,
                old(self)@.entity,
            )),
            event.entity_id@ != old(self)@.trigger ==> action is None && final(self)@ == old(
                self,
            )@,
    {
        if !same_text(&event.entity_id, self.trigger.as_str()) {
            return None;
        }
        match &event.new_state {
            Some(state) => {
                if same_text(&state.state, "on") {
                    if self.timer_pending {
                        self.timer_pending = false;
                        Some(TimedLightAction::CancelTimer)
                    } else {
                        Some(TimedLightAction::Call(light_command("turn_on", self.entity.as_str())))
                    }
                } else {
                    self.timer_pending = true;
                    Some(TimedLightAction::StartTimer)
                }
            },
            None => None,
        }
    }

    /// Reacts to a scheduled command: the delay has passed, so the light
    /// goes off and nothing is scheduled any more.
    pub fn command(&mut self, command: TimedLightCommand) -> (cmd: HassCommand)
        ensures
            final(self)@ == (TimedLightView { timer_pending: false, ..old(self)@ }),
            light_call(cmd, "turn_off"@, old(self)@.entity),
    {
        match command {
            TimedLightCommand::LightOff => {
                let cmd = light_command("turn_off", self.entity.as_str());
                self.timer_pending = false;
                cmd
            },
        }
    }

    /// Whether the switching off is scheduled.
    pub fn timer_pending(&self) -> (b: bool)
        ensures
            b == self@.timer_pending,
    {
        self.timer_pending
    }
}

/// The mirroring light acts only on new states of exactly its trigger
/// entity: an event of any other entity, even one whose id extends the
/// trigger's, calls nothing; an event of the trigger that carries a new state
/// calls `turn_on` when that state is `on` and `turn_off` otherwise.
pub proof fn law_mirror_exact_trigger(event: EventData, trigger: Seq<char>)
    ensures
        event.entity_id@ != trigger ==> mirror_service(event, trigger) is None,
        event.new_state is None ==> mirror_service(event, trigger) is None,
        event.entity_id@ == trigger && event.new_state is Some && event.new_state->0.state@
            == "on"@ ==> mirror_service(event, trigger) == Some("turn_on"@),
        event.entity_id@ == trigger && event.new_state is Some && event.new_state->0.state@
            != "on"@ ==> mirror_service(event, trigger) == Some("turn_off"@),
{
}

/// The timed light acts only on new states of exactly its trigger entity: any
/// other event leaves it unchanged and asks for nothing. On its trigger, `on`
/// never leaves a switching off scheduled, and any other state always leaves
/// one scheduled; a light is turned on only when none was scheduled.
pub proof fn law_timed_light_exact_trigger(v: TimedLightView, event: EventData)
    ensures
        (event.entity_id@ != v.trigger || event.new_state is None) ==> timed_light_step(v, event)
            == (v, None::<TimedLightMove>),
        event.entity_id@ == v.trigger && event.new_state is Some && event.new_state->0.state@
            == "on"@ ==> !timed_light_step(v, event).0.timer_pending && (timed_light_step(
            v,
            event,
        ).1 == Some(TimedLightMove::TurnOn) <==> !v.timer_pending),
        event.entity_id@ == v.trigger && event.new_state is Some && event.new_state->0.state@
            != "on"@ ==> timed_light_step(v, event).0.timer_pending && timed_light_step(v, event).1
            == Some(TimedLightMove::StartTimer),
        timed_light_step(v, event).0.trigger == v.trigger,
        timed_light_step(v, event).0.entity == v.entity,
{
}

} // verus!
