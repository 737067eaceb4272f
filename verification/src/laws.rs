//! Properties of the client's state machine over single steps and over runs
//! of requests.

use vstd::prelude::*;
use crate::hass::{
    changes_state, get_states_command, hass_step, ids_needed, load_states, HassActionView,
    HassCommand, HassView,
};
use crate::types::command::CommandView;
use crate::types::response::{HassEntity, ResultItem, ResultValue, Response, WSEvent, WSResult};

verus! {

/// The id of the command that an action sends, if it sends one that has an id.
pub open spec fn action_id(a: HassActionView) -> Option<u64> {
    match a {
        HassActionView::Send(c) => c.id(),
        _ => None,
    }
}

/// Whether the ids of the commands sent by `acts` exceed `low`, do not exceed
/// `high`, and grow strictly in order.
pub open spec fn ids_increasing_within(acts: Seq<HassActionView>, low: int, high: int) -> bool {
    &&& forall|i: int|
        0 <= i < acts.len() && (#[trigger] action_id(acts[i])) is Some ==> low < action_id(
            acts[i],
        )->0 <= high
    &&& forall|i: int, j: int|
        0 <= i < j < acts.len() && (#[trigger] action_id(acts[i])) is Some && (#[trigger] action_id(
            acts[j],
        )) is Some ==> action_id(acts[i])->0 < action_id(acts[j])->0
}

/// How many command ids a sequence of requests uses up.
pub open spec fn ids_needed_all(cmds: Seq<HassCommand>) -> nat
    decreases cmds.len(),
{
    if cmds.len() == 0 {
        0
    } else {
        ids_needed_all(cmds.drop_last()) + ids_needed(cmds.last())
    }
}

/// The state after a sequence of requests, and all the actions they gave, in order.
pub open spec fn run(s: HassView, cmds: Seq<HassCommand>) -> (HassView, Seq<HassActionView>)
    decreases cmds.len(),
{
    if cmds.len() == 0 {
        (s, seq![])
    } else {
        let (mid, acts) = run(s, cmds.drop_last());
        let (end, more) = hass_step(mid, cmds.last());
        (end, acts + more)
    }
}

/// One step uses up exactly the ids it needs, and the commands it sends carry
/// fresh ids in increasing order.
pub proof fn law_step_ids_fresh(s: HassView, c: HassCommand)
    requires
        s.last_id + ids_needed(c) <= u64::MAX,
    ensures
        hass_step(s, c).0.last_id == s.last_id + ids_needed(c),
        ids_increasing_within(hass_step(s, c).1, s.last_id as int, hass_step(s, c).0.last_id as int),
{
    let acts = hass_step(s, c).1;
    match c {
        HassCommand::Response(Response::AuthOk(_)) => {
            if s.connected {
                assert(acts.len() == 2);
                assert(action_id(acts[0]) == Some((s.last_id + 1) as u64));
                assert(action_id(acts[1]) == Some((s.last_id + 2) as u64));
            } else {
                assert(acts.len() == 0);
            }
        },
        HassCommand::Response(Response::Result(res)) => {
            if s.pending_fetch == Some(res.id) {
                match res.result {
                    Some(ResultValue::Array(items)) => {
                        lemma_reports_only(items@);
                    },
                    _ => {},
                }
            }
        },
        _ => {},
    }
}

/// A list of states gives only reports of unreadable elements.
pub proof fn lemma_reports_only(items: Seq<ResultItem>)
    ensures
        forall|i: int|
            0 <= i < crate::hass::unparsed_reports(items).len() ==> (
            #[trigger] crate::hass::unparsed_reports(items)[i]) is ReportUnparsedState,
    decreases items.len(),
{
    if items.len() > 0 {
        lemma_reports_only(items.drop_last());
        let r = crate::hass::unparsed_reports(items);
        let a = crate::hass::unparsed_reports(items.drop_last());
        assert forall|i: int| 0 <= i < r.len() implies (#[trigger] r[i]) is ReportUnparsedState by {
            if i < a.len() {
                assert(r[i] == a[i]);
            }
        }
    }
}

/// Over any run of requests, no two commands carry the same id: the ids of
/// all commands sent grow strictly, all exceed the id last handed out before
/// the run, and the run uses up exactly the ids its requests need.
pub proof fn law_run_ids_unique(s: HassView, cmds: Seq<HassCommand>)
    requires
        s.last_id + ids_needed_all(cmds) <= u64::MAX,
    ensures
        run(s, cmds).0.last_id == s.last_id + ids_needed_all(cmds),
        ids_increasing_within(run(s, cmds).1, s.last_id as int, run(s, cmds).0.last_id as int),
    decreases cmds.len(),
{
    if cmds.len() > 0 {
        let init = cmds.drop_last();
        law_run_ids_unique(s, init);
        let (mid, acts) = run(s, init);
        law_step_ids_fresh(mid, cmds.last());
        let (end, more) = hass_step(mid, cmds.last());
        let all = acts + more;
        assert(all == run(s, cmds).1);
        assert forall|i: int|
            0 <= i < all.len() && (#[trigger] action_id(all[i])) is Some implies s.last_id
            < action_id(all[i])->0 <= end.last_id by {
            if i < acts.len() {
                assert(all[i] == acts[i]);
            } else {
                assert(all[i] == more[i - acts.len()]);
            }
        }
        assert forall|i: int, j: int|
            0 <= i < j < all.len() && (#[trigger] action_id(all[i])) is Some && (#[trigger] action_id(
                all[j],
            )) is Some implies action_id(all[i])->0 < action_id(all[j])->0 by {
            if j < acts.len() {
                assert(all[i] == acts[i]);
                assert(all[j] == acts[j]);
            } else if i < acts.len() {
                assert(all[i] == acts[i]);
                assert(all[j] == more[j - acts.len()]);
            } else {
                assert(all[i] == more[i - acts.len()]);
                assert(all[j] == more[j - acts.len()]);
            }
        }
    }
}

/// Before the transport has connected nothing is sent, and only the
/// connection itself connects the client; once connected, it stays connected.
pub proof fn law_connection(s: HassView, c: HassCommand)
    ensures
        s.connected ==> hass_step(s, c).0.connected,
        !s.connected && !(c is SetCommandHandle) ==> !hass_step(s, c).0.connected && forall|i: int|
            0 <= i < hass_step(s, c).1.len() ==> !(#[trigger] hass_step(s, c).1[i] is Send),
{
    match c {
        HassCommand::Response(Response::Result(res)) => {
            if s.pending_fetch == Some(res.id) {
                match res.result {
                    Some(ResultValue::Array(items)) => {
                        lemma_reports_only(items@);
                        let r = hass_step(s, c).1;
                        assert forall|i: int| 0 <= i < r.len() implies !(#[trigger] r[i] is Send) by {
                            assert(r[i] is ReportUnparsedState);
                        }
                    },
                    _ => {},
                }
            }
        },
        _ => {},
    }
}

/// A state change is always recorded: after any `state_changed` event that
/// carries a new state, whatever the old state was and whatever was cached
/// before, a query for the event's entity answers exactly that new state.
pub proof fn law_query_reads_recorded_change(s: HassView, ev: WSEvent, entity_id: String)
    requires
        ev.event.event_type@ == "state_changed"@,
        ev.event.data.new_state is Some,
        entity_id@ == ev.event.data.entity_id@,
    ensures
        hass_step(
            hass_step(s, HassCommand::Response(Response::Event(ev))).0,
            HassCommand::GetState { entity_id },
        ).1 == seq![HassActionView::ReplyState(ev.event.data.new_state)],
        hass_step(s, HassCommand::Response(Response::Event(ev))).0.states[entity_id@]
            == ev.event.data.new_state->0,
        hass_step(s, HassCommand::Response(Response::Event(ev))).0.states.dom() == s.states.dom().insert(
            entity_id@,
        ),
{
}

/// The server's request for authentication is always answered while
/// connected: whatever ids were handed out and whatever happened before, the
/// one action is sending the configured access token, and nothing else changes.
pub proof fn law_auth_required_sends_token(s: HassView, r: Response)
    requires
        r is AuthRequired,
        s.connected,
    ensures
        hass_step(s, HassCommand::Response(r)).1 == seq![
            HassActionView::Send(CommandView::Auth { access_token: s.config.access_token }),
        ],
        hass_step(s, HassCommand::Response(r)).0 == s,
{
}

/// A service call sends, while connected, one command under the next id that
/// carries the request's domain, service, service data and target, each as
/// given and independently of the others; disconnected it sends nothing. It
/// uses up one id either way and changes nothing else.
pub proof fn law_call_service_fields(
    s: HassView,
    domain: String,
    service: String,
    service_data: Option<String>,
    target: Option<crate::types::command::Target>,
)
    requires
        s.last_id < u64::MAX,
    ensures
        ({
            let (t, acts) = hass_step(
                s,
                HassCommand::CallService { domain, service, service_data, target },
            );
            &&& t == HassView { last_id: (s.last_id + 1) as u64, ..s }
            &&& s.connected ==> acts == seq![
                HassActionView::Send(
                    CommandView::CallService {
                        id: (s.last_id + 1) as u64,
                        service_type: "call_service"@,
                        domain: domain@,
                        service: service@,
                        service_data: match service_data {
                            Some(d) => Some(d@),
                            None => None,
                        },
                        target: match target {
                            Some(x) => Some(x.entity_id@),
                            None => None,
                        },
                    },
                ),
            ]
            &&& !s.connected ==> acts.len() == 0
        }),
{
}

/// Every event is published to the subscribers, once, whatever its type.
pub proof fn law_events_published(s: HassView, ev: WSEvent)
    ensures
        hass_step(s, HassCommand::Response(Response::Event(ev))).1 == seq![
            HassActionView::Broadcast(ev.event.data),
        ],
        !changes_state(ev) ==> hass_step(s, HassCommand::Response(Response::Event(ev))).0 == s,
{
}

/// Queries change nothing: a state query or a subscription leaves the client
/// as it was.
pub proof fn law_queries_keep_state(s: HassView, c: HassCommand)
    requires
        c is SubscribeEvents || c is GetState,
    ensures
        hass_step(s, c).0 == s,
{
}

/// Reading a list of states never forgets an entity.
pub proof fn lemma_load_keeps_entities(states: Map<Seq<char>, HassEntity>, items: Seq<ResultItem>)
    ensures
        states.dom().subset_of(load_states(states, items).dom()),
    decreases items.len(),
{
    if items.len() > 0 {
        lemma_load_keeps_entities(states, items.drop_last());
    }
}

/// The cache never forgets an entity: every entity cached before a request
/// is cached after it.
pub proof fn law_cache_never_forgets(s: HassView, c: HassCommand)
    ensures
        s.states.dom().subset_of(hass_step(s, c).0.states.dom()),
{
    match c {
        HassCommand::Response(Response::Result(res)) => {
            if s.pending_fetch == Some(res.id) {
                match res.result {
                    Some(ResultValue::Array(items)) => {
                        lemma_load_keeps_entities(s.states, items@);
                    },
                    _ => {},
                }
            }
        },
        _ => {},
    }
}

/// Whether `items[i]` is the last element of the list that is an entity
/// state of entity `key`.
pub open spec fn last_entity_of(items: Seq<ResultItem>, i: int, key: Seq<char>) -> bool {
    &&& 0 <= i < items.len()
    &&& items[i] matches ResultItem::Entity(e) && e.entity_id@ == key
    &&& forall|j: int|
        i < j < items.len() ==> !(#[trigger] items[j] matches ResultItem::Entity(f)
            && f.entity_id@ == key)
}

/// After reading a list of states, an entity's cached state is the last state
/// of it in the list.
pub proof fn lemma_load_last_wins(
    states: Map<Seq<char>, HassEntity>,
    items: Seq<ResultItem>,
    i: int,
    key: Seq<char>,
)
    requires
        last_entity_of(items, i, key),
    ensures
        load_states(states, items).contains_key(key),
        load_states(states, items)[key] == items[i]->Entity_0,
    decreases items.len(),
{
    let n = items.len() - 1;
    if i < n {
        let init = items.drop_last();
        assert forall|j: int| i < j < init.len() implies !(#[trigger] init[j] matches ResultItem::Entity(
            f,
        ) && f.entity_id@ == key) by {
            assert(init[j] == items[j]);
        }
        lemma_load_last_wins(states, init, i, key);
        assert(!(items[n] matches ResultItem::Entity(f) && f.entity_id@ == key));
    }
}

/// The answer to the outstanding request for all states fills the cache: a
/// later query for an entity in it answers the last state of that entity in
/// the answer. The request is answered once: the same answer again changes
/// nothing.
pub proof fn law_fetch_fills_cache(s: HassView, res: WSResult, i: int, entity_id: String)
    requires
        s.pending_fetch == Some(res.id),
        res.result matches Some(ResultValue::Array(items)) && last_entity_of(
            items@,
            i,
            entity_id@,
        ),
    ensures
        ({
            let after = hass_step(s, HassCommand::Response(Response::Result(res))).0;
            &&& after.pending_fetch is None
            &&& hass_step(after, HassCommand::GetState { entity_id }).1 == seq![
                HassActionView::ReplyState(
                    Some(res.result->0->Array_0@[i]->Entity_0),
                ),
            ]
            &&& hass_step(after, HassCommand::Response(Response::Result(res))) == (
                after,
                Seq::<HassActionView>::empty(),
            )
        }),
{
    let items = res.result->0->Array_0@;
    lemma_load_last_wins(s.states, items, i, entity_id@);
}

/// Authentication success subscribes to state changes and asks for all
/// states; the cache then waits for the answer to exactly that request.
pub proof fn law_auth_ok_requests_states(s: HassView, r: Response)
    requires
        r is AuthOk,
        s.last_id + 2 <= u64::MAX,
        s.connected,
    ensures
        ({
            let (t, acts) = hass_step(s, HassCommand::Response(r));
            &&& t.pending_fetch == Some(t.last_id)
            &&& acts.len() == 2
            &&& acts[1] == HassActionView::Send(get_states_command(t.last_id))
            &&& acts[0] matches HassActionView::Send(CommandView::SubscribeEvents { .. })
        }),
{
}

/// Whether a request is an authentication success of the server.
pub open spec fn is_auth_ok(c: HassCommand) -> bool {
    c matches HassCommand::Response(Response::AuthOk(_))
}

/// Whether a request is an answer of the server to command id `k`.
pub open spec fn answers(c: HassCommand, k: u64) -> bool {
    c matches HassCommand::Response(Response::Result(r)) && r.id == k
}

/// The position of the last authentication success in a run of requests.
pub open spec fn last_auth_ok(cmds: Seq<HassCommand>) -> Option<int>
    decreases cmds.len(),
{
    if cmds.len() == 0 {
        None
    } else if is_auth_ok(cmds.last()) {
        Some(cmds.len() - 1)
    } else {
        last_auth_ok(cmds.drop_last())
    }
}

/// The id under which the request for all states at position `i` of a run
/// was issued: the last id handed out once that request was handled.
pub open spec fn fetch_id_at(s: HassView, cmds: Seq<HassCommand>, i: int) -> u64 {
    run(s, cmds.take(i + 1)).0.last_id
}

/// The request for all states that a run leaves outstanding: the one issued
/// at the last authentication success, unless an answer to its id came after
/// it; none if there was no authentication success.
pub open spec fn outstanding_fetch(s: HassView, cmds: Seq<HassCommand>) -> Option<u64> {
    match last_auth_ok(cmds) {
        None => None,
        Some(i) => {
            let k = fetch_id_at(s, cmds, i);
            if forall|j: int| i < j < cmds.len() ==> !answers(#[trigger] cmds[j], k) {
                Some(k)
            } else {
                None
            }
        },
    }
}

/// The position found by `last_auth_ok` is an authentication success, and
/// none comes after it.
pub proof fn lemma_last_auth_ok(cmds: Seq<HassCommand>)
    ensures
        last_auth_ok(cmds) matches Some(i) ==> 0 <= i < cmds.len() && is_auth_ok(cmds[i])
            && forall|j: int| i < j < cmds.len() ==> !is_auth_ok(#[trigger] cmds[j]),
        last_auth_ok(cmds) is None ==> forall|j: int|
            0 <= j < cmds.len() ==> !is_auth_ok(#[trigger] cmds[j]),
    decreases cmds.len(),
{
    if cmds.len() > 0 {
        let init = cmds.drop_last();
        lemma_last_auth_ok(init);
        if !is_auth_ok(cmds.last()) {
            assert forall|j: int| 0 <= j < init.len() implies cmds[j] == init[j] by {}
        }
    }
}

/// The outstanding request for all states: starting with none outstanding,
/// after any run of requests the one outstanding is exactly the one issued at
/// the last authentication success, if no answer to its id came since; its id
/// was handed out during the run.
pub proof fn law_pending_fetch(s: HassView, cmds: Seq<HassCommand>)
    requires
        s.pending_fetch is None,
        s.last_id + ids_needed_all(cmds) <= u64::MAX,
    ensures
        run(s, cmds).0.pending_fetch == outstanding_fetch(s, cmds),
        run(s, cmds).0.pending_fetch matches Some(k) ==> s.last_id < k <= run(s, cmds).0.last_id,
    decreases cmds.len(),
{
    if cmds.len() > 0 {
        let n = cmds.len() as int;
        let init = cmds.drop_last();
        let c = cmds.last();
        law_pending_fetch(s, init);
        law_run_ids_unique(s, init);
        let mid = run(s, init).0;
        law_step_ids_fresh(mid, c);
        let end = hass_step(mid, c).0;
        assert(run(s, cmds).0 == end);
        if is_auth_ok(c) {
            assert(cmds.take(n) =~= cmds);
            assert(last_auth_ok(cmds) == Some(n - 1));
            assert(end.pending_fetch == Some(end.last_id));
        } else {
            assert(last_auth_ok(cmds) == last_auth_ok(init));
            match last_auth_ok(init) {
                None => {},
                Some(i) => {
                    lemma_last_auth_ok(init);
                    assert(cmds.take(i + 1) =~= init.take(i + 1));
                    let k = fetch_id_at(s, init, i);
                    assert(fetch_id_at(s, cmds, i) == k);
                    assert(forall|j: int| i < j < init.len() ==> cmds[j] == init[j]);
                    assert(cmds[n - 1] == c);
                    if forall|j: int| i < j < init.len() ==> !answers(#[trigger] init[j], k) {
                        if answers(c, k) {
                            assert(!(forall|j: int| i < j < cmds.len() ==> !answers(#[trigger] cmds[j], k)));
                        } else {
                            assert(forall|j: int| i < j < cmds.len() ==> !answers(#[trigger] cmds[j], k));
                        }
                    } else {
                        let j0 = choose|j: int| i < j < init.len() && answers(#[trigger] init[j], k);
                        assert(answers(cmds[j0], k));
                    }
                },
            }
        }
    }
}

/// A request for all states is sent only on an authentication success, under
/// the id it leaves outstanding; so the outstanding request of
/// [`law_pending_fetch`] is also the last request for all states sent, when
/// the client was connected then.
pub proof fn law_state_requests_only_on_auth_ok(s: HassView, c: HassCommand)
    requires
        s.last_id + ids_needed(c) <= u64::MAX,
    ensures
        forall|i: int|
            0 <= i < hass_step(s, c).1.len() ==> ((#[trigger] hass_step(s, c).1[i]) matches HassActionView::Send(
                CommandView::GetStates { id, .. },
            ) ==> is_auth_ok(c) && hass_step(s, c).0.pending_fetch == Some(id)
                && id == hass_step(s, c).0.last_id),
{
    let acts = hass_step(s, c).1;
    match c {
        HassCommand::Response(Response::Result(res)) => {
            if s.pending_fetch == Some(res.id) {
                match res.result {
                    Some(ResultValue::Array(items)) => {
                        lemma_reports_only(items@);
                    },
                    _ => {},
                }
            }
        },
        _ => {},
    }
}

} // verus!
