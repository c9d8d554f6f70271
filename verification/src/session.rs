//! What holds over a whole session of the dashboard: any run of ticks,
//! reconciliations and commands, in any order and of any length.

use vstd::prelude::*;
use crate::app::{lemma_command_keeps_model, App, Command};
use crate::drift::{NodeDrift, ServiceDrift};
use crate::history::{history_views, lemma_sampled_bounded, series_names};
use crate::mock_data::{node_names, node_views, service_names, service_views};
use crate::prometheus_client::QueryResults;
use crate::reconcile::{
    drifted_nodes, drifted_services, lemma_reconciled_nodes_stable,
    lemma_reconciled_services_stable, NodeEvent, ServiceEvent,
};
use crate::roster::names_of;

verus! {

/// What can happen to the dashboard.
pub enum Event {
    /// The timer ticked.
    Tick,
    /// A fetch made at the given time came back with the given outcome.
    Fetch(u64, Result<QueryResults, String>),
    /// The user gave a command.
    Key(Command),
}

/// `after` is what `event` makes of `before`.
pub open spec fn follows(after: App, before: App, event: Event) -> bool {
    match event {
        Event::Tick => after.ticked_from(before),
        Event::Fetch(now_ms, fetched) => after.reconciled_from(before, now_ms, fetched),
        Event::Key(command) => after.commanded(before, command),
    }
}

/// `states` is a session: each state follows from the one before it by
/// the event between them.
pub open spec fn is_session(states: Seq<App>, events: Seq<Event>) -> bool {
    &&& states.len() == events.len() + 1
    &&& forall|i: int|
        0 <= i < events.len() ==> #[trigger] follows(states[i + 1], states[i], events[i])
}

/// Both states show the same entities: the same nodes and services under
/// the same names in the same order, each node with the address and the
/// hardware descriptors, each service with the namespace and the
/// health-probe state it has in the other.
pub open spec fn same_entities(after: App, before: App) -> bool {
    &&& names_of(after.nodes@) == names_of(before.nodes@)
    &&& names_of(after.services@) == names_of(before.services@)
    &&& forall|i: int|
        0 <= i < before.nodes@.len() ==> (#[trigger] after.nodes@[i])@.same_identity(
            before.nodes@[i]@,
        ) && after.nodes@[i]@.same_hardware(before.nodes@[i]@)
    &&& forall|i: int|
        0 <= i < before.services@.len() ==> (#[trigger] after.services@[i])@.same_identity(
            before.services@[i]@,
        ) && after.services@[i]@.same_health(before.services@[i]@)
}

/// One event, whatever it is, leaves the entities as they are and a
/// well-formed state well formed.
pub proof fn lemma_event_keeps_entities(before: App, after: App, event: Event)
    requires
        follows(after, before, event),
    ensures
        same_entities(after, before),
        before.wf() ==> after.wf(),
{
    match event {
        Event::Tick => {
            lemma_tick_keeps_wf(before, after);
        },
        Event::Fetch(now_ms, fetched) => {
            lemma_fetch_keeps_entities(before, after, now_ms, fetched);
        },
        Event::Key(command) => {
            lemma_command_keeps_model(before, after, command);
        },
    }
}

proof fn lemma_tick_keeps_wf(before: App, after: App)
    requires
        after.ticked_from(before),
    ensures
        before.wf() ==> after.wf(),
{
    let retention: nat = before.config.general.history_retention as nat;
    assert(series_names(history_views(before.node_history@)) =~= names_of(before.node_history@));
    assert(series_names(history_views(before.service_history@)) =~= names_of(
        before.service_history@,
    ));
    assert(series_names(history_views(after.node_history@)) =~= names_of(after.node_history@));
    assert(series_names(history_views(after.service_history@)) =~= names_of(
        after.service_history@,
    ));
    lemma_sampled_bounded(history_views(before.node_history@), before.nodes@, retention);
    lemma_sampled_bounded(history_views(before.service_history@), before.services@, retention);
}

proof fn lemma_fetch_keeps_entities(
    before: App,
    after: App,
    now_ms: u64,
    fetched: Result<QueryResults, String>,
)
    requires
        after.reconciled_from(before, now_ms, fetched),
    ensures
        same_entities(after, before),
        before.wf() ==> after.wf(),
{
    let nodes = node_views(before.nodes@);
    let services = service_views(before.services@);
    assert(names_of(before.nodes@) =~= node_names(nodes));
    assert(names_of(before.services@) =~= service_names(services));
    assert(names_of(after.nodes@) =~= node_names(node_views(after.nodes@)));
    assert(names_of(after.services@) =~= service_names(service_views(after.services@)));
    let refreshed = fetched matches Ok(results) && results.has_answer();
    if refreshed {
        lemma_reconciled_nodes_stable(nodes, NodeEvent::Refreshed(after.prometheus_client.nodes()));
        lemma_reconciled_services_stable(
            services,
            ServiceEvent::Refreshed(after.prometheus_client.services()),
        );
    } else {
        let node_steps = choose|by: Seq<NodeDrift>|
            node_views(after.nodes@) == #[trigger] drifted_nodes(nodes, by);
        let service_steps = choose|by: Seq<ServiceDrift>|
            service_views(after.services@) == #[trigger] drifted_services(services, by);
        lemma_reconciled_nodes_stable(nodes, NodeEvent::Drifted(node_steps));
        lemma_reconciled_services_stable(services, ServiceEvent::Drifted(service_steps));
    }
    assert forall|i: int| 0 <= i < before.nodes@.len() implies (#[trigger] after.nodes@[i])@
        .same_identity(before.nodes@[i]@) && after.nodes@[i]@.same_hardware(
        before.nodes@[i]@,
    ) by {
        assert(node_views(after.nodes@)[i] == after.nodes@[i]@);
        assert(nodes[i] == before.nodes@[i]@);
    }
    assert forall|i: int|
        0 <= i < before.services@.len() implies (#[trigger] after.services@[i])@.same_identity(
        before.services@[i]@,
    ) && after.services@[i]@.same_health(before.services@[i]@) by {
        assert(service_views(after.services@)[i] == after.services@[i]@);
        assert(services[i] == before.services@[i]@);
    }
}

/// Identity stability, hardware immutability and the history bound over a
/// whole session: after any run of ticks, successful, throttled and failed
/// fetches, and commands, every state shows the entities of the first
/// state, in their order and with their static descriptors; and if the
/// first state was well formed, so is every later one, which means that no
/// history series ever holds more samples than the retention count.
pub proof fn lemma_session_keeps_entities(states: Seq<App>, events: Seq<Event>, k: int)
    requires
        is_session(states, events),
        0 <= k < states.len(),
    ensures
        same_entities(states[k], states[0]),
        states[0].wf() ==> states[k].wf(),
    decreases k,
{
    if k > 0 {
        lemma_session_keeps_entities(states, events, k - 1);
        assert(follows(states[k - 1 + 1], states[k - 1], events[k - 1]));
        lemma_event_keeps_entities(states[k - 1], states[k], events[k - 1]);
        assert(states[k].nodes@.len() == names_of(states[k].nodes@).len());
        assert(states[k - 1].nodes@.len() == names_of(states[k - 1].nodes@).len());
        assert(states[0].nodes@.len() == names_of(states[0].nodes@).len());
        assert(states[k].services@.len() == names_of(states[k].services@).len());
        assert(states[k - 1].services@.len() == names_of(states[k - 1].services@).len());
        assert(states[0].services@.len() == names_of(states[0].services@).len());
    }
}

} // verus!
