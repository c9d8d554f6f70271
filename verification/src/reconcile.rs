//! Reconciliation of the authoritative records with what a source offers.
//!
//! A successful fetch refreshes the live metrics of the records it knows
//! and nothing else; a failed fetch lets every record drift by one bounded
//! step. Neither adds, removes or reorders a record.

use vstd::prelude::*;
use crate::drift::{NodeDrift, ServiceDrift};
use crate::mock_data::{
    node_names, node_views, service_names, service_views, NodeMetrics, NodeMetricsView,
    ServiceMetrics, ServiceMetricsView,
};
use crate::roster::{find_by_name, lemma_unique_position, names_of};

verus! {

/// The records after a successful fetch: a record that is among the
/// candidates takes the live metrics of the first candidate of its name;
/// a record that is not stays as it is; candidates that match no record
/// are ignored.
pub open spec fn merged_nodes(
    current: Seq<NodeMetricsView>,
    fresh: Seq<NodeMetricsView>,
) -> Seq<NodeMetricsView> {
    Seq::new(
        current.len(),
        |i: int|
            match node_names(fresh).index_of_first(current[i].name) {
                Some(j) => current[i].with_live_metrics(fresh[j]),
                None => current[i],
            },
    )
}

/// The records after a successful fetch: a record that is among the
/// candidates takes the live metrics of the first candidate of its name;
/// a record that is not stays as it is; candidates that match no record
/// are ignored.
pub open spec fn merged_services(
    current: Seq<ServiceMetricsView>,
    fresh: Seq<ServiceMetricsView>,
) -> Seq<ServiceMetricsView> {
    Seq::new(
        current.len(),
        |i: int|
            match service_names(fresh).index_of_first(current[i].name) {
                Some(j) => current[i].with_live_metrics(fresh[j]),
                None => current[i],
            },
    )
}

/// Refreshes the live metrics of `current` from the candidates `fresh`.
pub fn merge_nodes(current: &mut Vec<NodeMetrics>, fresh: &Vec<NodeMetrics>)
    ensures
        node_views(final(current)@) == merged_nodes(node_views(old(current)@), node_views(fresh@)),
{
    proof {
        assert(node_names(node_views(fresh@)) =~= names_of(fresh@));
    }
    let mut i: usize = 0;
    while i < current.len()
        invariant
            i <= current.len(),
            current@.len() == old(current)@.len(),
            node_names(node_views(fresh@)) == names_of(fresh@),
            forall|k: int|
                0 <= k < i ==> (#[trigger] current@[k])@ == merged_nodes(
                    node_views(old(current)@),
                    node_views(fresh@),
                )[k],
            forall|k: int| i <= k < current@.len() ==> #[trigger] current@[k] == old(current)@[k],
        decreases current.len() - i,
    {
        let found = find_by_name(fresh, &current[i].name);
        if let Some(j) = found {
            current[i].take_live_metrics(&fresh[j]);
        }
        i += 1;
    }
    proof {
        assert(node_views(current@) =~= merged_nodes(
            node_views(old(current)@),
            node_views(fresh@),
        ));
    }
}

/// Refreshes the live metrics of `current` from the candidates `fresh`.
pub fn merge_services(current: &mut Vec<ServiceMetrics>, fresh: &Vec<ServiceMetrics>)
    ensures
        service_views(final(current)@) == merged_services(
            service_views(old(current)@),
            service_views(fresh@),
        ),
{
    proof {
        assert(service_names(service_views(fresh@)) =~= names_of(fresh@));
    }
    let mut i: usize = 0;
    while i < current.len()
        invariant
            i <= current.len(),
            current@.len() == old(current)@.len(),
            service_names(service_views(fresh@)) == names_of(fresh@),
            forall|k: int|
                0 <= k < i ==> (#[trigger] current@[k])@ == merged_services(
                    service_views(old(current)@),
                    service_views(fresh@),
                )[k],
            forall|k: int| i <= k < current@.len() ==> #[trigger] current@[k] == old(current)@[k],
        decreases current.len() - i,
    {
        let found = find_by_name(fresh, &current[i].name);
        if let Some(j) = found {
            current[i].take_live_metrics(&fresh[j]);
        }
        i += 1;
    }
    proof {
        assert(service_views(current@) =~= merged_services(
            service_views(old(current)@),
            service_views(fresh@),
        ));
    }
}

/// The records after one drift step each, record `i` by the offsets
/// `by[i]`.
pub open spec fn drifted_nodes(before: Seq<NodeMetricsView>, by: Seq<NodeDrift>) -> Seq<
    NodeMetricsView,
> {
    Seq::new(before.len(), |i: int| before[i].drifted(by[i]))
}

/// The records after one drift step each, record `i` by the offsets
/// `by[i]`.
pub open spec fn drifted_services(before: Seq<ServiceMetricsView>, by: Seq<ServiceDrift>) -> Seq<
    ServiceMetricsView,
> {
    Seq::new(before.len(), |i: int| before[i].drifted(by[i]))
}

/// Every offset of every record lies in its step interval.
pub open spec fn node_steps_in_range(by: Seq<NodeDrift>) -> bool {
    forall|i: int| 0 <= i < by.len() ==> (#[trigger] by[i]).in_range()
}

/// Every offset of every record lies in its step interval.
pub open spec fn service_steps_in_range(by: Seq<ServiceDrift>) -> bool {
    forall|i: int| 0 <= i < by.len() ==> (#[trigger] by[i]).in_range()
}

/// Lets every record drift by one step, with offsets drawn afresh for each
/// record, and returns the offsets that were drawn.
pub fn drift_nodes(nodes: &mut Vec<NodeMetrics>) -> (drawn: Vec<NodeDrift>)
    ensures
        drawn@.len() == old(nodes)@.len(),
        node_steps_in_range(drawn@),
        node_views(final(nodes)@) == drifted_nodes(node_views(old(nodes)@), drawn@),
{
    let mut drawn: Vec<NodeDrift> = Vec::new();
    let mut i: usize = 0;
    while i < nodes.len()
        invariant
            i <= nodes.len(),
            nodes@.len() == old(nodes)@.len(),
            drawn@.len() == i,
            node_steps_in_range(drawn@),
            forall|k: int|
                0 <= k < i ==> (#[trigger] nodes@[k])@ == old(nodes)@[k]@.drifted(drawn@[k]),
            forall|k: int| i <= k < nodes@.len() ==> #[trigger] nodes@[k] == old(nodes)@[k],
        decreases nodes.len() - i,
    {
        let by = NodeDrift::draw();
        nodes[i].apply_drift(&by);
        drawn.push(by);
        i += 1;
    }
    proof {
        assert(node_views(nodes@) =~= drifted_nodes(node_views(old(nodes)@), drawn@));
    }
    drawn
}

/// Lets every record drift by one step, with offsets drawn afresh for each
/// record, and returns the offsets that were drawn.
pub fn drift_services(services: &mut Vec<ServiceMetrics>) -> (drawn: Vec<ServiceDrift>)
    ensures
        drawn@.len() == old(services)@.len(),
        service_steps_in_range(drawn@),
        service_views(final(services)@) == drifted_services(
            service_views(old(services)@),
            drawn@,
        ),
{
    let mut drawn: Vec<ServiceDrift> = Vec::new();
    let mut i: usize = 0;
    while i < services.len()
        invariant
            i <= services.len(),
            services@.len() == old(services)@.len(),
            drawn@.len() == i,
            service_steps_in_range(drawn@),
            forall|k: int|
                0 <= k < i ==> (#[trigger] services@[k])@ == old(services)@[k]@.drifted(drawn@[k]),
            forall|k: int| i <= k < services@.len() ==> #[trigger] services@[k] == old(services)@[k],
        decreases services.len() - i,
    {
        let by = ServiceDrift::draw();
        services[i].apply_drift(&by);
        drawn.push(by);
        i += 1;
    }
    proof {
        assert(service_views(services@) =~= drifted_services(
            service_views(old(services)@),
            drawn@,
        ));
    }
    drawn
}

/// What one reconciliation did to the node records.
pub enum NodeEvent {
    /// A fetch succeeded and offered these candidates.
    Refreshed(Seq<NodeMetricsView>),
    /// The fetch fell into the throttle window: nothing was updated.
    Throttled,
    /// The fetch failed and the records drifted by these offsets.
    Drifted(Seq<NodeDrift>),
}

/// The node records after one reconciliation.
pub open spec fn reconciled_nodes(current: Seq<NodeMetricsView>, event: NodeEvent) -> Seq<
    NodeMetricsView,
> {
    match event {
        NodeEvent::Refreshed(fresh) => merged_nodes(current, fresh),
        NodeEvent::Throttled => current,
        NodeEvent::Drifted(by) => drifted_nodes(current, by),
    }
}

/// The node records after a run of reconciliations, the first event first.
pub open spec fn replayed_nodes(current: Seq<NodeMetricsView>, events: Seq<NodeEvent>) -> Seq<
    NodeMetricsView,
>
    decreases events.len(),
{
    if events.len() == 0 {
        current
    } else {
        reconciled_nodes(replayed_nodes(current, events.drop_last()), events.last())
    }
}

/// One reconciliation, whatever its outcome, keeps the number and order of
/// the records, and of each record the identity and the hardware descriptors.
pub proof fn lemma_reconciled_nodes_stable(current: Seq<NodeMetricsView>, event: NodeEvent)
    ensures
        node_names(reconciled_nodes(current, event)) == node_names(current),
        forall|i: int|
            0 <= i < current.len() ==> (#[trigger] reconciled_nodes(current, event)[i]).same_identity(
                current[i],
            ) && reconciled_nodes(current, event)[i].same_hardware(current[i]),
{
    assert(node_names(reconciled_nodes(current, event)) =~= node_names(current));
}

/// Identity stability: after any run of successful, throttled and failed
/// reconciliations the records are the same entities in the same order,
/// each with the identity and the hardware descriptors it had before the
/// run.
pub proof fn lemma_replayed_nodes_stable(current: Seq<NodeMetricsView>, events: Seq<NodeEvent>)
    ensures
        node_names(replayed_nodes(current, events)) == node_names(current),
        forall|i: int|
            0 <= i < current.len() ==> (#[trigger] replayed_nodes(current, events)[i]).same_identity(
                current[i],
            ) && replayed_nodes(current, events)[i].same_hardware(current[i]),
    decreases events.len(),
{
    if events.len() > 0 {
        let earlier = replayed_nodes(current, events.drop_last());
        lemma_replayed_nodes_stable(current, events.drop_last());
        lemma_reconciled_nodes_stable(earlier, events.last());
        assert(earlier.len() == node_names(earlier).len());
        assert(current.len() == node_names(current).len());
        assert forall|i: int| 0 <= i < current.len() implies (#[trigger] replayed_nodes(
            current,
            events,
        )[i]).same_identity(current[i]) && replayed_nodes(current, events)[i].same_hardware(
            current[i],
        ) by {
            assert(reconciled_nodes(earlier, events.last())[i].same_identity(earlier[i]));
            assert(earlier[i].same_identity(current[i]));
        }
    }
}

/// A successful fetch takes effect: a record whose name is among the
/// candidates, where names are distinct, shows exactly that candidate's
/// live metrics afterwards.
pub proof fn lemma_merged_nodes_take_candidate(
    current: Seq<NodeMetricsView>,
    fresh: Seq<NodeMetricsView>,
    i: int,
    j: int,
)
    requires
        0 <= i < current.len(),
        0 <= j < fresh.len(),
        node_names(fresh).no_duplicates(),
        fresh[j].name == current[i].name,
    ensures
        merged_nodes(current, fresh)[i] == current[i].with_live_metrics(fresh[j]),
{
    lemma_unique_position(node_names(fresh), j);
}

/// The order in which the backend lists its series does not matter: two
/// candidate lists that hold the same candidates, each under distinct
/// names, refresh the records alike.
pub proof fn lemma_merged_nodes_ignore_candidate_order(
    current: Seq<NodeMetricsView>,
    fresh: Seq<NodeMetricsView>,
    shuffled: Seq<NodeMetricsView>,
)
    requires
        node_names(fresh).no_duplicates(),
        node_names(shuffled).no_duplicates(),
        forall|candidate: NodeMetricsView| fresh.contains(candidate) <==> shuffled.contains(candidate),
    ensures
        merged_nodes(current, fresh) == merged_nodes(current, shuffled),
{
    assert forall|i: int| 0 <= i < current.len() implies merged_nodes(current, fresh)[i]
        == merged_nodes(current, shuffled)[i] by {
        let name = current[i].name;
        node_names(fresh).index_of_first_ensures(name);
        node_names(shuffled).index_of_first_ensures(name);
        match node_names(fresh).index_of_first(name) {
            Some(j) => {
                assert(fresh.contains(fresh[j]));
                let k = choose|k: int| 0 <= k < shuffled.len() && shuffled[k] == fresh[j];
                assert(node_names(shuffled)[k] == name);
                lemma_unique_position(node_names(shuffled), k);
            },
            None => {
                if node_names(shuffled).contains(name) {
                    let k = choose|k: int|
                        0 <= k < node_names(shuffled).len() && node_names(shuffled)[k] == name;
                    assert(shuffled.contains(shuffled[k]));
                    let j = choose|j: int| 0 <= j < fresh.len() && fresh[j] == shuffled[k];
                    assert(node_names(fresh)[j] == name);
                }
            },
        }
    }
    assert(merged_nodes(current, fresh) =~= merged_nodes(current, shuffled));
}

/// Drift boundedness: after a failed fetch every drifting metric of every
/// record lies in its clamp range.
pub proof fn lemma_drifted_nodes_bounded(current: Seq<NodeMetricsView>, by: Seq<NodeDrift>)
    ensures
        forall|i: int|
            0 <= i < current.len() ==> (#[trigger] drifted_nodes(current, by)[i]).within_drift_bounds(),
{
}

/// What one reconciliation did to the service records.
pub enum ServiceEvent {
    /// A fetch succeeded and offered these candidates.
    Refreshed(Seq<ServiceMetricsView>),
    /// The fetch fell into the throttle window: nothing was updated.
    Throttled,
    /// The fetch failed and the records drifted by these offsets.
    Drifted(Seq<ServiceDrift>),
}

/// The service records after one reconciliation.
pub open spec fn reconciled_services(current: Seq<ServiceMetricsView>, event: ServiceEvent) -> Seq<
    ServiceMetricsView,
> {
    match event {
        ServiceEvent::Refreshed(fresh) => merged_services(current, fresh),
        ServiceEvent::Throttled => current,
        ServiceEvent::Drifted(by) => drifted_services(current, by),
    }
}

/// The service records after a run of reconciliations, the first event first.
pub open spec fn replayed_services(current: Seq<ServiceMetricsView>, events: Seq<ServiceEvent>) -> Seq<
    ServiceMetricsView,
>
    decreases events.len(),
{
    if events.len() == 0 {
        current
    } else {
        reconciled_services(replayed_services(current, events.drop_last()), events.last())
    }
}

/// One reconciliation, whatever its outcome, keeps the number and order of
/// the records, and of each record the identity and the health-probe state.
pub proof fn lemma_reconciled_services_stable(current: Seq<ServiceMetricsView>, event: ServiceEvent)
    ensures
        service_names(reconciled_services(current, event)) == service_names(current),
        forall|i: int|
            0 <= i < current.len() ==> (#[trigger] reconciled_services(current, event)[i]).same_identity(
                current[i],
            ) && reconciled_services(current, event)[i].same_health(current[i]),
{
    assert(service_names(reconciled_services(current, event)) =~= service_names(current));
}

/// Identity stability: after any run of successful, throttled and failed
/// reconciliations the records are the same entities in the same order,
/// each with the identity and the health-probe state it had before the
/// run.
pub proof fn lemma_replayed_services_stable(current: Seq<ServiceMetricsView>, events: Seq<ServiceEvent>)
    ensures
        service_names(replayed_services(current, events)) == service_names(current),
        forall|i: int|
            0 <= i < current.len() ==> (#[trigger] replayed_services(current, events)[i]).same_identity(
                current[i],
            ) && replayed_services(current, events)[i].same_health(current[i]),
    decreases events.len(),
{
    if events.len() > 0 {
        let earlier = replayed_services(current, events.drop_last());
        lemma_replayed_services_stable(current, events.drop_last());
        lemma_reconciled_services_stable(earlier, events.last());
        assert(earlier.len() == service_names(earlier).len());
        assert(current.len() == service_names(current).len());
        assert forall|i: int| 0 <= i < current.len() implies (#[trigger] replayed_services(
            current,
            events,
        )[i]).same_identity(current[i]) && replayed_services(current, events)[i].same_health(
            current[i],
        ) by {
            assert(reconciled_services(earlier, events.last())[i].same_identity(earlier[i]));
            assert(earlier[i].same_identity(current[i]));
        }
    }
}

/// A successful fetch takes effect: a record whose name is among the
/// candidates, where names are distinct, shows exactly that candidate's
/// live metrics afterwards.
pub proof fn lemma_merged_services_take_candidate(
    current: Seq<ServiceMetricsView>,
    fresh: Seq<ServiceMetricsView>,
    i: int,
    j: int,
)
    requires
        0 <= i < current.len(),
        0 <= j < fresh.len(),
        service_names(fresh).no_duplicates(),
        fresh[j].name == current[i].name,
    ensures
        merged_services(current, fresh)[i] == current[i].with_live_metrics(fresh[j]),
{
    lemma_unique_position(service_names(fresh), j);
}

/// The order in which the backend lists its series does not matter: two
/// candidate lists that hold the same candidates, each under distinct
/// names, refresh the records alike.
pub proof fn lemma_merged_services_ignore_candidate_order(
    current: Seq<ServiceMetricsView>,
    fresh: Seq<ServiceMetricsView>,
    shuffled: Seq<ServiceMetricsView>,
)
    requires
        service_names(fresh).no_duplicates(),
        service_names(shuffled).no_duplicates(),
        forall|candidate: ServiceMetricsView| fresh.contains(candidate) <==> shuffled.contains(candidate),
    ensures
        merged_services(current, fresh) == merged_services(current, shuffled),
{
    assert forall|i: int| 0 <= i < current.len() implies merged_services(current, fresh)[i]
        == merged_services(current, shuffled)[i] by {
        let name = current[i].name;
        service_names(fresh).index_of_first_ensures(name);
        service_names(shuffled).index_of_first_ensures(name);
        match service_names(fresh).index_of_first(name) {
            Some(j) => {
                assert(fresh.contains(fresh[j]));
                let k = choose|k: int| 0 <= k < shuffled.len() && shuffled[k] == fresh[j];
                assert(service_names(shuffled)[k] == name);
                lemma_unique_position(service_names(shuffled), k);
            },
            None => {
                if service_names(shuffled).contains(name) {
                    let k = choose|k: int|
                        0 <= k < service_names(shuffled).len() && service_names(shuffled)[k] == name;
                    assert(shuffled.contains(shuffled[k]));
                    let j = choose|j: int| 0 <= j < fresh.len() && fresh[j] == shuffled[k];
                    assert(service_names(fresh)[j] == name);
                }
            },
        }
    }
    assert(merged_services(current, fresh) =~= merged_services(current, shuffled));
}

/// Drift boundedness: after a failed fetch every drifting metric of every
/// record lies in its clamp range.
pub proof fn lemma_drifted_services_bounded(current: Seq<ServiceMetricsView>, by: Seq<ServiceDrift>)
    ensures
        forall|i: int|
            0 <= i < current.len() ==> (#[trigger] drifted_services(current, by)[i]).within_drift_bounds(),
{
}

} // verus!
