//! The metrics source adapter: turns the answers of the metrics backend
//! into candidate node and service records.
//!
//! The transport is not part of this module. Whoever runs the queries hands
//! their answers over as [`QueryResults`]. A query that failed is simply
//! absent, and the metrics it would have resolved keep their baseline; a
//! fetch in which no query was answered at all is a failed fetch, which
//! leaves the adapter as it was.

use vstd::prelude::*;
use crate::mock_data::{
    node_names, node_views, service_names, service_views, HealthStatus, NodeMetrics,
    NodeMetricsView, ServiceMetrics, ServiceMetricsView,
};
use crate::roster::{find_by_name, names_of, unique_names, Named};
use crate::text::{contains, is_substring};

verus! {

/// Where the backend is and how often it may be asked.
#[derive(Debug, Clone, PartialEq, Eq)]
pub struct PrometheusConfig {
    pub url: String,
    pub timeout_secs: u64,
    pub query_interval_secs: u64,
}

impl Default for PrometheusConfig {
    fn default() -> (config: PrometheusConfig)
        ensures
            config.url@ == "http://100.81.76.55:30090"@,
            config.timeout_secs == 10,
            config.query_interval_secs == 5,
    {
        PrometheusConfig {
            url: "http://100.81.76.55:30090".to_string(),
            timeout_secs: 10,
            query_interval_secs: 5,
        }
    }
}

/// One label of a series.
#[derive(Debug, Clone, PartialEq, Eq)]
pub struct Label {
    pub name: String,
    pub value: String,
}

impl Named for Label {
    open spec fn name_view(&self) -> Seq<char> {
        self.name@
    }

    fn name(&self) -> (n: &String) {
        &self.name
    }
}

/// One series of an answer: its label set and its sample.
///
/// `value` holds the elements of the backend's `[timestamp, value]` pair in
/// thousandths; an element that is not a number is `None`.
#[derive(Debug, Clone, PartialEq, Eq)]
pub struct PrometheusMetric {
    pub metric: Vec<Label>,
    pub value: Vec<Option<i64>>,
}

/// The payload of an answer.
#[derive(Debug, Clone, PartialEq, Eq)]
pub struct PrometheusData {
    pub result_type: String,
    pub result: Vec<PrometheusMetric>,
}

/// One answer of the backend to one query.
#[derive(Debug, Clone, PartialEq, Eq)]
pub struct PrometheusResponse {
    pub status: String,
    pub data: PrometheusData,
}

impl PrometheusMetric {
    /// The sample of the series: the second element of the pair, or zero
    /// where the pair is short or the element is not a number.
    pub open spec fn sample(&self) -> i64 {
        if self.value@.len() >= 2 {
            match self.value@[1] {
                Some(v) => v,
                None => 0,
            }
        } else {
            0
        }
    }

    /// The value of the first label called `key`.
    pub open spec fn label_value(&self, key: Seq<char>) -> Option<Seq<char>> {
        match names_of(self.metric@).index_of_first(key) {
            Some(i) => Some(self.metric@[i].value@),
            None => None,
        }
    }

    /// The sample of the series, in thousandths.
    pub fn value(&self) -> (v: i64)
        ensures
            v == self.sample(),
    {
        if self.value.len() >= 2 {
            match self.value[1] {
                Some(v) => v,
                None => 0,
            }
        } else {
            0
        }
    }

    /// The value of the label called `key`, if the series carries one.
    pub fn label(&self, key: &String) -> (found: Option<&String>)
        ensures
            match found {
                Some(text) => self.label_value(key@) == Some(text@),
                None => self.label_value(key@) is None,
            },
    {
        match find_by_name(&self.metric, key) {
            Some(i) => Some(&self.metric[i].value),
            None => None,
        }
    }
}

/// The node that a series with this `instance` label reports on.
///
/// The match is by substring, first rule first: the address or the name of
/// the compute node, then the name of the service node.
pub open spec fn node_for_instance(instance: Seq<char>) -> Option<Seq<char>> {
    if is_substring("100.72.98.106"@, instance) || is_substring("pesubuntu"@, instance) {
        Some("pesubuntu"@)
    } else if is_substring("asuna"@, instance) {
        Some("asuna"@)
    } else {
        None
    }
}

/// The service that a series with this `name` label reports on.
///
/// The match is by substring, first rule first.
pub open spec fn service_for_name(name: Seq<char>) -> Option<Seq<char>> {
    if is_substring("n8n"@, name) {
        Some("n8n-0"@)
    } else if is_substring("postgres"@, name) {
        Some("postgres-0"@)
    } else if is_substring("redis"@, name) {
        Some("redis-0"@)
    } else if is_substring("prometheus"@, name) {
        Some("prometheus-0"@)
    } else if is_substring("grafana"@, name) {
        Some("grafana-0"@)
    } else if is_substring("qdrant"@, name) {
        Some("qdrant-0"@)
    } else if is_substring("flowise"@, name) {
        Some("flowise-0"@)
    } else {
        None
    }
}

/// Maps an `instance` label to the node it reports on; `None` for a series
/// of no known node.
pub fn match_node(instance: &str) -> (node: Option<&'static str>)
    ensures
        match node {
            Some(name) => node_for_instance(instance@) == Some(name@),
            None => node_for_instance(instance@) is None,
        },
{
    if contains(instance, "100.72.98.106") || contains(instance, "pesubuntu") {
        Some("pesubuntu")
    } else if contains(instance, "asuna") {
        Some("asuna")
    } else {
        None
    }
}

/// Maps a `name` label to the service it reports on; `None` for a series of
/// no known service.
pub fn match_service(name: &str) -> (service: Option<&'static str>)
    ensures
        match service {
            Some(id) => service_for_name(name@) == Some(id@),
            None => service_for_name(name@) is None,
        },
{
    if contains(name, "n8n") {
        Some("n8n-0")
    } else if contains(name, "postgres") {
        Some("postgres-0")
    } else if contains(name, "redis") {
        Some("redis-0")
    } else if contains(name, "prometheus") {
        Some("prometheus-0")
    } else if contains(name, "grafana") {
        Some("grafana-0")
    } else if contains(name, "qdrant") {
        Some("qdrant-0")
    } else if contains(name, "flowise") {
        Some("flowise-0")
    } else {
        None
    }
}

/// The metric of a node that a query resolves.
#[derive(Debug, Clone, Copy, PartialEq, Eq, Structural)]
pub enum NodeGauge {
    Cpu,
    Memory,
}

impl NodeMetricsView {
    /// This record with one gauge set to `value`.
    pub open spec fn with_gauge(self, gauge: NodeGauge, value: int) -> NodeMetricsView {
        match gauge {
            NodeGauge::Cpu => NodeMetricsView { cpu_usage: value, ..self },
            NodeGauge::Memory => NodeMetricsView { memory_usage: value, ..self },
        }
    }
}

fn set_gauge(nodes: &mut Vec<NodeMetrics>, i: usize, gauge: NodeGauge, value: i64)
    requires
        i < old(nodes).len(),
    ensures
        node_views(final(nodes)@) == node_views(old(nodes)@).update(
            i as int,
            old(nodes)@[i as int]@.with_gauge(gauge, value as int),
        ),
{
    match gauge {
        NodeGauge::Cpu => {
            nodes[i].cpu_usage = value;
        },
        NodeGauge::Memory => {
            nodes[i].memory_usage = value;
        },
    }
    proof {
        assert(node_views(nodes@) =~= node_views(old(nodes)@).update(
            i as int,
            old(nodes)@[i as int]@.with_gauge(gauge, value as int),
        ));
    }
}

/// Applies one series to the candidates: the node it reports on, if it is
/// among them, takes the sample as its gauge; any other series is dropped.
pub open spec fn nodes_with_sample(
    nodes: Seq<NodeMetricsView>,
    metric: PrometheusMetric,
    gauge: NodeGauge,
) -> Seq<NodeMetricsView> {
    match metric.label_value("instance"@) {
        Some(instance) => match node_for_instance(instance) {
            Some(name) => match node_names(nodes).index_of_first(name) {
                Some(i) => nodes.update(i, nodes[i].with_gauge(gauge, metric.sample() as int)),
                None => nodes,
            },
            None => nodes,
        },
        None => nodes,
    }
}

/// Applies the series of an answer to the candidates, one after the other;
/// of two series on the same node the later one prevails.
pub open spec fn nodes_with_samples(
    nodes: Seq<NodeMetricsView>,
    metrics: Seq<PrometheusMetric>,
    gauge: NodeGauge,
) -> Seq<NodeMetricsView>
    decreases metrics.len(),
{
    if metrics.len() == 0 {
        nodes
    } else {
        nodes_with_sample(
            nodes_with_samples(nodes, metrics.drop_last(), gauge),
            metrics.last(),
            gauge,
        )
    }
}

/// Applying series changes gauges only: the candidates keep their number,
/// their order and their names.
pub proof fn lemma_samples_keep_node_names(
    nodes: Seq<NodeMetricsView>,
    metrics: Seq<PrometheusMetric>,
    gauge: NodeGauge,
)
    ensures
        node_names(nodes_with_samples(nodes, metrics, gauge)) == node_names(nodes),
    decreases metrics.len(),
{
    if metrics.len() > 0 {
        let earlier = nodes_with_samples(nodes, metrics.drop_last(), gauge);
        lemma_samples_keep_node_names(nodes, metrics.drop_last(), gauge);
        node_names(earlier).index_of_first_ensures(
            node_for_instance(metrics.last().label_value("instance"@).unwrap()).unwrap(),
        );
        assert(node_names(nodes_with_sample(earlier, metrics.last(), gauge)) =~= node_names(
            earlier,
        ));
    }
}

fn apply_node_sample(nodes: &mut Vec<NodeMetrics>, metric: &PrometheusMetric, gauge: NodeGauge)
    ensures
        node_views(final(nodes)@) == nodes_with_sample(node_views(old(nodes)@), *metric, gauge),
{
    proof {
        assert(node_names(node_views(nodes@)) =~= names_of(nodes@));
    }
    let key = "instance".to_string();
    if let Some(instance) = metric.label(&key) {
        if let Some(name) = match_node(instance.as_str()) {
            let name = name.to_string();
            if let Some(i) = find_by_name(nodes, &name) {
                set_gauge(nodes, i, gauge, metric.value());
            }
        }
    }
}

fn update_node_gauge(nodes: &mut Vec<NodeMetrics>, result: &PrometheusResponse, gauge: NodeGauge)
    ensures
        node_views(final(nodes)@) == nodes_with_samples(
            node_views(old(nodes)@),
            result.data.result@,
            gauge,
        ),
{
    let metrics = &result.data.result;
    let mut k: usize = 0;
    while k < metrics.len()
        invariant
            k <= metrics.len(),
            metrics == &result.data.result,
            node_views(nodes@) == nodes_with_samples(
                node_views(old(nodes)@),
                metrics@.take(k as int),
                gauge,
            ),
        decreases metrics.len() - k,
    {
        apply_node_sample(nodes, &metrics[k], gauge);
        proof {
            assert(metrics@.take(k + 1).drop_last() =~= metrics@.take(k as int));
        }
        k += 1;
    }
    proof {
        assert(metrics@.take(k as int) =~= metrics@);
    }
}

/// Resolves the CPU load of the candidates from an answer.
///
/// A series is attributed to a node by its `instance` label; a series of no
/// known node, or without that label, is dropped.
pub fn update_node_cpu(nodes: &mut Vec<NodeMetrics>, result: &PrometheusResponse)
    ensures
        node_views(final(nodes)@) == nodes_with_samples(
            node_views(old(nodes)@),
            result.data.result@,
            NodeGauge::Cpu,
        ),
{
    update_node_gauge(nodes, result, NodeGauge::Cpu);
}

/// Resolves the memory use of the candidates from an answer.
///
/// A series is attributed to a node by its `instance` label; a series of no
/// known node, or without that label, is dropped.
pub fn update_node_memory(nodes: &mut Vec<NodeMetrics>, result: &PrometheusResponse)
    ensures
        node_views(final(nodes)@) == nodes_with_samples(
            node_views(old(nodes)@),
            result.data.result@,
            NodeGauge::Memory,
        ),
{
    update_node_gauge(nodes, result, NodeGauge::Memory);
}

/// Applies one series to the candidates: the service it reports on, if it
/// is among them, takes the sample as its CPU load.
pub open spec fn services_with_cpu_sample(
    services: Seq<ServiceMetricsView>,
    metric: PrometheusMetric,
) -> Seq<ServiceMetricsView> {
    match metric.label_value("name"@) {
        Some(label) => match service_for_name(label) {
            Some(name) => match service_names(services).index_of_first(name) {
                Some(i) => services.update(
                    i,
                    ServiceMetricsView { cpu_usage: metric.sample() as int, ..services[i] },
                ),
                None => services,
            },
            None => services,
        },
        None => services,
    }
}

/// Applies the series of an answer to the candidates, one after the other;
/// of two series on the same service the later one prevails.
pub open spec fn services_with_cpu_samples(
    services: Seq<ServiceMetricsView>,
    metrics: Seq<PrometheusMetric>,
) -> Seq<ServiceMetricsView>
    decreases metrics.len(),
{
    if metrics.len() == 0 {
        services
    } else {
        services_with_cpu_sample(
            services_with_cpu_samples(services, metrics.drop_last()),
            metrics.last(),
        )
    }
}

fn apply_service_cpu_sample(services: &mut Vec<ServiceMetrics>, metric: &PrometheusMetric)
    ensures
        service_views(final(services)@) == services_with_cpu_sample(
            service_views(old(services)@),
            *metric,
        ),
{
    proof {
        assert(service_names(service_views(services@)) =~= names_of(services@));
    }
    let key = "name".to_string();
    if let Some(label) = metric.label(&key) {
        if let Some(name) = match_service(label.as_str()) {
            let name = name.to_string();
            if let Some(i) = find_by_name(services, &name) {
                services[i].cpu_usage = metric.value();
                proof {
                    assert(service_views(services@) =~= services_with_cpu_sample(
                        service_views(old(services)@),
                        *metric,
                    ));
                }
            }
        }
    }
}

/// Resolves the CPU load of the candidates from an answer.
///
/// A series is attributed to a service by its `name` label; a series of no
/// known service, or without that label, is dropped.
pub fn update_service_cpu(services: &mut Vec<ServiceMetrics>, result: &PrometheusResponse)
    ensures
        service_views(final(services)@) == services_with_cpu_samples(
            service_views(old(services)@),
            result.data.result@,
        ),
{
    let metrics = &result.data.result;
    let mut k: usize = 0;
    while k < metrics.len()
        invariant
            k <= metrics.len(),
            metrics == &result.data.result,
            service_views(services@) == services_with_cpu_samples(
                service_views(old(services)@),
                metrics@.take(k as int),
            ),
        decreases metrics.len() - k,
    {
        apply_service_cpu_sample(services, &metrics[k]);
        proof {
            assert(metrics@.take(k + 1).drop_last() =~= metrics@.take(k as int));
        }
        k += 1;
    }
    proof {
        assert(metrics@.take(k as int) =~= metrics@);
    }
}

/// The sample that an `up` series carries for a target that answers.
pub const UP_SAMPLE: i64 = 1_000;

/// The candidates after an `up` answer for the service `name`: the first
/// series decides whether the service runs; an empty answer decides
/// nothing, and so does an answer for a service that is not a candidate.
pub open spec fn services_with_status(
    services: Seq<ServiceMetricsView>,
    metrics: Seq<PrometheusMetric>,
    name: Seq<char>,
) -> Seq<ServiceMetricsView> {
    if metrics.len() == 0 {
        services
    } else {
        match service_names(services).index_of_first(name) {
            Some(i) => services.update(
                i,
                ServiceMetricsView {
                    status: if metrics[0].sample() == UP_SAMPLE {
                        "Running"@
                    } else {
                        "Stopped"@
                    },
                    ..services[i]
                },
            ),
            None => services,
        }
    }
}

/// Resolves from an `up` answer whether the service `service_name` runs.
pub fn update_service_status(
    services: &mut Vec<ServiceMetrics>,
    result: &PrometheusResponse,
    service_name: &str,
)
    ensures
        service_views(final(services)@) == services_with_status(
            service_views(old(services)@),
            result.data.result@,
            service_name@,
        ),
{
    proof {
        assert(service_names(service_views(services@)) =~= names_of(services@));
    }
    if result.data.result.len() > 0 {
        let is_up = result.data.result[0].value() == UP_SAMPLE;
        let name = service_name.to_string();
        if let Some(i) = find_by_name(services, &name) {
            services[i].status = if is_up {
                "Running".to_string()
            } else {
                "Stopped".to_string()
            };
            proof {
                assert(service_views(services@) =~= services_with_status(
                    service_views(old(services)@),
                    result.data.result@,
                    service_name@,
                ));
            }
        }
    }
}

/// The node candidates before any query has been resolved: the known
/// machines with their hardware descriptors and resting values.
pub open spec fn baseline_nodes() -> Seq<NodeMetricsView> {
    seq![
        NodeMetricsView {
            name: "pesubuntu"@,
            ip_address: "192.168.8.106"@,
            status: "Ready"@,
            cpu_usage: 25_000,
            memory_usage: 45_000,
            memory_total: 0,
            gpu_usage: 0,
            gpu_memory: 0,
            gpu_memory_total: 0,
            network_rx: 0,
            network_tx: 0,
            disk_usage: 52_000,
            uptime: 0,
            temperature: 65_000,
            cpu_model: "Intel Core i5-12400F"@,
            cpu_cores: 6,
            cpu_threads: 12,
            memory_total_gb: 32_000,
            gpu_model: "AMD Radeon RX 7800 XT"@,
            disk_total_gb: 937_000,
        },
        NodeMetricsView {
            name: "asuna"@,
            ip_address: "192.168.8.185"@,
            status: "Ready"@,
            cpu_usage: 42_000,
            memory_usage: 68_000,
            memory_total: 0,
            gpu_usage: 0,
            gpu_memory: 0,
            gpu_memory_total: 0,
            network_rx: 0,
            network_tx: 0,
            disk_usage: 78_000,
            uptime: 0,
            temperature: 42_000,
            cpu_model: "Intel Core i7-4510U"@,
            cpu_cores: 2,
            cpu_threads: 4,
            memory_total_gb: 8_000,
            gpu_model: "Integrated Intel HD Graphics"@,
            disk_total_gb: 98_000,
        },
    ]
}

/// The service candidates before any query has been resolved: the known
/// services with resting values and no health probe yet.
pub open spec fn baseline_services() -> Seq<ServiceMetricsView> {
    seq![
        ServiceMetricsView {
            name: "n8n-0"@,
            namespace: "homelab"@,
            status: "Running"@,
            cpu_usage: 15_000,
            memory_usage: 35_000,
            requests_per_sec: 45_000,
            response_time: 125_000,
            error_rate: 200,
            uptime: 0,
            replicas: 1,
            ready_replicas: 1,
            health_status: HealthStatus::Unknown,
            health_endpoint: "http://n8n.homelab.svc.cluster.local:5678/healthz"@,
            last_health_check: 0,
            health_response_time: 0,
            consecutive_failures: 0,
        },
        ServiceMetricsView {
            name: "postgres-0"@,
            namespace: "homelab"@,
            status: "Running"@,
            cpu_usage: 8_000,
            memory_usage: 25_000,
            requests_per_sec: 125_000,
            response_time: 45_000,
            error_rate: 0,
            uptime: 0,
            replicas: 1,
            ready_replicas: 1,
            health_status: HealthStatus::Unknown,
            health_endpoint: "postgres://postgres.homelab.svc.cluster.local:5432/homelab"@,
            last_health_check: 0,
            health_response_time: 0,
            consecutive_failures: 0,
        },
        ServiceMetricsView {
            name: "redis-0"@,
            namespace: "homelab"@,
            status: "Running"@,
            cpu_usage: 3_000,
            memory_usage: 18_000,
            requests_per_sec: 280_000,
            response_time: 12_000,
            error_rate: 0,
            uptime: 0,
            replicas: 1,
            ready_replicas: 1,
            health_status: HealthStatus::Unknown,
            health_endpoint: "redis://redis.homelab.svc.cluster.local:6379"@,
            last_health_check: 0,
            health_response_time: 0,
            consecutive_failures: 0,
        },
        ServiceMetricsView {
            name: "prometheus-0"@,
            namespace: "homelab"@,
            status: "Running"@,
            cpu_usage: 22_000,
            memory_usage: 42_000,
            requests_per_sec: 89_000,
            response_time: 89_000,
            error_rate: 0,
            uptime: 0,
            replicas: 1,
            ready_replicas: 1,
            health_status: HealthStatus::Unknown,
            health_endpoint: "http://prometheus.homelab.svc.cluster.local:9090/-/healthy"@,
            last_health_check: 0,
            health_response_time: 0,
            consecutive_failures: 0,
        },
        ServiceMetricsView {
            name: "grafana-0"@,
            namespace: "homelab"@,
            status: "Running"@,
            cpu_usage: 12_000,
            memory_usage: 28_000,
            requests_per_sec: 23_000,
            response_time: 156_000,
            error_rate: 100,
            uptime: 0,
            replicas: 1,
            ready_replicas: 1,
            health_status: HealthStatus::Unknown,
            health_endpoint: "http://grafana.homelab.svc.cluster.local:3000/api/health"@,
            last_health_check: 0,
            health_response_time: 0,
            consecutive_failures: 0,
        },
        ServiceMetricsView {
            name: "qdrant-0"@,
            namespace: "homelab"@,
            status: "Running"@,
            cpu_usage: 18_000,
            memory_usage: 38_000,
            requests_per_sec: 67_000,
            response_time: 234_000,
            error_rate: 300,
            uptime: 0,
            replicas: 1,
            ready_replicas: 1,
            health_status: HealthStatus::Unknown,
            health_endpoint: "http://qdrant.homelab.svc.cluster.local:6333/health"@,
            last_health_check: 0,
            health_response_time: 0,
            consecutive_failures: 0,
        },
        ServiceMetricsView {
            name: "flowise-0"@,
            namespace: "homelab"@,
            status: "Running"@,
            cpu_usage: 25_000,
            memory_usage: 45_000,
            requests_per_sec: 34_000,
            response_time: 456_000,
            error_rate: 1_200,
            uptime: 0,
            replicas: 1,
            ready_replicas: 1,
            health_status: HealthStatus::Unknown,
            health_endpoint: "http://flowise.homelab.svc.cluster.local:3000/api/v1/health"@,
            last_health_check: 0,
            health_response_time: 0,
            consecutive_failures: 0,
        },
    ]
}

/// The names of the baseline candidates are pairwise distinct.
pub proof fn lemma_baseline_names_unique()
    ensures
        node_names(baseline_nodes()).no_duplicates(),
        service_names(baseline_services()).no_duplicates(),
{
    reveal_strlit("pesubuntu");
    reveal_strlit("asuna");
    reveal_strlit("n8n-0");
    reveal_strlit("postgres-0");
    reveal_strlit("redis-0");
    reveal_strlit("prometheus-0");
    reveal_strlit("grafana-0");
    reveal_strlit("qdrant-0");
    reveal_strlit("flowise-0");
    let nodes = node_names(baseline_nodes());
    assert(nodes.len() == 2);
    assert(nodes[0].len() == 9 && nodes[1].len() == 5);
    let services = service_names(baseline_services());
    assert(services.len() == 7);
    assert(services[0].len() == 5);
    assert(services[1].len() == 10);
    assert(services[2].len() == 7);
    assert(services[3].len() == 12);
    assert(services[4].len() == 9 && services[4][0] == 'g');
    assert(services[5].len() == 8);
    assert(services[6].len() == 9 && services[6][0] == 'f');
}

fn baseline_node_records() -> (nodes: Vec<NodeMetrics>)
    ensures
        node_views(nodes@) == baseline_nodes(),
{
    let mut nodes: Vec<NodeMetrics> = Vec::new();
    nodes.push(
        NodeMetrics {
            name: "pesubuntu".to_string(),
            ip_address: "192.168.8.106".to_string(),
            status: "Ready".to_string(),
            cpu_usage: 25_000,
            memory_usage: 45_000,
            memory_total: 0,
            gpu_usage: 0,
            gpu_memory: 0,
            gpu_memory_total: 0,
            network_rx: 0,
            network_tx: 0,
            disk_usage: 52_000,
            uptime: 0,
            temperature: 65_000,
            cpu_model: "Intel Core i5-12400F".to_string(),
            cpu_cores: 6,
            cpu_threads: 12,
            memory_total_gb: 32_000,
            gpu_model: "AMD Radeon RX 7800 XT".to_string(),
            disk_total_gb: 937_000,
        },
    );
    nodes.push(
        NodeMetrics {
            name: "asuna".to_string(),
            ip_address: "192.168.8.185".to_string(),
            status: "Ready".to_string(),
            cpu_usage: 42_000,
            memory_usage: 68_000,
            memory_total: 0,
            gpu_usage: 0,
            gpu_memory: 0,
            gpu_memory_total: 0,
            network_rx: 0,
            network_tx: 0,
            disk_usage: 78_000,
            uptime: 0,
            temperature: 42_000,
            cpu_model: "Intel Core i7-4510U".to_string(),
            cpu_cores: 2,
            cpu_threads: 4,
            memory_total_gb: 8_000,
            gpu_model: "Integrated Intel HD Graphics".to_string(),
            disk_total_gb: 98_000,
        },
    );
    proof {
        assert(node_views(nodes@) =~= baseline_nodes());
    }
    nodes
}

fn baseline_service_records() -> (services: Vec<ServiceMetrics>)
    ensures
        service_views(services@) == baseline_services(),
{
    let mut services: Vec<ServiceMetrics> = Vec::new();
    services.push(
        ServiceMetrics {
            name: "n8n-0".to_string(),
            namespace: "homelab".to_string(),
            status: "Running".to_string(),
            cpu_usage: 15_000,
            memory_usage: 35_000,
            requests_per_sec: 45_000,
            response_time: 125_000,
            error_rate: 200,
            uptime: 0,
            replicas: 1,
            ready_replicas: 1,
            health_status: HealthStatus::Unknown,
            health_endpoint: "http://n8n.homelab.svc.cluster.local:5678/healthz".to_string(),
            last_health_check: 0,
            health_response_time: 0,
            consecutive_failures: 0,
        },
    );
    services.push(
        ServiceMetrics {
            name: "postgres-0".to_string(),
            namespace: "homelab".to_string(),
            status: "Running".to_string(),
            cpu_usage: 8_000,
            memory_usage: 25_000,
            requests_per_sec: 125_000,
            response_time: 45_000,
            error_rate: 0,
            uptime: 0,
            replicas: 1,
            ready_replicas: 1,
            health_status: HealthStatus::Unknown,
            health_endpoint: "postgres://postgres.homelab.svc.cluster.local:5432/homelab".to_string(),
            last_health_check: 0,
            health_response_time: 0,
            consecutive_failures: 0,
        },
    );
    services.push(
        ServiceMetrics {
            name: "redis-0".to_string(),
            namespace: "homelab".to_string(),
            status: "Running".to_string(),
            cpu_usage: 3_000,
            memory_usage: 18_000,
            requests_per_sec: 280_000,
            response_time: 12_000,
            error_rate: 0,
            uptime: 0,
            replicas: 1,
            ready_replicas: 1,
            health_status: HealthStatus::Unknown,
            health_endpoint: "redis://redis.homelab.svc.cluster.local:6379".to_string(),
            last_health_check: 0,
            health_response_time: 0,
            consecutive_failures: 0,
        },
    );
    services.push(
        ServiceMetrics {
            name: "prometheus-0".to_string(),
            namespace: "homelab".to_string(),
            status: "Running".to_string(),
            cpu_usage: 22_000,
            memory_usage: 42_000,
            requests_per_sec: 89_000,
            response_time: 89_000,
            error_rate: 0,
            uptime: 0,
            replicas: 1,
            ready_replicas: 1,
            health_status: HealthStatus::Unknown,
            health_endpoint: "http://prometheus.homelab.svc.cluster.local:9090/-/healthy".to_string(),
            last_health_check: 0,
            health_response_time: 0,
            consecutive_failures: 0,
        },
    );
    services.push(
        ServiceMetrics {
            name: "grafana-0".to_string(),
            namespace: "homelab".to_string(),
            status: "Running".to_string(),
            cpu_usage: 12_000,
            memory_usage: 28_000,
            requests_per_sec: 23_000,
            response_time: 156_000,
            error_rate: 100,
            uptime: 0,
            replicas: 1,
            ready_replicas: 1,
            health_status: HealthStatus::Unknown,
            health_endpoint: "http://grafana.homelab.svc.cluster.local:3000/api/health".to_string(),
            last_health_check: 0,
            health_response_time: 0,
            consecutive_failures: 0,
        },
    );
    services.push(
        ServiceMetrics {
            name: "qdrant-0".to_string(),
            namespace: "homelab".to_string(),
            status: "Running".to_string(),
            cpu_usage: 18_000,
            memory_usage: 38_000,
            requests_per_sec: 67_000,
            response_time: 234_000,
            error_rate: 300,
            uptime: 0,
            replicas: 1,
            ready_replicas: 1,
            health_status: HealthStatus::Unknown,
            health_endpoint: "http://qdrant.homelab.svc.cluster.local:6333/health".to_string(),
            last_health_check: 0,
            health_response_time: 0,
            consecutive_failures: 0,
        },
    );
    services.push(
        ServiceMetrics {
            name: "flowise-0".to_string(),
            namespace: "homelab".to_string(),
            status: "Running".to_string(),
            cpu_usage: 25_000,
            memory_usage: 45_000,
            requests_per_sec: 34_000,
            response_time: 456_000,
            error_rate: 1_200,
            uptime: 0,
            replicas: 1,
            ready_replicas: 1,
            health_status: HealthStatus::Unknown,
            health_endpoint: "http://flowise.homelab.svc.cluster.local:3000/api/v1/health".to_string(),
            last_health_check: 0,
            health_response_time: 0,
            consecutive_failures: 0,
        },
    );
    proof {
        assert(service_views(services@) =~= baseline_services());
    }
    services
}

/// The queries that one fetch sends to the backend.
#[derive(Debug, Clone, Copy, PartialEq, Eq, Structural)]
pub enum Query {
    /// Asked once to learn whether the backend answers at all.
    Probe,
    NodeCpu,
    NodeMemory,
    PostgresUp,
    N8nUp,
    RedisUp,
    PrometheusUp,
}

impl Query {
    /// The query in the backend's query language.
    pub open spec fn text_view(self) -> Seq<char> {
        match self {
            Query::Probe => "up"@,
            Query::NodeCpu =>
                "100 - (avg by (instance) (irate(node_cpu_seconds_total{mode=\"idle\"}[5m])) * 100)"@,
            Query::NodeMemory =>
                "((1 - (node_memory_MemAvailable_bytes / node_memory_MemTotal_bytes)) * 100)"@,
            Query::PostgresUp => "up{job=\"postgres\"}"@,
            Query::N8nUp => "up{job=\"n8n\"}"@,
            Query::RedisUp => "up{job=\"redis\"}"@,
            Query::PrometheusUp => "up{job=\"prometheus\"}"@,
        }
    }

    /// The query in the backend's query language.
    pub fn text(self) -> (query: &'static str)
        ensures
            query@ == self.text_view(),
    {
        match self {
            Query::Probe => "up",
            Query::NodeCpu =>
                "100 - (avg by (instance) (irate(node_cpu_seconds_total{mode=\"idle\"}[5m])) * 100)",
            Query::NodeMemory =>
                "((1 - (node_memory_MemAvailable_bytes / node_memory_MemTotal_bytes)) * 100)",
            Query::PostgresUp => "up{job=\"postgres\"}",
            Query::N8nUp => "up{job=\"n8n\"}",
            Query::RedisUp => "up{job=\"redis\"}",
            Query::PrometheusUp => "up{job=\"prometheus\"}",
        }
    }
}

/// The answers to the queries of one fetch. A query that failed has no
/// answer; the others are resolved without it.
#[derive(Debug, Clone, PartialEq, Eq)]
pub struct QueryResults {
    pub node_cpu: Option<PrometheusResponse>,
    pub node_memory: Option<PrometheusResponse>,
    pub postgres_up: Option<PrometheusResponse>,
    pub n8n_up: Option<PrometheusResponse>,
    pub redis_up: Option<PrometheusResponse>,
    pub prometheus_up: Option<PrometheusResponse>,
    /// What the transport said of the first query that failed, if one did.
    pub error: Option<String>,
}

impl QueryResults {
    /// At least one query of the fetch was answered.
    pub open spec fn has_answer(&self) -> bool {
        ||| self.node_cpu is Some
        ||| self.node_memory is Some
        ||| self.postgres_up is Some
        ||| self.n8n_up is Some
        ||| self.redis_up is Some
        ||| self.prometheus_up is Some
    }

    /// The reason to give for a fetch that failed: what the transport said
    /// of the first failure, or that there was no response if it said
    /// nothing.
    pub open spec fn failure_text(&self) -> Seq<char> {
        match self.error {
            Some(reason) => reason@,
            None => "No response"@,
        }
    }

    /// The results of a fetch in which no query was answered.
    pub fn none() -> (results: QueryResults)
        ensures
            results.node_cpu is None,
            results.node_memory is None,
            results.postgres_up is None,
            results.n8n_up is None,
            results.redis_up is None,
            results.prometheus_up is None,
            results.error is None,
    {
        QueryResults {
            node_cpu: None,
            node_memory: None,
            postgres_up: None,
            n8n_up: None,
            redis_up: None,
            prometheus_up: None,
            error: None,
        }
    }

    /// Whether at least one query of the fetch was answered.
    pub fn answered(&self) -> (some: bool)
        ensures
            some == self.has_answer(),
    {
        self.node_cpu.is_some() || self.node_memory.is_some() || self.postgres_up.is_some()
            || self.n8n_up.is_some() || self.redis_up.is_some() || self.prometheus_up.is_some()
    }

    /// The reason to give for a fetch that failed.
    pub fn failure(&self) -> (reason: String)
        ensures
            reason@ == self.failure_text(),
    {
        match &self.error {
            Some(reason) => reason.clone(),
            None => "No response".to_string(),
        }
    }
}

/// The candidates after one query: resolved from its answer, or unchanged
/// where the query failed.
pub open spec fn nodes_after(
    nodes: Seq<NodeMetricsView>,
    answer: Option<PrometheusResponse>,
    gauge: NodeGauge,
) -> Seq<NodeMetricsView> {
    match answer {
        Some(response) => nodes_with_samples(nodes, response.data.result@, gauge),
        None => nodes,
    }
}

/// The candidates after one `up` query for the service `name`: resolved
/// from its answer, or unchanged where the query failed.
pub open spec fn services_after(
    services: Seq<ServiceMetricsView>,
    answer: Option<PrometheusResponse>,
    name: Seq<char>,
) -> Seq<ServiceMetricsView> {
    match answer {
        Some(response) => services_with_status(services, response.data.result@, name),
        None => services,
    }
}

/// The node candidates of a fetch: the baseline with the CPU load and then
/// the memory use resolved, each from its own answer.
pub open spec fn resolved_nodes(results: QueryResults) -> Seq<NodeMetricsView> {
    nodes_after(
        nodes_after(baseline_nodes(), results.node_cpu, NodeGauge::Cpu),
        results.node_memory,
        NodeGauge::Memory,
    )
}

/// The service candidates of a fetch: the baseline with the run state of
/// four services resolved, each from its own answer.
pub open spec fn resolved_services(results: QueryResults) -> Seq<ServiceMetricsView> {
    services_after(
        services_after(
            services_after(
                services_after(baseline_services(), results.postgres_up, "postgres-0"@),
                results.n8n_up,
                "n8n-0"@,
            ),
            results.redis_up,
            "redis-0"@,
        ),
        results.prometheus_up,
        "prometheus-0"@,
    )
}

/// Resolving a run state changes that state only: the candidates keep their
/// number, their order and their names.
pub proof fn lemma_status_keeps_service_names(
    services: Seq<ServiceMetricsView>,
    metrics: Seq<PrometheusMetric>,
    name: Seq<char>,
)
    ensures
        service_names(services_with_status(services, metrics, name)) == service_names(services),
{
    service_names(services).index_of_first_ensures(name);
    assert(service_names(services_with_status(services, metrics, name)) =~= service_names(
        services,
    ));
}

/// Whatever the backend answered, the candidates of a fetch are the known
/// machines and services, in their fixed order and under distinct names.
pub proof fn lemma_resolved_names(results: QueryResults)
    ensures
        node_names(resolved_nodes(results)) == node_names(baseline_nodes()),
        service_names(resolved_services(results)) == service_names(baseline_services()),
        node_names(resolved_nodes(results)).no_duplicates(),
        service_names(resolved_services(results)).no_duplicates(),
{
    lemma_baseline_names_unique();
    let n0 = baseline_nodes();
    let n1 = nodes_after(n0, results.node_cpu, NodeGauge::Cpu);
    if let Some(r) = results.node_cpu {
        lemma_samples_keep_node_names(n0, r.data.result@, NodeGauge::Cpu);
    }
    if let Some(r) = results.node_memory {
        lemma_samples_keep_node_names(n1, r.data.result@, NodeGauge::Memory);
    }
    let s0 = baseline_services();
    let s1 = services_after(s0, results.postgres_up, "postgres-0"@);
    let s2 = services_after(s1, results.n8n_up, "n8n-0"@);
    let s3 = services_after(s2, results.redis_up, "redis-0"@);
    if let Some(r) = results.postgres_up {
        lemma_status_keeps_service_names(s0, r.data.result@, "postgres-0"@);
    }
    if let Some(r) = results.n8n_up {
        lemma_status_keeps_service_names(s1, r.data.result@, "n8n-0"@);
    }
    if let Some(r) = results.redis_up {
        lemma_status_keeps_service_names(s2, r.data.result@, "redis-0"@);
    }
    if let Some(r) = results.prometheus_up {
        lemma_status_keeps_service_names(s3, r.data.result@, "prometheus-0"@);
    }
}

/// Builds the node candidates of a fetch.
///
/// Each metric is resolved from its own answer; a query that failed leaves
/// the metric at its baseline and does not disturb the others.
pub fn fetch_node_metrics(results: &QueryResults) -> (nodes: Vec<NodeMetrics>)
    ensures
        node_views(nodes@) == resolved_nodes(*results),
        unique_names(nodes@),
{
    let mut nodes = baseline_node_records();
    match &results.node_cpu {
        Some(answer) => {
            update_node_cpu(&mut nodes, answer);
        },
        None => {},
    }
    match &results.node_memory {
        Some(answer) => {
            update_node_memory(&mut nodes, answer);
        },
        None => {},
    }
    proof {
        lemma_resolved_names(*results);
        assert(names_of(nodes@) =~= node_names(node_views(nodes@)));
    }
    nodes
}

/// Builds the service candidates of a fetch.
///
/// The run state of each probed service is resolved from its own answer; a
/// query that failed leaves the state at its baseline and does not disturb
/// the others.
pub fn fetch_service_metrics(results: &QueryResults) -> (services: Vec<ServiceMetrics>)
    ensures
        service_views(services@) == resolved_services(*results),
        unique_names(services@),
{
    let mut services = baseline_service_records();
    match &results.postgres_up {
        Some(answer) => {
            update_service_status(&mut services, answer, "postgres-0");
        },
        None => {},
    }
    match &results.n8n_up {
        Some(answer) => {
            update_service_status(&mut services, answer, "n8n-0");
        },
        None => {},
    }
    match &results.redis_up {
        Some(answer) => {
            update_service_status(&mut services, answer, "redis-0");
        },
        None => {},
    }
    match &results.prometheus_up {
        Some(answer) => {
            update_service_status(&mut services, answer, "prometheus-0");
        },
        None => {},
    }
    proof {
        lemma_resolved_names(*results);
        assert(names_of(services@) =~= service_names(service_views(services@)));
    }
    services
}

/// Whether a fetch is due at `now_ms`: always before the first fetch, and
/// afterwards once the query interval has passed since the last one. A
/// clock reading before the last fetch counts as no time passed.
pub open spec fn fetch_due(last_update: Option<u64>, interval_secs: u64, now_ms: u64) -> bool {
    match last_update {
        None => true,
        Some(last) => {
            let elapsed = if now_ms >= last {
                now_ms - last
            } else {
                0
            };
            elapsed >= interval_secs * 1000
        },
    }
}

/// The adapter's state: its configuration, the time of the last fetch and
/// the candidates that fetch produced.
///
/// Times are milliseconds on a monotonic clock of the caller's choice.
#[derive(Debug)]
pub struct PrometheusClient {
    config: PrometheusConfig,
    last_update: Option<u64>,
    cached_nodes: Vec<NodeMetrics>,
    cached_services: Vec<ServiceMetrics>,
}

impl PrometheusClient {
    #[verifier::type_invariant]
    spec fn names_distinct(&self) -> bool {
        unique_names(self.cached_nodes@) && unique_names(self.cached_services@)
    }

    /// The configuration the adapter was made with.
    pub closed spec fn config(&self) -> PrometheusConfig {
        self.config
    }

    /// The clock reading of the last fetch, if there was one.
    pub closed spec fn last_update(&self) -> Option<u64> {
        self.last_update
    }

    /// The node candidates of the last fetch.
    pub closed spec fn nodes(&self) -> Seq<NodeMetricsView> {
        node_views(self.cached_nodes@)
    }

    /// The service candidates of the last fetch.
    pub closed spec fn services(&self) -> Seq<ServiceMetricsView> {
        service_views(self.cached_services@)
    }

    /// An adapter that has not fetched yet and holds no candidates.
    pub fn new(config: PrometheusConfig) -> (client: PrometheusClient)
        ensures
            client.config() == config,
            client.last_update() is None,
            client.nodes() == Seq::<NodeMetricsView>::empty(),
            client.services() == Seq::<ServiceMetricsView>::empty(),
    {
        let client = PrometheusClient {
            config,
            last_update: None,
            cached_nodes: Vec::new(),
            cached_services: Vec::new(),
        };
        proof {
            assert(client.nodes() =~= Seq::<NodeMetricsView>::empty());
            assert(client.services() =~= Seq::<ServiceMetricsView>::empty());
        }
        client
    }

    /// Whether a fetch at `now_ms` would go to the backend or be throttled.
    pub fn is_due(&self, now_ms: u64) -> (due: bool)
        ensures
            due == fetch_due(self.last_update(), self.config().query_interval_secs, now_ms),
    {
        match self.last_update {
            None => true,
            Some(last) => {
                let elapsed: u64 = if now_ms >= last {
                    now_ms - last
                } else {
                    0
                };
                let interval: u128 = self.config.query_interval_secs as u128 * 1000;
                elapsed as u128 >= interval
            },
        }
    }

    /// Whether the adapter has taken a fetch yet.
    pub fn has_fetched(&self) -> (fetched: bool)
        ensures
            fetched == (self.last_update() is Some),
    {
        self.last_update.is_some()
    }

    /// Takes the answers of a fetch made at `now_ms`.
    ///
    /// * Inside the throttle window nothing is taken and the result is
    ///   `Ok(false)`.
    /// * Outside it, a fetch in which no query was answered has failed: the
    ///   result is the reason of the failure.
    /// * Outside it, a fetch with at least one answer is taken: both
    ///   candidate lists are rebuilt from the answers, the throttle window
    ///   starts anew at `now_ms`, and the result is `Ok(true)`.
    ///
    /// Only a fetch that is taken changes the adapter: the candidates and
    /// the time of the last fetch survive a throttled and a failed one.
    pub fn update_metrics(&mut self, now_ms: u64, results: &QueryResults) -> (outcome: Result<
        bool,
        String,
    >)
        ensures
            final(self).config() == old(self).config(),
            match outcome {
                Ok(false) => {
                    &&& !fetch_due(
                        old(self).last_update(),
                        old(self).config().query_interval_secs,
                        now_ms,
                    )
                    &&& *final(self) == *old(self)
                },
                Err(reason) => {
                    &&& fetch_due(
                        old(self).last_update(),
                        old(self).config().query_interval_secs,
                        now_ms,
                    )
                    &&& !results.has_answer()
                    &&& reason@ == results.failure_text()
                    &&& *final(self) == *old(self)
                },
                Ok(true) => {
                    &&& fetch_due(
                        old(self).last_update(),
                        old(self).config().query_interval_secs,
                        now_ms,
                    )
                    &&& results.has_answer()
                    &&& final(self).last_update() == Some(now_ms)
                    &&& final(self).nodes() == resolved_nodes(*results)
                    &&& final(self).services() == resolved_services(*results)
                },
            },
    {
        proof {
            use_type_invariant(&*self);
        }
        if !self.is_due(now_ms) {
            return Ok(false);
        }
        if !results.answered() {
            return Err(results.failure());
        }
        let nodes = fetch_node_metrics(results);
        let services = fetch_service_metrics(results);
        self.cached_nodes = nodes;
        self.cached_services = services;
        self.last_update = Some(now_ms);
        Ok(true)
    }

    /// The node candidates of the last fetch, under distinct names.
    pub fn get_nodes(&self) -> (nodes: &Vec<NodeMetrics>)
        ensures
            node_views(nodes@) == self.nodes(),
            unique_names(nodes@),
    {
        proof {
            use_type_invariant(self);
        }
        &self.cached_nodes
    }

    /// The service candidates of the last fetch, under distinct names.
    pub fn get_services(&self) -> (services: &Vec<ServiceMetrics>)
        ensures
            service_views(services@) == self.services(),
            unique_names(services@),
    {
        proof {
            use_type_invariant(self);
        }
        &self.cached_services
    }

    /// Reads the answer to the probe query: the backend is there if the
    /// answer holds at least one series.
    pub fn test_connection(&self, probe: &PrometheusResponse) -> (alive: bool)
        ensures
            alive == (probe.data.result@.len() > 0),
    {
        !probe.data.result.is_empty()
    }
}

} // verus!
