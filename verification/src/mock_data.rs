//! Node and service records, and the synthetic snapshot that seeds the
//! dashboard when no backend has answered yet.
//!
//! Every metric is a fixed-point integer in thousandths of its unit.

use vstd::prelude::*;
use crate::history::Charted;
use crate::roster::{names_of, unique_names, Named};

verus! {

/// One machine of the cluster.
#[derive(Debug, Clone, PartialEq, Eq)]
pub struct NodeMetrics {
    pub name: String,
    pub ip_address: String,
    pub status: String,
    /// CPU load, thousandths of a percent.
    pub cpu_usage: i64,
    /// Memory in use, thousandths of a percent.
    pub memory_usage: i64,
    /// Installed memory in bytes.
    pub memory_total: u64,
    /// GPU load, thousandths of a percent.
    pub gpu_usage: i64,
    /// GPU memory in use, thousandths of a percent.
    pub gpu_memory: i64,
    /// Installed GPU memory in bytes.
    pub gpu_memory_total: u64,
    /// Receive rate, thousandths of a megabyte per second.
    pub network_rx: i64,
    /// Transmit rate, thousandths of a megabyte per second.
    pub network_tx: i64,
    /// Disk space in use, thousandths of a percent.
    pub disk_usage: i64,
    /// Seconds since boot.
    pub uptime: u64,
    /// Thousandths of a degree Celsius.
    pub temperature: i64,
    pub cpu_model: String,
    pub cpu_cores: u32,
    pub cpu_threads: u32,
    /// Installed memory, thousandths of a gigabyte.
    pub memory_total_gb: i64,
    pub gpu_model: String,
    /// Disk capacity, thousandths of a gigabyte.
    pub disk_total_gb: i64,
}

/// The mathematical value of a [`NodeMetrics`].
pub struct NodeMetricsView {
    pub name: Seq<char>,
    pub ip_address: Seq<char>,
    pub status: Seq<char>,
    pub cpu_usage: int,
    pub memory_usage: int,
    pub memory_total: nat,
    pub gpu_usage: int,
    pub gpu_memory: int,
    pub gpu_memory_total: nat,
    pub network_rx: int,
    pub network_tx: int,
    pub disk_usage: int,
    pub uptime: nat,
    pub temperature: int,
    pub cpu_model: Seq<char>,
    pub cpu_cores: nat,
    pub cpu_threads: nat,
    pub memory_total_gb: int,
    pub gpu_model: Seq<char>,
    pub disk_total_gb: int,
}

impl View for NodeMetrics {
    type V = NodeMetricsView;

    open spec fn view(&self) -> NodeMetricsView {
        NodeMetricsView {
            name: self.name@,
            ip_address: self.ip_address@,
            status: self.status@,
            cpu_usage: self.cpu_usage as int,
            memory_usage: self.memory_usage as int,
            memory_total: self.memory_total as nat,
            gpu_usage: self.gpu_usage as int,
            gpu_memory: self.gpu_memory as int,
            gpu_memory_total: self.gpu_memory_total as nat,
            network_rx: self.network_rx as int,
            network_tx: self.network_tx as int,
            disk_usage: self.disk_usage as int,
            uptime: self.uptime as nat,
            temperature: self.temperature as int,
            cpu_model: self.cpu_model@,
            cpu_cores: self.cpu_cores as nat,
            cpu_threads: self.cpu_threads as nat,
            memory_total_gb: self.memory_total_gb as int,
            gpu_model: self.gpu_model@,
            disk_total_gb: self.disk_total_gb as int,
        }
    }
}

impl Named for NodeMetrics {
    open spec fn name_view(&self) -> Seq<char> {
        self.name@
    }

    fn name(&self) -> (n: &String) {
        &self.name
    }
}

impl Charted for NodeMetrics {
    open spec fn charted_view(&self) -> i64 {
        self.cpu_usage
    }

    fn charted(&self) -> (value: i64) {
        self.cpu_usage
    }
}

impl NodeMetricsView {
    /// This record with the live metrics of `fresh` and everything else
    /// (identity, hardware descriptors, capacities, uptime) as it was.
    pub open spec fn with_live_metrics(self, fresh: NodeMetricsView) -> NodeMetricsView {
        NodeMetricsView {
            status: fresh.status,
            cpu_usage: fresh.cpu_usage,
            memory_usage: fresh.memory_usage,
            gpu_usage: fresh.gpu_usage,
            gpu_memory: fresh.gpu_memory,
            network_rx: fresh.network_rx,
            network_tx: fresh.network_tx,
            disk_usage: fresh.disk_usage,
            temperature: fresh.temperature,
            ..self
        }
    }

    /// Both records describe the same machine: name and address agree.
    pub open spec fn same_identity(self, other: NodeMetricsView) -> bool {
        self.name == other.name && self.ip_address == other.ip_address
    }

    /// Both records carry the same static hardware descriptors.
    pub open spec fn same_hardware(self, other: NodeMetricsView) -> bool {
        &&& self.cpu_model == other.cpu_model
        &&& self.cpu_cores == other.cpu_cores
        &&& self.cpu_threads == other.cpu_threads
        &&& self.memory_total == other.memory_total
        &&& self.memory_total_gb == other.memory_total_gb
        &&& self.gpu_model == other.gpu_model
        &&& self.gpu_memory_total == other.gpu_memory_total
        &&& self.disk_total_gb == other.disk_total_gb
    }
}

impl NodeMetrics {
    /// Overwrites the live metrics with those of `fresh`; identity and
    /// hardware descriptors stay.
    pub fn take_live_metrics(&mut self, fresh: &NodeMetrics)
        ensures
            final(self)@ == old(self)@.with_live_metrics(fresh@),
    {
        self.status = fresh.status.clone();
        self.cpu_usage = fresh.cpu_usage;
        self.memory_usage = fresh.memory_usage;
        self.gpu_usage = fresh.gpu_usage;
        self.gpu_memory = fresh.gpu_memory;
        self.network_rx = fresh.network_rx;
        self.network_tx = fresh.network_tx;
        self.disk_usage = fresh.disk_usage;
        self.temperature = fresh.temperature;
    }

    /// A copy of the record.
    pub fn duplicate(&self) -> (copy: NodeMetrics)
        ensures
            copy@ == self@,
    {
        NodeMetrics {
            name: self.name.clone(),
            ip_address: self.ip_address.clone(),
            status: self.status.clone(),
            cpu_usage: self.cpu_usage,
            memory_usage: self.memory_usage,
            memory_total: self.memory_total,
            gpu_usage: self.gpu_usage,
            gpu_memory: self.gpu_memory,
            gpu_memory_total: self.gpu_memory_total,
            network_rx: self.network_rx,
            network_tx: self.network_tx,
            disk_usage: self.disk_usage,
            uptime: self.uptime,
            temperature: self.temperature,
            cpu_model: self.cpu_model.clone(),
            cpu_cores: self.cpu_cores,
            cpu_threads: self.cpu_threads,
            memory_total_gb: self.memory_total_gb,
            gpu_model: self.gpu_model.clone(),
            disk_total_gb: self.disk_total_gb,
        }
    }
}

/// The views of `items`, in order.
pub open spec fn node_views(items: Seq<NodeMetrics>) -> Seq<NodeMetricsView> {
    Seq::new(items.len(), |i: int| items[i]@)
}

/// Copies of `items`, in order.
pub fn copy_nodes(items: &Vec<NodeMetrics>) -> (copies: Vec<NodeMetrics>)
    ensures
        node_views(copies@) == node_views(items@),
        names_of(copies@) == names_of(items@),
{
    let mut copies: Vec<NodeMetrics> = Vec::new();
    let mut i: usize = 0;
    while i < items.len()
        invariant
            i <= items.len(),
            copies@.len() == i,
            forall|k: int| 0 <= k < i ==> (#[trigger] copies@[k])@ == items@[k]@,
        decreases items.len() - i,
    {
        copies.push(items[i].duplicate());
        i += 1;
    }
    proof {
        assert(node_views(copies@) =~= node_views(items@));
        assert(names_of(copies@) =~= names_of(items@));
    }
    copies
}

/// The names of `nodes`, in order.
pub open spec fn node_names(nodes: Seq<NodeMetricsView>) -> Seq<Seq<char>> {
    Seq::new(nodes.len(), |i: int| nodes[i].name)
}

/// Outcome of the last health probe of a service.
#[derive(Debug, Clone, Copy, PartialEq, Eq, Structural)]
pub enum HealthStatus {
    Healthy,
    Degraded,
    Unhealthy,
    Unknown,
}

/// One service running on the cluster.
#[derive(Debug, Clone, PartialEq, Eq)]
pub struct ServiceMetrics {
    pub name: String,
    pub namespace: String,
    pub status: String,
    /// CPU load, thousandths of a percent.
    pub cpu_usage: i64,
    /// Memory in use, thousandths of a percent.
    pub memory_usage: i64,
    /// Thousandths of a request per second.
    pub requests_per_sec: i64,
    /// Thousandths of a millisecond.
    pub response_time: i64,
    /// Thousandths of a percent.
    pub error_rate: i64,
    /// Seconds since start.
    pub uptime: u64,
    pub replicas: u32,
    pub ready_replicas: u32,
    pub health_status: HealthStatus,
    pub health_endpoint: String,
    /// Unix time of the last probe.
    pub last_health_check: u64,
    /// Probe round trip, thousandths of a millisecond.
    pub health_response_time: i64,
    pub consecutive_failures: u32,
}

/// The mathematical value of a [`ServiceMetrics`].
pub struct ServiceMetricsView {
    pub name: Seq<char>,
    pub namespace: Seq<char>,
    pub status: Seq<char>,
    pub cpu_usage: int,
    pub memory_usage: int,
    pub requests_per_sec: int,
    pub response_time: int,
    pub error_rate: int,
    pub uptime: nat,
    pub replicas: nat,
    pub ready_replicas: nat,
    pub health_status: HealthStatus,
    pub health_endpoint: Seq<char>,
    pub last_health_check: nat,
    pub health_response_time: int,
    pub consecutive_failures: nat,
}

impl View for ServiceMetrics {
    type V = ServiceMetricsView;

    open spec fn view(&self) -> ServiceMetricsView {
        ServiceMetricsView {
            name: self.name@,
            namespace: self.namespace@,
            status: self.status@,
            cpu_usage: self.cpu_usage as int,
            memory_usage: self.memory_usage as int,
            requests_per_sec: self.requests_per_sec as int,
            response_time: self.response_time as int,
            error_rate: self.error_rate as int,
            uptime: self.uptime as nat,
            replicas: self.replicas as nat,
            ready_replicas: self.ready_replicas as nat,
            health_status: self.health_status,
            health_endpoint: self.health_endpoint@,
            last_health_check: self.last_health_check as nat,
            health_response_time: self.health_response_time as int,
            consecutive_failures: self.consecutive_failures as nat,
        }
    }
}

impl Named for ServiceMetrics {
    open spec fn name_view(&self) -> Seq<char> {
        self.name@
    }

    fn name(&self) -> (n: &String) {
        &self.name
    }
}

impl Charted for ServiceMetrics {
    open spec fn charted_view(&self) -> i64 {
        self.cpu_usage
    }

    fn charted(&self) -> (value: i64) {
        self.cpu_usage
    }
}

impl ServiceMetricsView {
    /// This record with the live metrics of `fresh` and everything else
    /// (identity, uptime, health probe) as it was.
    pub open spec fn with_live_metrics(self, fresh: ServiceMetricsView) -> ServiceMetricsView {
        ServiceMetricsView {
            status: fresh.status,
            cpu_usage: fresh.cpu_usage,
            memory_usage: fresh.memory_usage,
            requests_per_sec: fresh.requests_per_sec,
            response_time: fresh.response_time,
            error_rate: fresh.error_rate,
            replicas: fresh.replicas,
            ready_replicas: fresh.ready_replicas,
            ..self
        }
    }

    /// Both records describe the same service: name and namespace agree.
    pub open spec fn same_identity(self, other: ServiceMetricsView) -> bool {
        self.name == other.name && self.namespace == other.namespace
    }

    /// Both records carry the same health-probe state.
    pub open spec fn same_health(self, other: ServiceMetricsView) -> bool {
        &&& self.health_status == other.health_status
        &&& self.health_endpoint == other.health_endpoint
        &&& self.last_health_check == other.last_health_check
        &&& self.health_response_time == other.health_response_time
        &&& self.consecutive_failures == other.consecutive_failures
    }
}

impl ServiceMetrics {
    /// Overwrites the live metrics with those of `fresh`; identity and
    /// health-probe state stay.
    pub fn take_live_metrics(&mut self, fresh: &ServiceMetrics)
        ensures
            final(self)@ == old(self)@.with_live_metrics(fresh@),
    {
        self.status = fresh.status.clone();
        self.cpu_usage = fresh.cpu_usage;
        self.memory_usage = fresh.memory_usage;
        self.requests_per_sec = fresh.requests_per_sec;
        self.response_time = fresh.response_time;
        self.error_rate = fresh.error_rate;
        self.replicas = fresh.replicas;
        self.ready_replicas = fresh.ready_replicas;
    }

    /// A copy of the record.
    pub fn duplicate(&self) -> (copy: ServiceMetrics)
        ensures
            copy@ == self@,
    {
        ServiceMetrics {
            name: self.name.clone(),
            namespace: self.namespace.clone(),
            status: self.status.clone(),
            cpu_usage: self.cpu_usage,
            memory_usage: self.memory_usage,
            requests_per_sec: self.requests_per_sec,
            response_time: self.response_time,
            error_rate: self.error_rate,
            uptime: self.uptime,
            replicas: self.replicas,
            ready_replicas: self.ready_replicas,
            health_status: self.health_status,
            health_endpoint: self.health_endpoint.clone(),
            last_health_check: self.last_health_check,
            health_response_time: self.health_response_time,
            consecutive_failures: self.consecutive_failures,
        }
    }
}

/// The views of `items`, in order.
pub open spec fn service_views(items: Seq<ServiceMetrics>) -> Seq<ServiceMetricsView> {
    Seq::new(items.len(), |i: int| items[i]@)
}

/// Copies of `items`, in order.
pub fn copy_services(items: &Vec<ServiceMetrics>) -> (copies: Vec<ServiceMetrics>)
    ensures
        service_views(copies@) == service_views(items@),
        names_of(copies@) == names_of(items@),
{
    let mut copies: Vec<ServiceMetrics> = Vec::new();
    let mut i: usize = 0;
    while i < items.len()
        invariant
            i <= items.len(),
            copies@.len() == i,
            forall|k: int| 0 <= k < i ==> (#[trigger] copies@[k])@ == items@[k]@,
        decreases items.len() - i,
    {
        copies.push(items[i].duplicate());
        i += 1;
    }
    proof {
        assert(service_views(copies@) =~= service_views(items@));
        assert(names_of(copies@) =~= names_of(items@));
    }
    copies
}

/// The names of `services`, in order.
pub open spec fn service_names(services: Seq<ServiceMetricsView>) -> Seq<Seq<char>> {
    Seq::new(services.len(), |i: int| services[i].name)
}

/// The nodes of the synthetic snapshot, in display order.
pub open spec fn mock_nodes() -> Seq<NodeMetricsView> {
    seq![
        NodeMetricsView {
            name: "pesubuntu"@,
            ip_address: "192.168.8.106"@,
            status: "Ready"@,
            cpu_usage: 25_300,
            memory_usage: 45_200,
            memory_total: 34_359_738_368,
            gpu_usage: 67_800,
            gpu_memory: 55_400,
            gpu_memory_total: 17_179_869_184,
            network_rx: 450_200,
            network_tx: 320_800,
            disk_usage: 52_300,
            uptime: 604_800,
            temperature: 65_200,
            cpu_model: "Intel Core i5-12400F"@,
            cpu_cores: 6,
            cpu_threads: 12,
            memory_total_gb: 32_000,
            gpu_model: "AMD Radeon RX 7800 XT"@,
            disk_total_gb: 937_000,
        },
        NodeMetricsView {
            name: "asuna"@,
            ip_address: "192.168.8.185"@,
            status: "Ready"@,
            cpu_usage: 42_700,
            memory_usage: 68_900,
            memory_total: 8_589_934_592,
            gpu_usage: 0,
            gpu_memory: 0,
            gpu_memory_total: 0,
            network_rx: 125_400,
            network_tx: 98_700,
            disk_usage: 78_500,
            uptime: 2_592_000,
            temperature: 42_100,
            cpu_model: "Intel Core i7-4510U"@,
            cpu_cores: 2,
            cpu_threads: 4,
            memory_total_gb: 8_000,
            gpu_model: "Integrated Intel HD Graphics"@,
            disk_total_gb: 98_000,
        },
    ]
}

/// The services of the synthetic snapshot, in display order.
pub open spec fn mock_services() -> Seq<ServiceMetricsView> {
    seq![
        ServiceMetricsView {
            name: "n8n-0"@,
            namespace: "homelab"@,
            status: "Running"@,
            cpu_usage: 15_200,
            memory_usage: 35_800,
            requests_per_sec: 45_300,
            response_time: 125_400,
            error_rate: 200,
            uptime: 1_209_600,
            replicas: 1,
            ready_replicas: 1,
            health_status: HealthStatus::Healthy,
            health_endpoint: "http://n8n.homelab.svc.cluster.local:5678/healthz"@,
            last_health_check: 1_733_318_400,
            health_response_time: 45_200,
            consecutive_failures: 0,
        },
        ServiceMetricsView {
            name: "postgres-0"@,
            namespace: "homelab"@,
            status: "Running"@,
            cpu_usage: 8_700,
            memory_usage: 25_400,
            requests_per_sec: 125_800,
            response_time: 45_200,
            error_rate: 0,
            uptime: 2_592_000,
            replicas: 1,
            ready_replicas: 1,
            health_status: HealthStatus::Healthy,
            health_endpoint: "postgres://postgres.homelab.svc.cluster.local:5432/homelab"@,
            last_health_check: 1_733_318_420,
            health_response_time: 12_800,
            consecutive_failures: 0,
        },
        ServiceMetricsView {
            name: "redis-0"@,
            namespace: "homelab"@,
            status: "Running"@,
            cpu_usage: 3_200,
            memory_usage: 18_900,
            requests_per_sec: 280_500,
            response_time: 12_300,
            error_rate: 0,
            uptime: 1_814_400,
            replicas: 1,
            ready_replicas: 1,
            health_status: HealthStatus::Healthy,
            health_endpoint: "redis://redis.homelab.svc.cluster.local:6379"@,
            last_health_check: 1_733_318_435,
            health_response_time: 8_400,
            consecutive_failures: 0,
        },
        ServiceMetricsView {
            name: "prometheus-0"@,
            namespace: "homelab"@,
            status: "Running"@,
            cpu_usage: 22_400,
            memory_usage: 42_100,
            requests_per_sec: 89_300,
            response_time: 89_700,
            error_rate: 0,
            uptime: 2_160_000,
            replicas: 1,
            ready_replicas: 1,
            health_status: HealthStatus::Healthy,
            health_endpoint: "http://prometheus.homelab.svc.cluster.local:9090/-/healthy"@,
            last_health_check: 1_733_318_450,
            health_response_time: 15_300,
            consecutive_failures: 0,
        },
        ServiceMetricsView {
            name: "grafana-0"@,
            namespace: "homelab"@,
            status: "Running"@,
            cpu_usage: 12_800,
            memory_usage: 28_300,
            requests_per_sec: 23_400,
            response_time: 156_800,
            error_rate: 100,
            uptime: 1_555_200,
            replicas: 1,
            ready_replicas: 1,
            health_status: HealthStatus::Healthy,
            health_endpoint: "http://grafana.homelab.svc.cluster.local:3000/api/health"@,
            last_health_check: 1_733_318_465,
            health_response_time: 22_100,
            consecutive_failures: 0,
        },
        ServiceMetricsView {
            name: "qdrant-0"@,
            namespace: "homelab"@,
            status: "Running"@,
            cpu_usage: 18_500,
            memory_usage: 38_700,
            requests_per_sec: 67_200,
            response_time: 234_500,
            error_rate: 300,
            uptime: 1_036_800,
            replicas: 1,
            ready_replicas: 1,
            health_status: HealthStatus::Degraded,
            health_endpoint: "http://qdrant.homelab.svc.cluster.local:6333/health"@,
            last_health_check: 1_733_318_480,
            health_response_time: 125_600,
            consecutive_failures: 2,
        },
        ServiceMetricsView {
            name: "flowise-0"@,
            namespace: "homelab"@,
            status: "Running"@,
            cpu_usage: 25_900,
            memory_usage: 45_200,
            requests_per_sec: 34_600,
            response_time: 456_700,
            error_rate: 1_200,
            uptime: 864_000,
            replicas: 1,
            ready_replicas: 1,
            health_status: HealthStatus::Unhealthy,
            health_endpoint: "http://flowise.homelab.svc.cluster.local:3000/api/v1/health"@,
            last_health_check: 1_733_318_490,
            health_response_time: 0,
            consecutive_failures: 5,
        },
    ]
}

/// The names of the synthetic snapshot are pairwise distinct.
pub proof fn lemma_mock_names_unique()
    ensures
        forall|i: int, j: int|
            0 <= i < mock_nodes().len() && 0 <= j < mock_nodes().len() && i != j
                ==> mock_nodes()[i].name != mock_nodes()[j].name,
        forall|i: int, j: int|
            0 <= i < mock_services().len() && 0 <= j < mock_services().len() && i != j
                ==> mock_services()[i].name != mock_services()[j].name,
{
    reveal_strlit("pesubuntu");
    reveal_strlit("asuna");
    reveal_strlit("n8n-0");
    reveal_strlit("postgres-0");
    reveal_strlit("redis-0");
    reveal_strlit("prometheus-0");
    reveal_strlit("grafana-0");
    reveal_strlit("qdrant-0");
    reveal_strlit("flowise-0");
    let nodes = mock_nodes();
    assert(nodes.len() == 2);
    assert(nodes[0].name.len() == 9 && nodes[1].name.len() == 5);
    let services = mock_services();
    assert(services.len() == 7);
    assert(services[0].name.len() == 5);
    assert(services[1].name.len() == 10);
    assert(services[2].name.len() == 7);
    assert(services[3].name.len() == 12);
    assert(services[4].name.len() == 9 && services[4].name[0] == 'g');
    assert(services[5].name.len() == 8);
    assert(services[6].name.len() == 9 && services[6].name[0] == 'f');
}

/// Produces the full synthetic snapshot: two nodes and seven services with
/// fixed identities, hardware descriptors and plausible live values.
///
/// The result is the same on every call; it is the only source from which
/// the dashboard takes its identity set when no backend has answered.
pub fn generate_mock_metrics() -> (snapshot: (Vec<NodeMetrics>, Vec<ServiceMetrics>))
    ensures
        node_views(snapshot.0@) == mock_nodes(),
        service_views(snapshot.1@) == mock_services(),
        unique_names(snapshot.0@),
        unique_names(snapshot.1@),
{
    let mut nodes: Vec<NodeMetrics> = Vec::new();
    let mut services: Vec<ServiceMetrics> = Vec::new();

    nodes.push(
        NodeMetrics {
            name: "pesubuntu".to_string(),
            ip_address: "192.168.8.106".to_string(),
            status: "Ready".to_string(),
            cpu_usage: 25_300,
            memory_usage: 45_200,
            memory_total: 34_359_738_368,
            gpu_usage: 67_800,
            gpu_memory: 55_400,
            gpu_memory_total: 17_179_869_184,
            network_rx: 450_200,
            network_tx: 320_800,
            disk_usage: 52_300,
            uptime: 604_800,
            temperature: 65_200,
            cpu_model: "Intel Core i5-12400F".to_string(),
            cpu_cores: 6,
            cpu_threads: 12,
            memory_total_gb: 32_000,
            gpu_model: "AMD Radeon RX 7800 XT".to_string(),
            disk_total_gb: 937_000,
        },
    );
    nodes.push(
        NodeMetrics {
            name: "asuna".to_string(),
            ip_address: "192.168.8.185".to_string(),
            status: "Ready".to_string(),
            cpu_usage: 42_700,
            memory_usage: 68_900,
            memory_total: 8_589_934_592,
            gpu_usage: 0,
            gpu_memory: 0,
            gpu_memory_total: 0,
            network_rx: 125_400,
            network_tx: 98_700,
            disk_usage: 78_500,
            uptime: 2_592_000,
            temperature: 42_100,
            cpu_model: "Intel Core i7-4510U".to_string(),
            cpu_cores: 2,
            cpu_threads: 4,
            memory_total_gb: 8_000,
            gpu_model: "Integrated Intel HD Graphics".to_string(),
            disk_total_gb: 98_000,
        },
    );

    services.push(
        ServiceMetrics {
            name: "n8n-0".to_string(),
            namespace: "homelab".to_string(),
            status: "Running".to_string(),
            cpu_usage: 15_200,
            memory_usage: 35_800,
            requests_per_sec: 45_300,
            response_time: 125_400,
            error_rate: 200,
            uptime: 1_209_600,
            replicas: 1,
            ready_replicas: 1,
            health_status: HealthStatus::Healthy,
            health_endpoint: "http://n8n.homelab.svc.cluster.local:5678/healthz".to_string(),
            last_health_check: 1_733_318_400,
            health_response_time: 45_200,
            consecutive_failures: 0,
        },
    );
    services.push(
        ServiceMetrics {
            name: "postgres-0".to_string(),
            namespace: "homelab".to_string(),
            status: "Running".to_string(),
            cpu_usage: 8_700,
            memory_usage: 25_400,
            requests_per_sec: 125_800,
            response_time: 45_200,
            error_rate: 0,
            uptime: 2_592_000,
            replicas: 1,
            ready_replicas: 1,
            health_status: HealthStatus::Healthy,
            health_endpoint: "postgres://postgres.homelab.svc.cluster.local:5432/homelab".to_string(),
            last_health_check: 1_733_318_420,
            health_response_time: 12_800,
            consecutive_failures: 0,
        },
    );
    services.push(
        ServiceMetrics {
            name: "redis-0".to_string(),
            namespace: "homelab".to_string(),
            status: "Running".to_string(),
            cpu_usage: 3_200,
            memory_usage: 18_900,
            requests_per_sec: 280_500,
            response_time: 12_300,
            error_rate: 0,
            uptime: 1_814_400,
            replicas: 1,
            ready_replicas: 1,
            health_status: HealthStatus::Healthy,
            health_endpoint: "redis://redis.homelab.svc.cluster.local:6379".to_string(),
            last_health_check: 1_733_318_435,
            health_response_time: 8_400,
            consecutive_failures: 0,
        },
    );
    services.push(
        ServiceMetrics {
            name: "prometheus-0".to_string(),
            namespace: "homelab".to_string(),
            status: "Running".to_string(),
            cpu_usage: 22_400,
            memory_usage: 42_100,
            requests_per_sec: 89_300,
            response_time: 89_700,
            error_rate: 0,
            uptime: 2_160_000,
            replicas: 1,
            ready_replicas: 1,
            health_status: HealthStatus::Healthy,
            health_endpoint: "http://prometheus.homelab.svc.cluster.local:9090/-/healthy".to_string(),
            last_health_check: 1_733_318_450,
            health_response_time: 15_300,
            consecutive_failures: 0,
        },
    );
    services.push(
        ServiceMetrics {
            name: "grafana-0".to_string(),
            namespace: "homelab".to_string(),
            status: "Running".to_string(),
            cpu_usage: 12_800,
            memory_usage: 28_300,
            requests_per_sec: 23_400,
            response_time: 156_800,
            error_rate: 100,
            uptime: 1_555_200,
            replicas: 1,
            ready_replicas: 1,
            health_status: HealthStatus::Healthy,
            health_endpoint: "http://grafana.homelab.svc.cluster.local:3000/api/health".to_string(),
            last_health_check: 1_733_318_465,
            health_response_time: 22_100,
            consecutive_failures: 0,
        },
    );
    services.push(
        ServiceMetrics {
            name: "qdrant-0".to_string(),
            namespace: "homelab".to_string(),
            status: "Running".to_string(),
            cpu_usage: 18_500,
            memory_usage: 38_700,
            requests_per_sec: 67_200,
            response_time: 234_500,
            error_rate: 300,
            uptime: 1_036_800,
            replicas: 1,
            ready_replicas: 1,
            health_status: HealthStatus::Degraded,
            health_endpoint: "http://qdrant.homelab.svc.cluster.local:6333/health".to_string(),
            last_health_check: 1_733_318_480,
            health_response_time: 125_600,
            consecutive_failures: 2,
        },
    );
    services.push(
        ServiceMetrics {
            name: "flowise-0".to_string(),
            namespace: "homelab".to_string(),
            status: "Running".to_string(),
            cpu_usage: 25_900,
            memory_usage: 45_200,
            requests_per_sec: 34_600,
            response_time: 456_700,
            error_rate: 1_200,
            uptime: 864_000,
            replicas: 1,
            ready_replicas: 1,
            health_status: HealthStatus::Unhealthy,
            health_endpoint: "http://flowise.homelab.svc.cluster.local:3000/api/v1/health".to_string(),
            last_health_check: 1_733_318_490,
            health_response_time: 0,
            consecutive_failures: 5,
        },
    );

    proof {
        assert(node_views(nodes@) =~= mock_nodes());
        assert(service_views(services@) =~= mock_services());
        lemma_mock_names_unique();
        assert(unique_names(nodes@)) by {
            let names = names_of(nodes@);
            assert forall|i: int, j: int|
                0 <= i < names.len() && 0 <= j < names.len() && i != j implies names[i]
                != names[j] by {
                assert(names[i] == mock_nodes()[i].name);
                assert(names[j] == mock_nodes()[j].name);
            }
        }
        assert(unique_names(services@)) by {
            let names = names_of(services@);
            assert forall|i: int, j: int|
                0 <= i < names.len() && 0 <= j < names.len() && i != j implies names[i]
                != names[j] by {
                assert(names[i] == mock_services()[i].name);
                assert(names[j] == mock_services()[j].name);
            }
        }
    }
    (nodes, services)
}

} // verus!
