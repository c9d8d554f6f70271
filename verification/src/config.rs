//! The configuration record: its shape, its defaults and its validation.
//!
//! Reading and writing the record is left to the program around the
//! library; this module only says what a configuration is and when it can
//! be used.

use vstd::prelude::*;
use vstd::string::StringExecFns;

verus! {

/// The characters of an optional text.
pub open spec fn text_of(text: Option<String>) -> Option<Seq<char>> {
    match text {
        Some(t) => Some(t@),
        None => None,
    }
}

/// A key with its value, as in a label set or a header list.
#[derive(Debug, Clone, PartialEq, Eq)]
pub struct KeyValue {
    pub key: String,
    pub value: String,
}

impl KeyValue {
    /// The pair `key`, `value`.
    pub fn new(key: &str, value: &str) -> (pair: KeyValue)
        ensures
            pair.key@ == key@,
            pair.value@ == value@,
    {
        KeyValue { key: key.to_string(), value: value.to_string() }
    }
}

/// The whole configuration.
#[derive(Debug, Clone, PartialEq, Eq)]
pub struct Config {
    pub general: GeneralConfig,
    pub prometheus: PrometheusConfig,
    pub health_checks: HealthCheckConfig,
    pub nodes: NodeConfig,
    pub ui: UiConfig,
    pub logging: LoggingConfig,
}

/// General settings.
#[derive(Debug, Clone, PartialEq, Eq)]
pub struct GeneralConfig {
    /// Seconds between two collections of metrics.
    pub update_interval_secs: u64,
    /// Samples kept per history series.
    pub history_retention: usize,
    pub connection_timeout_secs: u64,
    pub fullscreen: bool,
    /// Name of the colour theme.
    pub theme: String,
}

/// The metrics backend and the queries sent to it.
#[derive(Debug, Clone, PartialEq, Eq)]
pub struct PrometheusConfig {
    pub url: String,
    pub timeout_secs: u64,
    pub query_interval_secs: u64,
    pub node_queries: NodeQueries,
    pub service_queries: ServiceQueries,
    pub auth: Option<PrometheusAuth>,
}

/// The query of each node metric.
#[derive(Debug, Clone, PartialEq, Eq)]
pub struct NodeQueries {
    pub cpu_usage: String,
    pub memory_usage: String,
    pub gpu_usage: Option<String>,
    pub network_rx: String,
    pub network_tx: String,
    pub disk_usage: String,
    pub temperature: Option<String>,
}

/// The query of each service metric.
#[derive(Debug, Clone, PartialEq, Eq)]
pub struct ServiceQueries {
    pub service_status: String,
    pub cpu_usage: String,
    pub memory_usage: String,
    pub requests_per_sec: String,
    pub response_time: String,
    pub error_rate: String,
}

/// Credentials for the metrics backend.
#[derive(Debug, Clone, PartialEq, Eq)]
pub struct PrometheusAuth {
    pub username: String,
    pub password: String,
    pub bearer_token: Option<String>,
}

/// Health probing of services.
#[derive(Debug, Clone, PartialEq, Eq)]
pub struct HealthCheckConfig {
    pub enabled: bool,
    pub interval_secs: u64,
    pub timeout_secs: u64,
    /// Consecutive failures after which a service counts as unhealthy.
    pub failure_threshold: u32,
    pub services: Vec<ServiceHealthCheck>,
}

/// The health probe of one service.
#[derive(Debug, Clone, PartialEq, Eq)]
pub struct ServiceHealthCheck {
    pub name: String,
    pub endpoint: String,
    pub method: String,
    pub expected_status: Vec<u16>,
    pub headers: Option<Vec<KeyValue>>,
    pub body: Option<String>,
    pub enabled: bool,
    pub timeout_secs: Option<u64>,
    pub response_time_threshold_ms: Option<u64>,
}

/// The monitored nodes.
#[derive(Debug, Clone, PartialEq, Eq)]
pub struct NodeConfig {
    pub nodes: Vec<NodeConfigEntry>,
    pub defaults: NodeDefaults,
}

/// One monitored node.
#[derive(Debug, Clone, PartialEq, Eq)]
pub struct NodeConfigEntry {
    pub name: String,
    pub address: String,
    pub labels: Option<Vec<KeyValue>>,
    pub overrides: Option<NodeDefaults>,
}

/// Display settings of a node.
#[derive(Debug, Clone, PartialEq, Eq)]
pub struct NodeDefaults {
    pub display_name: Option<String>,
    pub temperature_unit: String,
    pub network_unit: String,
    pub show_gpu: bool,
}

/// Settings of the user interface.
#[derive(Debug, Clone, PartialEq, Eq)]
pub struct UiConfig {
    /// Milliseconds between two redraws.
    pub refresh_rate_ms: u64,
    pub show_graphs: bool,
    pub show_service_logs: bool,
    pub show_health_checks: bool,
    pub max_log_lines: usize,
    pub colors: Option<ColorConfig>,
    pub layout: LayoutConfig,
}

/// Colours that replace those of the theme, as hex codes.
#[derive(Debug, Clone, PartialEq, Eq)]
pub struct ColorConfig {
    pub primary: Option<String>,
    pub success: Option<String>,
    pub warning: Option<String>,
    pub danger: Option<String>,
    pub text: Option<String>,
    pub border: Option<String>,
}

/// How the panels share the screen, in percent.
#[derive(Debug, Clone, PartialEq, Eq)]
pub struct LayoutConfig {
    pub main_split: Vec<u16>,
    pub service_split: Vec<u16>,
    pub node_split: Vec<u16>,
}

/// Logging.
#[derive(Debug, Clone, PartialEq, Eq)]
pub struct LoggingConfig {
    pub level: String,
    pub log_to_file: bool,
    pub log_file: Option<String>,
    pub log_health_checks: bool,
    pub log_prometheus_queries: bool,
    pub max_file_size_mb: u64,
    pub max_files: u32,
}

/// Why a configuration cannot be used.
#[derive(Debug, Clone, PartialEq, Eq)]
pub enum ConfigError {
    /// The address of the metrics backend is empty.
    EmptyPrometheusUrl,
    /// The update interval is zero.
    ZeroUpdateInterval,
    /// The named service has its health probe enabled but no endpoint.
    EmptyHealthEndpoint(String),
}

impl ServiceHealthCheck {
    /// The probe is switched on but has nowhere to go.
    pub open spec fn unusable(&self) -> bool {
        self.enabled && self.endpoint@.len() == 0
    }

    /// The probe is an HTTP GET that expects status 200, with no headers
    /// and no body, and is switched on.
    pub open spec fn is_http_get(
        &self,
        name: Seq<char>,
        endpoint: Seq<char>,
        timeout_secs: u64,
        threshold_ms: u64,
    ) -> bool {
        &&& self.name@ == name
        &&& self.endpoint@ == endpoint
        &&& self.method@ == "GET"@
        &&& self.expected_status@ == seq![200u16]
        &&& self.headers is None
        &&& self.body is None
        &&& self.enabled
        &&& self.timeout_secs == Some(timeout_secs)
        &&& self.response_time_threshold_ms == Some(threshold_ms)
    }

    /// An enabled HTTP GET probe that expects status 200.
    pub fn http_get(name: &str, endpoint: &str, timeout_secs: u64, threshold_ms: u64) -> (probe:
        ServiceHealthCheck)
        ensures
            probe.is_http_get(name@, endpoint@, timeout_secs, threshold_ms),
    {
        let mut expected_status: Vec<u16> = Vec::new();
        expected_status.push(200);
        proof {
            assert(expected_status@ =~= seq![200u16]);
        }
        ServiceHealthCheck {
            name: name.to_string(),
            endpoint: endpoint.to_string(),
            method: "GET".to_string(),
            expected_status,
            headers: None,
            body: None,
            enabled: true,
            timeout_secs: Some(timeout_secs),
            response_time_threshold_ms: Some(threshold_ms),
        }
    }
}

/// `i` is the first probe of `checks` that is switched on without an
/// endpoint.
pub open spec fn first_unusable(checks: Seq<ServiceHealthCheck>, i: int) -> bool {
    &&& 0 <= i < checks.len()
    &&& checks[i].unusable()
    &&& forall|j: int| 0 <= j < i ==> !(#[trigger] checks[j]).unusable()
}

impl Config {
    /// The configuration can be used: the backend has an address, the
    /// update interval is positive, and every enabled health probe has an
    /// endpoint.
    pub open spec fn usable(&self) -> bool {
        &&& self.prometheus.url@.len() > 0
        &&& self.general.update_interval_secs > 0
        &&& forall|i: int|
            0 <= i < self.health_checks.services@.len() ==> !(
            #[trigger] self.health_checks.services@[i]).unusable()
    }

    /// Checks that the configuration can be used, and says what is wrong
    /// with it otherwise.
    ///
    /// The address of the backend is checked first, then the update
    /// interval, then the health probes in their order; the first fault
    /// found is the one reported.
    pub fn validate(&self) -> (checked: Result<(), ConfigError>)
        ensures
            match checked {
                Ok(()) => self.usable(),
                Err(ConfigError::EmptyPrometheusUrl) => self.prometheus.url@.len() == 0,
                Err(ConfigError::ZeroUpdateInterval) => {
                    &&& self.prometheus.url@.len() > 0
                    &&& self.general.update_interval_secs == 0
                },
                Err(ConfigError::EmptyHealthEndpoint(name)) => {
                    &&& self.prometheus.url@.len() > 0
                    &&& self.general.update_interval_secs > 0
                    &&& exists|i: int|
                        first_unusable(self.health_checks.services@, i) && name@
                            == self.health_checks.services@[i].name@
                },
            },
    {
        if self.prometheus.url.as_str().is_empty() {
            return Err(ConfigError::EmptyPrometheusUrl);
        }
        if self.general.update_interval_secs == 0 {
            return Err(ConfigError::ZeroUpdateInterval);
        }
        let services = &self.health_checks.services;
        let mut i: usize = 0;
        while i < services.len()
            invariant
                i <= services.len(),
                services == &self.health_checks.services,
                self.prometheus.url@.len() > 0,
                self.general.update_interval_secs > 0,
                forall|j: int| 0 <= j < i ==> !(#[trigger] services@[j]).unusable(),
            decreases services.len() - i,
        {
            let service = &services[i];
            if service.enabled && service.endpoint.as_str().is_empty() {
                let name = service.name.clone();
                proof {
                    assert(first_unusable(self.health_checks.services@, i as int));
                    assert(name@ == self.health_checks.services@[i as int].name@);
                }
                return Err(ConfigError::EmptyHealthEndpoint(name));
            }
            i += 1;
        }
        Ok(())
    }
}

impl ConfigError {
    /// The fault in words.
    pub open spec fn message_view(&self) -> Seq<char> {
        match self {
            ConfigError::EmptyPrometheusUrl => "Prometheus URL cannot be empty"@,
            ConfigError::ZeroUpdateInterval => "Update interval must be greater than 0"@,
            ConfigError::EmptyHealthEndpoint(name) => "Service "@ + name@
                + " has health check enabled but empty endpoint"@,
        }
    }

    /// The fault in words.
    pub fn message(&self) -> (text: String)
        ensures
            text@ == self.message_view(),
    {
        match self {
            ConfigError::EmptyPrometheusUrl => "Prometheus URL cannot be empty".to_string(),
            ConfigError::ZeroUpdateInterval => "Update interval must be greater than 0".to_string(),
            ConfigError::EmptyHealthEndpoint(name) => {
                let mut text = "Service ".to_string();
                text.append(name.as_str());
                text.append(" has health check enabled but empty endpoint");
                text
            },
        }
    }
}

impl GeneralConfig {
    /// The settings are the default ones.
    pub open spec fn is_default(&self) -> bool {
        &&& self.update_interval_secs == 5
        &&& self.history_retention == 60
        &&& self.connection_timeout_secs == 10
        &&& !self.fullscreen
        &&& self.theme@ == "default"@
    }
}

impl Default for GeneralConfig {
    fn default() -> (config: GeneralConfig)
        ensures
            config.is_default(),
    {
        GeneralConfig {
            update_interval_secs: 5,
            history_retention: 60,
            connection_timeout_secs: 10,
            fullscreen: false,
            theme: "default".to_string(),
        }
    }
}

impl NodeQueries {
    /// The queries are the default ones.
    pub open spec fn is_default(&self) -> bool {
        &&& self.cpu_usage@ == "100 - (avg by (instance) (irate(node_cpu_seconds_total{mode=\"idle\"}[5m])) * 100)"@
        &&& self.memory_usage@ == "((1 - (node_memory_MemAvailable_bytes / node_memory_MemTotal_bytes)) * 100)"@
        &&& self.gpu_usage is None
        &&& self.network_rx@ == "irate(node_network_receive_bytes_total[5m]) / 1024 / 1024"@
        &&& self.network_tx@ == "irate(node_network_transmit_bytes_total[5m]) / 1024 / 1024"@
        &&& self.disk_usage@ == "((1 - (node_filesystem_avail_bytes{mountpoint=\"/\"} / node_filesystem_size_bytes{mountpoint=\"/\"})) * 100)"@
        &&& text_of(self.temperature) == Some("node_hwmon_temp_celsius"@)
    }
}

impl Default for NodeQueries {
    fn default() -> (queries: NodeQueries)
        ensures
            queries.is_default(),
    {
        NodeQueries {
            cpu_usage: "100 - (avg by (instance) (irate(node_cpu_seconds_total{mode=\"idle\"}[5m])) * 100)".to_string(),
            memory_usage: "((1 - (node_memory_MemAvailable_bytes / node_memory_MemTotal_bytes)) * 100)".to_string(),
            gpu_usage: None,
            network_rx: "irate(node_network_receive_bytes_total[5m]) / 1024 / 1024".to_string(),
            network_tx: "irate(node_network_transmit_bytes_total[5m]) / 1024 / 1024".to_string(),
            disk_usage: "((1 - (node_filesystem_avail_bytes{mountpoint=\"/\"} / node_filesystem_size_bytes{mountpoint=\"/\"})) * 100)".to_string(),
            temperature: Some("node_hwmon_temp_celsius".to_string()),
        }
    }
}

impl ServiceQueries {
    /// The queries are the default ones.
    pub open spec fn is_default(&self) -> bool {
        &&& self.service_status@ == "up"@
        &&& self.cpu_usage@ == "rate(container_cpu_usage_seconds_total[5m]) * 100"@
        &&& self.memory_usage@ == "container_memory_usage_bytes / container_spec_memory_limit_bytes * 100"@
        &&& self.requests_per_sec@ == "rate(container_http_requests_total[5m])"@
        &&& self.response_time@ == "histogram_quantile(0.95, rate(container_http_request_duration_seconds_bucket[5m])) * 1000"@
        &&& self.error_rate@ == "rate(container_http_requests_total{status=~\"5..\"}[5m]) / rate(container_http_requests_total[5m]) * 100"@
    }
}

impl Default for ServiceQueries {
    fn default() -> (queries: ServiceQueries)
        ensures
            queries.is_default(),
    {
        ServiceQueries {
            service_status: "up".to_string(),
            cpu_usage: "rate(container_cpu_usage_seconds_total[5m]) * 100".to_string(),
            memory_usage: "container_memory_usage_bytes / container_spec_memory_limit_bytes * 100".to_string(),
            requests_per_sec: "rate(container_http_requests_total[5m])".to_string(),
            response_time: "histogram_quantile(0.95, rate(container_http_request_duration_seconds_bucket[5m])) * 1000".to_string(),
            error_rate: "rate(container_http_requests_total{status=~\"5..\"}[5m]) / rate(container_http_requests_total[5m]) * 100".to_string(),
        }
    }
}

impl PrometheusConfig {
    /// The settings are the default ones.
    pub open spec fn is_default(&self) -> bool {
        &&& self.url@ == "http://100.81.76.55:30090"@
        &&& self.timeout_secs == 10
        &&& self.query_interval_secs == 5
        &&& self.node_queries.is_default()
        &&& self.service_queries.is_default()
        &&& self.auth is None
    }
}

impl PrometheusConfig {
    /// The part of the settings that the metrics adapter works with.
    pub fn adapter(&self) -> (config: crate::prometheus_client::PrometheusConfig)
        ensures
            config.url@ == self.url@,
            config.timeout_secs == self.timeout_secs,
            config.query_interval_secs == self.query_interval_secs,
    {
        crate::prometheus_client::PrometheusConfig {
            url: self.url.clone(),
            timeout_secs: self.timeout_secs,
            query_interval_secs: self.query_interval_secs,
        }
    }
}

impl Default for PrometheusConfig {
    fn default() -> (config: PrometheusConfig)
        ensures
            config.is_default(),
    {
        PrometheusConfig {
            url: "http://100.81.76.55:30090".to_string(),
            timeout_secs: 10,
            query_interval_secs: 5,
            node_queries: NodeQueries::default(),
            service_queries: ServiceQueries::default(),
            auth: None,
        }
    }
}

impl HealthCheckConfig {
    /// The settings are the default ones: probing is on, and five services
    /// are probed with an HTTP GET each.
    pub open spec fn is_default(&self) -> bool {
        &&& self.enabled
        &&& self.interval_secs == 30
        &&& self.timeout_secs == 5
        &&& self.failure_threshold == 3
        &&& self.services@.len() == 5
        &&& self.services@[0].is_http_get(
            "n8n-0"@,
            "http://100.81.76.55:30678/healthz"@,
            5,
            1000,
        )
        &&& self.services@[1].is_http_get(
            "postgres-0"@,
            "http://100.81.76.55:30543/health"@,
            5,
            500,
        )
        &&& self.services@[2].is_http_get(
            "redis-0"@,
            "http://100.81.76.55:30379/health"@,
            3,
            200,
        )
        &&& self.services@[3].is_http_get(
            "prometheus-0"@,
            "http://100.81.76.55:30090/-/healthy"@,
            5,
            500,
        )
        &&& self.services@[4].is_http_get(
            "grafana-0"@,
            "http://100.81.76.55:30300/api/health"@,
            5,
            1000,
        )
    }
}

impl Default for HealthCheckConfig {
    fn default() -> (config: HealthCheckConfig)
        ensures
            config.is_default(),
    {
        let mut services: Vec<ServiceHealthCheck> = Vec::new();
        services.push(ServiceHealthCheck::http_get("n8n-0", "http://100.81.76.55:30678/healthz", 5, 1000));
        services.push(ServiceHealthCheck::http_get("postgres-0", "http://100.81.76.55:30543/health", 5, 500));
        services.push(ServiceHealthCheck::http_get("redis-0", "http://100.81.76.55:30379/health", 3, 200));
        services.push(ServiceHealthCheck::http_get("prometheus-0", "http://100.81.76.55:30090/-/healthy", 5, 500));
        services.push(ServiceHealthCheck::http_get("grafana-0", "http://100.81.76.55:30300/api/health", 5, 1000));
        HealthCheckConfig {
            enabled: true,
            interval_secs: 30,
            timeout_secs: 5,
            failure_threshold: 3,
            services,
        }
    }
}

impl NodeDefaults {
    /// The display settings show temperatures in degrees Celsius and rates
    /// in megabytes per second, under the given name.
    pub open spec fn is_metric(&self, display_name: Option<Seq<char>>, show_gpu: bool) -> bool {
        &&& text_of(self.display_name) == display_name
        &&& self.temperature_unit@ == "C"@
        &&& self.network_unit@ == "MB/s"@
        &&& self.show_gpu == show_gpu
    }

    /// Display settings in degrees Celsius and megabytes per second.
    pub fn metric(display_name: Option<&str>, show_gpu: bool) -> (defaults: NodeDefaults)
        ensures
            defaults.is_metric(
                match display_name {
                    Some(name) => Some(name@),
                    None => None,
                },
                show_gpu,
            ),
    {
        NodeDefaults {
            display_name: match display_name {
                Some(name) => Some(name.to_string()),
                None => None,
            },
            temperature_unit: "C".to_string(),
            network_unit: "MB/s".to_string(),
            show_gpu,
        }
    }
}

impl NodeConfigEntry {
    /// The entry describes a machine of the home cluster: it carries the
    /// labels `type` and `location`, and metric display settings.
    pub open spec fn is_homelab(
        &self,
        name: Seq<char>,
        address: Seq<char>,
        kind: Seq<char>,
        display_name: Seq<char>,
        show_gpu: bool,
    ) -> bool {
        &&& self.name@ == name
        &&& self.address@ == address
        &&& self.labels matches Some(labels)
        &&& labels@.len() == 2
        &&& labels@[0].key@ == "type"@
        &&& labels@[0].value@ == kind
        &&& labels@[1].key@ == "location"@
        &&& labels@[1].value@ == "homelab"@
        &&& self.overrides matches Some(overrides)
        &&& overrides.is_metric(Some(display_name), show_gpu)
    }

    /// An entry for a machine of the home cluster.
    pub fn homelab(name: &str, address: &str, kind: &str, display_name: &str, show_gpu: bool) -> (entry:
        NodeConfigEntry)
        ensures
            entry.is_homelab(name@, address@, kind@, display_name@, show_gpu),
    {
        let mut labels: Vec<KeyValue> = Vec::new();
        labels.push(KeyValue::new("type", kind));
        labels.push(KeyValue::new("location", "homelab"));
        NodeConfigEntry {
            name: name.to_string(),
            address: address.to_string(),
            labels: Some(labels),
            overrides: Some(NodeDefaults::metric(Some(display_name), show_gpu)),
        }
    }
}

impl NodeConfig {
    /// The settings are the default ones: the compute node and the service
    /// node of the home cluster.
    pub open spec fn is_default(&self) -> bool {
        &&& self.nodes@.len() == 2
        &&& self.nodes@[0].is_homelab(
            "pesubuntu"@,
            "100.72.98.106"@,
            "compute"@,
            "Compute Node"@,
            true,
        )
        &&& self.nodes@[1].is_homelab(
            "asuna"@,
            "100.81.76.55"@,
            "service"@,
            "Service Node"@,
            false,
        )
        &&& self.defaults.is_metric(None, false)
    }
}

impl Default for NodeConfig {
    fn default() -> (config: NodeConfig)
        ensures
            config.is_default(),
    {
        let mut nodes: Vec<NodeConfigEntry> = Vec::new();
        nodes.push(
            NodeConfigEntry::homelab("pesubuntu", "100.72.98.106", "compute", "Compute Node", true),
        );
        nodes.push(
            NodeConfigEntry::homelab("asuna", "100.81.76.55", "service", "Service Node", false),
        );
        NodeConfig { nodes, defaults: NodeDefaults::metric(None, false) }
    }
}

impl LayoutConfig {
    /// The layout is the default one: halves for the main and the node
    /// split, and 40, 35 and 25 percent for the service panel.
    pub open spec fn is_default(&self) -> bool {
        &&& self.main_split@ == seq![50u16, 50u16]
        &&& self.service_split@ == seq![40u16, 35u16, 25u16]
        &&& self.node_split@ == seq![50u16, 50u16]
    }
}

impl Default for LayoutConfig {
    fn default() -> (layout: LayoutConfig)
        ensures
            layout.is_default(),
    {
        let main_split: Vec<u16> = vec![50, 50];
        let service_split: Vec<u16> = vec![40, 35, 25];
        let node_split: Vec<u16> = vec![50, 50];
        proof {
            assert(main_split@ =~= seq![50u16, 50u16]);
            assert(service_split@ =~= seq![40u16, 35u16, 25u16]);
            assert(node_split@ =~= seq![50u16, 50u16]);
        }
        LayoutConfig { main_split, service_split, node_split }
    }
}

impl UiConfig {
    /// The settings are the default ones.
    pub open spec fn is_default(&self) -> bool {
        &&& self.refresh_rate_ms == 250
        &&& self.show_graphs
        &&& self.show_service_logs
        &&& self.show_health_checks
        &&& self.max_log_lines == 10
        &&& self.colors is None
        &&& self.layout.is_default()
    }
}

impl Default for UiConfig {
    fn default() -> (config: UiConfig)
        ensures
            config.is_default(),
    {
        UiConfig {
            refresh_rate_ms: 250,
            show_graphs: true,
            show_service_logs: true,
            show_health_checks: true,
            max_log_lines: 10,
            colors: None,
            layout: LayoutConfig::default(),
        }
    }
}

impl LoggingConfig {
    /// The settings are the default ones.
    pub open spec fn is_default(&self) -> bool {
        &&& self.level@ == "info"@
        &&& !self.log_to_file
        &&& text_of(self.log_file) == Some("monitorium.log"@)
        &&& self.log_health_checks
        &&& !self.log_prometheus_queries
        &&& self.max_file_size_mb == 10
        &&& self.max_files == 5
    }
}

impl Default for LoggingConfig {
    fn default() -> (config: LoggingConfig)
        ensures
            config.is_default(),
    {
        LoggingConfig {
            level: "info".to_string(),
            log_to_file: false,
            log_file: Some("monitorium.log".to_string()),
            log_health_checks: true,
            log_prometheus_queries: false,
            max_file_size_mb: 10,
            max_files: 5,
        }
    }
}

impl Config {
    /// Every part of the configuration is the default one.
    pub open spec fn is_default(&self) -> bool {
        &&& self.general.is_default()
        &&& self.prometheus.is_default()
        &&& self.health_checks.is_default()
        &&& self.nodes.is_default()
        &&& self.ui.is_default()
        &&& self.logging.is_default()
    }
}

impl Default for Config {
    fn default() -> (config: Config)
        ensures
            config.is_default(),
            config.usable(),
    {
        let config = Config {
            general: GeneralConfig::default(),
            prometheus: PrometheusConfig::default(),
            health_checks: HealthCheckConfig::default(),
            nodes: NodeConfig::default(),
            ui: UiConfig::default(),
            logging: LoggingConfig::default(),
        };
        proof {
            lemma_default_is_usable(config);
        }
        config
    }
}

/// The default configuration passes validation.
pub proof fn lemma_default_is_usable(config: Config)
    requires
        config.is_default(),
    ensures
        config.usable(),
{
    reveal_strlit("http://100.81.76.55:30090");
    reveal_strlit("http://100.81.76.55:30678/healthz");
    reveal_strlit("http://100.81.76.55:30543/health");
    reveal_strlit("http://100.81.76.55:30379/health");
    reveal_strlit("http://100.81.76.55:30090/-/healthy");
    reveal_strlit("http://100.81.76.55:30300/api/health");
}

} // verus!
