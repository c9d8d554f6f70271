use monitorium::app::{ActivePanel, App, ConnectionStatus, CurrentTab, FilterState};
use monitorium::config::Config;
use monitorium::mock_data::{generate_mock_metrics, HealthStatus};
use monitorium::prometheus_client::{
    PrometheusClient, PrometheusConfig, PrometheusData, PrometheusResponse, QueryResults,
};
use monitorium::theme::{Theme, ThemeColors};

fn client() -> PrometheusClient {
    PrometheusClient::new(PrometheusConfig::default())
}

#[test]
fn a_new_filter_state_filters_nothing() {
    let f = FilterState::new();
    assert_eq!(
        f,
        FilterState {
            enabled: false,
            selected_node: None,
            selected_namespace: None,
            selected_service: None,
        }
    );
}

#[test]
fn the_synthetic_snapshot_has_a_fixed_identity_set() {
    let (nodes, services) = generate_mock_metrics();
    let node_names: Vec<&str> = nodes.iter().map(|n| n.name.as_str()).collect();
    assert_eq!(node_names, vec!["pesubuntu", "asuna"]);
    let service_names: Vec<&str> = services.iter().map(|s| s.name.as_str()).collect();
    assert_eq!(
        service_names,
        vec!["n8n-0", "postgres-0", "redis-0", "prometheus-0", "grafana-0", "qdrant-0", "flowise-0"]
    );
    assert_eq!(generate_mock_metrics(), (nodes, services));
}

#[test]
fn the_synthetic_snapshot_in_detail() {
    let (nodes, services) = generate_mock_metrics();
    let p = &nodes[0];
    assert_eq!(p.ip_address, "192.168.8.106");
    assert_eq!(p.status, "Ready");
    assert_eq!(p.cpu_usage, 25_300);
    assert_eq!(p.memory_usage, 45_200);
    assert_eq!(p.memory_total, 32 * 1024 * 1024 * 1024);
    assert_eq!(p.gpu_usage, 67_800);
    assert_eq!(p.gpu_memory, 55_400);
    assert_eq!(p.gpu_memory_total, 16 * 1024 * 1024 * 1024);
    assert_eq!(p.network_rx, 450_200);
    assert_eq!(p.network_tx, 320_800);
    assert_eq!(p.disk_usage, 52_300);
    assert_eq!(p.uptime, 86_400 * 7);
    assert_eq!(p.temperature, 65_200);
    assert_eq!(p.cpu_model, "Intel Core i5-12400F");
    assert_eq!(p.cpu_cores, 6);
    assert_eq!(p.cpu_threads, 12);
    assert_eq!(p.memory_total_gb, 32_000);
    assert_eq!(p.gpu_model, "AMD Radeon RX 7800 XT");
    assert_eq!(p.disk_total_gb, 937_000);
    let a = &nodes[1];
    assert_eq!(a.ip_address, "192.168.8.185");
    assert_eq!(a.cpu_usage, 42_700);
    assert_eq!(a.memory_total, 8 * 1024 * 1024 * 1024);
    assert_eq!(a.gpu_memory_total, 0);
    assert_eq!(a.uptime, 86_400 * 30);
    assert_eq!(a.gpu_model, "Integrated Intel HD Graphics");
    assert_eq!(a.disk_total_gb, 98_000);

    let q = &services[5];
    assert_eq!(q.name, "qdrant-0");
    assert_eq!(q.namespace, "homelab");
    assert_eq!(q.status, "Running");
    assert_eq!(q.cpu_usage, 18_500);
    assert_eq!(q.memory_usage, 38_700);
    assert_eq!(q.requests_per_sec, 67_200);
    assert_eq!(q.response_time, 234_500);
    assert_eq!(q.error_rate, 300);
    assert_eq!(q.uptime, 86_400 * 12);
    assert_eq!(q.replicas, 1);
    assert_eq!(q.ready_replicas, 1);
    assert_eq!(q.health_status, HealthStatus::Degraded);
    assert_eq!(q.health_endpoint, "http://qdrant.homelab.svc.cluster.local:6333/health");
    assert_eq!(q.last_health_check, 1_733_318_480);
    assert_eq!(q.health_response_time, 125_600);
    assert_eq!(q.consecutive_failures, 2);
    assert_eq!(services[6].health_status, HealthStatus::Unhealthy);
    assert_eq!(services[6].consecutive_failures, 5);
    assert_eq!(services[0].health_status, HealthStatus::Healthy);
}

#[test]
fn records_can_be_copied() {
    let (nodes, services) = generate_mock_metrics();
    assert_eq!(nodes[0].duplicate(), nodes[0]);
    assert_eq!(services[3].duplicate(), services[3]);
    assert_eq!(monitorium::mock_data::copy_nodes(&nodes), nodes);
    assert_eq!(monitorium::mock_data::copy_services(&services), services);
}

#[test]
fn without_an_answer_the_dashboard_is_seeded_from_the_synthetic_snapshot() {
    let app = App::new_with_config(Config::default(), client(), Ok(false));
    let (nodes, services) = generate_mock_metrics();
    assert_eq!(app.nodes, nodes);
    assert_eq!(app.services, services);
    assert_eq!(app.connection_status, ConnectionStatus::Disconnected("No response".to_string()));
}

#[test]
fn after_a_failed_probe_the_dashboard_is_seeded_and_keeps_the_reason() {
    let app =
        App::new_with_config(Config::default(), client(), Err("connection refused".to_string()));
    let (nodes, services) = generate_mock_metrics();
    assert_eq!(app.nodes, nodes);
    assert_eq!(app.services, services);
    assert_eq!(
        app.connection_status,
        ConnectionStatus::Disconnected("connection refused".to_string())
    );
}

fn answered() -> QueryResults {
    let mut results = QueryResults::none();
    results.node_memory = Some(PrometheusResponse {
        status: "success".to_string(),
        data: PrometheusData { result_type: "vector".to_string(), result: vec![] },
    });
    results
}

#[test]
fn with_a_first_fetch_the_dashboard_takes_the_candidates() {
    let mut c = client();
    assert_eq!(c.update_metrics(0, &answered()), Ok(true));
    let app = App::new_with_config(Config::default(), c, Ok(true));
    assert_eq!(app.connection_status, ConnectionStatus::Connected);
    assert_eq!(app.nodes.len(), 2);
    assert_eq!(app.nodes[0].cpu_usage, 25_000);
    assert_eq!(app.services.len(), 7);
    assert_eq!(app.services[0].health_status, HealthStatus::Unknown);
    assert_eq!(&app.nodes, app.prometheus_client.get_nodes());
    assert_eq!(&app.services, app.prometheus_client.get_services());
}

#[test]
fn after_a_first_fetch_without_any_answer_the_dashboard_is_seeded() {
    let mut c = client();
    let mut failed = QueryResults::none();
    failed.error = Some("HTTP 502".to_string());
    let outcome = c.update_metrics(0, &failed);
    assert_eq!(outcome, Err("HTTP 502".to_string()));
    let app = App::new_with_config(Config::default(), c, outcome);
    let (nodes, services) = generate_mock_metrics();
    assert_eq!(app.nodes, nodes);
    assert_eq!(app.services, services);
    assert_eq!(app.connection_status, ConnectionStatus::Disconnected("HTTP 502".to_string()));
}

#[test]
fn an_adapter_that_never_took_a_fetch_cannot_seed_the_dashboard() {
    let app = App::new_with_config(Config::default(), client(), Ok(true));
    let (nodes, services) = generate_mock_metrics();
    assert_eq!(app.nodes, nodes);
    assert_eq!(app.services, services);
    assert_eq!(app.connection_status, ConnectionStatus::Disconnected("No response".to_string()));
}

#[test]
fn the_initial_navigation_state() {
    let app = App::new_with_config(Config::default(), client(), Ok(false));
    assert_eq!(app.title, "Monitorium - Homelab Monitoring");
    assert!(!app.should_quit);
    assert_eq!(app.current_tab, CurrentTab::Overview);
    assert_eq!(app.active_panel, ActivePanel::Nodes);
    assert_eq!(app.selected_node_index, 0);
    assert_eq!(app.selected_service_index, 0);
    assert_eq!(app.selected_item_index, 0);
    assert_eq!(app.filter, FilterState::new());
    assert!(app.selected_items.is_empty());
    assert_eq!(app.tick_count, 0);
    assert!(app.node_history.is_empty());
    assert!(app.service_history.is_empty());
    assert_eq!(app.config, Config::default());
}

#[test]
fn the_theme_comes_from_the_configuration() {
    let mut config = Config::default();
    config.general.theme = "nord".to_string();
    let app = App::new_with_config(config, client(), Ok(false));
    assert_eq!(app.current_theme, Theme::Nord);
    assert_eq!(app.theme_colors, ThemeColors::from_theme(Theme::Nord));
    let app = App::new_with_config(Config::default(), client(), Ok(false));
    assert_eq!(app.current_theme, Theme::Default);
    assert_eq!(app.theme_colors, ThemeColors::from_theme(Theme::Default));
}
