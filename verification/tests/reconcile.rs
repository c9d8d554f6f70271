use monitorium::app::{App, ConnectionStatus};
use monitorium::config::Config;
use monitorium::drift::{NODE_CPU_STEP_HIGH, NODE_CPU_STEP_LOW};
use monitorium::mock_data::{generate_mock_metrics, HealthStatus, NodeMetrics, ServiceMetrics};
use monitorium::prometheus_client::{
    Label, PrometheusClient, PrometheusConfig, PrometheusData, PrometheusMetric,
    PrometheusResponse, QueryResults,
};
use monitorium::reconcile::{merge_nodes, merge_services};

fn node(name: &str, cpu: i64) -> NodeMetrics {
    NodeMetrics {
        name: name.to_string(),
        ip_address: "10.0.0.1".to_string(),
        status: "Ready".to_string(),
        cpu_usage: cpu,
        memory_usage: 40_000,
        memory_total: 1 << 30,
        gpu_usage: 0,
        gpu_memory: 0,
        gpu_memory_total: 0,
        network_rx: 1_000,
        network_tx: 2_000,
        disk_usage: 50_000,
        uptime: 77,
        temperature: 40_000,
        cpu_model: "Model A".to_string(),
        cpu_cores: 4,
        cpu_threads: 8,
        memory_total_gb: 16_000,
        gpu_model: "None".to_string(),
        disk_total_gb: 500_000,
    }
}

fn service(name: &str, cpu: i64) -> ServiceMetrics {
    ServiceMetrics {
        name: name.to_string(),
        namespace: "homelab".to_string(),
        status: "Running".to_string(),
        cpu_usage: cpu,
        memory_usage: 20_000,
        requests_per_sec: 10_000,
        response_time: 100_000,
        error_rate: 100,
        uptime: 5,
        replicas: 2,
        ready_replicas: 2,
        health_status: HealthStatus::Degraded,
        health_endpoint: "http://s/health".to_string(),
        last_health_check: 1_733_318_400,
        health_response_time: 12_000,
        consecutive_failures: 2,
    }
}

fn answer(instance: &str, sample: i64) -> PrometheusResponse {
    PrometheusResponse {
        status: "success".to_string(),
        data: PrometheusData {
            result_type: "vector".to_string(),
            result: vec![PrometheusMetric {
                metric: vec![Label { name: "instance".to_string(), value: instance.to_string() }],
                value: vec![Some(0), Some(sample)],
            }],
        },
    }
}

fn seeded_app() -> App {
    let client = PrometheusClient::new(PrometheusConfig::default());
    App::new_with_config(Config::default(), client, Ok(false))
}

fn node_names(app: &App) -> Vec<String> {
    app.nodes.iter().map(|n| n.name.clone()).collect()
}

fn service_names(app: &App) -> Vec<String> {
    app.services.iter().map(|s| s.name.clone()).collect()
}

#[test]
fn a_successful_fetch_sets_the_cpu_load_and_keeps_the_hardware() {
    // The backend reports 73.2 % for the node "a".
    let mut current = vec![node("a", 10_000)];
    let mut fresh = node("a", 73_200);
    fresh.cpu_model = "Another model".to_string();
    fresh.cpu_cores = 64;
    fresh.memory_total_gb = 1;
    fresh.ip_address = "10.9.9.9".to_string();
    merge_nodes(&mut current, &vec![fresh]);
    assert_eq!(current[0].cpu_usage, 73_200);
    assert_eq!(current[0].cpu_model, "Model A");
    assert_eq!(current[0].cpu_cores, 4);
    assert_eq!(current[0].cpu_threads, 8);
    assert_eq!(current[0].memory_total_gb, 16_000);
    assert_eq!(current[0].memory_total, 1 << 30);
    assert_eq!(current[0].gpu_model, "None");
    assert_eq!(current[0].disk_total_gb, 500_000);
    assert_eq!(current[0].ip_address, "10.0.0.1");
    assert_eq!(current[0].name, "a");
}

#[test]
fn a_successful_fetch_through_the_dashboard() {
    let mut app = seeded_app();
    let hardware_before: Vec<(String, u32, u32, i64, String, i64)> = app
        .nodes
        .iter()
        .map(|n| {
            (
                n.cpu_model.clone(),
                n.cpu_cores,
                n.cpu_threads,
                n.memory_total_gb,
                n.gpu_model.clone(),
                n.disk_total_gb,
            )
        })
        .collect();
    let mut results = QueryResults::none();
    results.node_cpu = Some(answer("pesubuntu:9100", 73_200));
    app.update_prometheus_metrics(1_000, Ok(results));
    assert_eq!(app.nodes[0].name, "pesubuntu");
    assert_eq!(app.nodes[0].cpu_usage, 73_200);
    assert_eq!(app.connection_status, ConnectionStatus::Connected);
    let hardware_after: Vec<(String, u32, u32, i64, String, i64)> = app
        .nodes
        .iter()
        .map(|n| {
            (
                n.cpu_model.clone(),
                n.cpu_cores,
                n.cpu_threads,
                n.memory_total_gb,
                n.gpu_model.clone(),
                n.disk_total_gb,
            )
        })
        .collect();
    assert_eq!(hardware_after, hardware_before);
    // The other node takes the baseline of the fetch.
    assert_eq!(app.nodes[1].cpu_usage, 42_000);
}

fn empty_answer() -> PrometheusResponse {
    PrometheusResponse {
        status: "success".to_string(),
        data: PrometheusData { result_type: "vector".to_string(), result: vec![] },
    }
}

/// The results of a fetch that was answered but resolved nothing.
fn answered() -> QueryResults {
    let mut results = QueryResults::none();
    results.node_cpu = Some(empty_answer());
    results
}

#[test]
fn a_timeout_disconnects_and_lets_the_values_drift() {
    let mut app = seeded_app();
    app.update_prometheus_metrics(0, Ok(answered()));
    assert_eq!(app.connection_status, ConnectionStatus::Connected);
    let before = app.nodes[0].cpu_usage;
    app.update_prometheus_metrics(9_000, Err("timeout".to_string()));
    assert_eq!(app.connection_status, ConnectionStatus::Disconnected("timeout".to_string()));
    let moved = app.nodes[0].cpu_usage - before;
    assert!(NODE_CPU_STEP_LOW <= moved && moved < NODE_CPU_STEP_HIGH);
}

#[test]
fn a_due_fetch_without_any_answer_disconnects_and_lets_the_values_drift() {
    let mut app = seeded_app();
    let before = app.nodes.clone();
    let mut failed = QueryResults::none();
    failed.error = Some("connection refused".to_string());
    app.update_prometheus_metrics(0, Ok(failed));
    assert_eq!(
        app.connection_status,
        ConnectionStatus::Disconnected("connection refused".to_string())
    );
    // The records are those of the seed, drifted in place; the baseline of
    // the adapter has not replaced them.
    let moved = app.nodes[0].cpu_usage - before[0].cpu_usage;
    assert!(NODE_CPU_STEP_LOW <= moved && moved < NODE_CPU_STEP_HIGH);
    assert_eq!(before[0].cpu_usage, 25_300);
    assert!(app.nodes[0].cpu_usage > 24_000);
    assert_eq!(app.nodes[0].temperature, 65_200);
    assert_eq!(app.nodes[0].memory_total, before[0].memory_total);
    assert!(!app.prometheus_client.has_fetched());
    assert!(app.prometheus_client.get_nodes().is_empty());

    app.update_prometheus_metrics(1, Ok(QueryResults::none()));
    assert_eq!(app.connection_status, ConnectionStatus::Disconnected("No response".to_string()));
}

#[test]
fn a_failed_fetch_after_a_good_one_keeps_the_candidates_and_disconnects() {
    let mut app = seeded_app();
    let mut results = QueryResults::none();
    results.node_cpu = Some(answer("asuna", 33_000));
    app.update_prometheus_metrics(0, Ok(results));
    assert_eq!(app.connection_status, ConnectionStatus::Connected);
    let candidates = app.prometheus_client.get_nodes().clone();
    let mut failed = QueryResults::none();
    failed.error = Some("HTTP 503".to_string());
    app.update_prometheus_metrics(5_000, Ok(failed));
    assert_eq!(app.connection_status, ConnectionStatus::Disconnected("HTTP 503".to_string()));
    assert_eq!(app.prometheus_client.get_nodes(), &candidates);
    let moved = app.nodes[1].cpu_usage - 33_000;
    assert!(NODE_CPU_STEP_LOW <= moved && moved < NODE_CPU_STEP_HIGH);
    // The failure did not start the throttle window anew.
    assert!(app.prometheus_client.is_due(5_000));
}

#[test]
fn a_failed_fetch_does_not_touch_the_adapter() {
    let mut app = seeded_app();
    let mut results = QueryResults::none();
    results.node_cpu = Some(answer("asuna", 33_000));
    app.update_prometheus_metrics(0, Ok(results));
    app.update_prometheus_metrics(1, Err("connection refused".to_string()));
    assert_eq!(app.prometheus_client.get_nodes()[1].cpu_usage, 33_000);
    assert!(!app.prometheus_client.is_due(4_999));
    assert!(app.prometheus_client.is_due(5_000));
}

#[test]
fn a_throttled_fetch_changes_nothing() {
    let mut app = seeded_app();
    app.update_prometheus_metrics(0, Err("down".to_string()));
    let mut results = QueryResults::none();
    results.node_cpu = Some(answer("asuna", 33_000));
    app.update_prometheus_metrics(1_000, Ok(results));
    assert_eq!(app.connection_status, ConnectionStatus::Connected);
    assert_eq!(app.nodes[1].cpu_usage, 33_000);

    app.update_prometheus_metrics(2_000, Err("down".to_string()));
    let nodes_before = app.nodes.clone();
    let services_before = app.services.clone();
    let mut later = QueryResults::none();
    later.node_cpu = Some(answer("asuna", 99_000));
    app.update_prometheus_metrics(3_000, Ok(later));
    assert_eq!(app.nodes, nodes_before);
    assert_eq!(app.services, services_before);
    assert_eq!(app.connection_status, ConnectionStatus::Disconnected("down".to_string()));
}

#[test]
fn candidates_that_match_no_record_are_ignored() {
    let mut current = vec![node("a", 1), node("b", 2)];
    let fresh = vec![node("c", 50_000), node("b", 60_000), node("d", 70_000)];
    merge_nodes(&mut current, &fresh);
    assert_eq!(current.len(), 2);
    assert_eq!(current[0], node("a", 1));
    assert_eq!(current[1].name, "b");
    assert_eq!(current[1].cpu_usage, 60_000);
}

#[test]
fn merging_takes_every_live_metric_of_a_node() {
    let mut current = vec![node("a", 1)];
    let mut fresh = node("a", 2);
    fresh.status = "NotReady".to_string();
    fresh.memory_usage = 3;
    fresh.gpu_usage = 4;
    fresh.gpu_memory = 5;
    fresh.network_rx = 6;
    fresh.network_tx = 7;
    fresh.disk_usage = 8;
    fresh.temperature = 9;
    fresh.uptime = 1_000_000;
    fresh.gpu_memory_total = 5;
    merge_nodes(&mut current, &vec![fresh]);
    let mut expected = node("a", 2);
    expected.status = "NotReady".to_string();
    expected.memory_usage = 3;
    expected.gpu_usage = 4;
    expected.gpu_memory = 5;
    expected.network_rx = 6;
    expected.network_tx = 7;
    expected.disk_usage = 8;
    expected.temperature = 9;
    assert_eq!(current, vec![expected]);
}

#[test]
fn merging_a_service_leaves_its_health_probe_alone() {
    let mut current = vec![service("s", 1)];
    let mut fresh = service("s", 2);
    fresh.status = "Stopped".to_string();
    fresh.memory_usage = 3;
    fresh.requests_per_sec = 4;
    fresh.response_time = 5;
    fresh.error_rate = 6;
    fresh.replicas = 3;
    fresh.ready_replicas = 1;
    fresh.health_status = HealthStatus::Unknown;
    fresh.health_endpoint = String::new();
    fresh.last_health_check = 0;
    fresh.health_response_time = 0;
    fresh.consecutive_failures = 0;
    fresh.namespace = "other".to_string();
    merge_services(&mut current, &vec![fresh]);
    let mut expected = service("s", 2);
    expected.status = "Stopped".to_string();
    expected.memory_usage = 3;
    expected.requests_per_sec = 4;
    expected.response_time = 5;
    expected.error_rate = 6;
    expected.replicas = 3;
    expected.ready_replicas = 1;
    assert_eq!(current, vec![expected]);
    assert_eq!(current[0].health_status, HealthStatus::Degraded);
    assert_eq!(current[0].consecutive_failures, 2);
}

#[test]
fn of_two_candidates_with_one_name_the_first_is_taken() {
    let mut current = vec![node("a", 1)];
    merge_nodes(&mut current, &vec![node("a", 10), node("a", 20)]);
    assert_eq!(current[0].cpu_usage, 10);
}

#[test]
fn merging_into_an_empty_list_adds_nothing() {
    let mut current: Vec<NodeMetrics> = Vec::new();
    merge_nodes(&mut current, &vec![node("a", 1)]);
    assert!(current.is_empty());
}

#[test]
fn the_order_of_the_candidates_does_not_matter() {
    let (_, candidates) = generate_mock_metrics();
    let mut reversed = candidates.clone();
    reversed.reverse();
    for s in reversed.iter_mut() {
        s.cpu_usage += 1_000;
    }
    let mut app = seeded_app();
    let before = service_names(&app);
    merge_services(&mut app.services, &reversed);
    assert_eq!(service_names(&app), before);
    for (after, seed) in app.services.iter().zip(candidates.iter()) {
        assert_eq!(after.cpu_usage, seed.cpu_usage + 1_000);
    }
}

#[test]
fn identities_and_hardware_survive_any_run_of_reconciliations() {
    let mut app = seeded_app();
    let nodes = node_names(&app);
    let services = service_names(&app);
    let hardware: Vec<(String, String, u32, u32, u64, i64, String, i64)> = app
        .nodes
        .iter()
        .map(|n| {
            (
                n.ip_address.clone(),
                n.cpu_model.clone(),
                n.cpu_cores,
                n.cpu_threads,
                n.memory_total,
                n.memory_total_gb,
                n.gpu_model.clone(),
                n.disk_total_gb,
            )
        })
        .collect();
    let health: Vec<(HealthStatus, String, u64, i64, u32)> = app
        .services
        .iter()
        .map(|s| {
            (
                s.health_status,
                s.health_endpoint.clone(),
                s.last_health_check,
                s.health_response_time,
                s.consecutive_failures,
            )
        })
        .collect();
    for round in 0..60u64 {
        let fetched = match round % 4 {
            0 => Err("timeout".to_string()),
            1 => {
                let mut r = QueryResults::none();
                r.node_cpu = Some(answer("asuna", 1_000 * round as i64));
                r.redis_up = Some(answer("x", 0));
                Ok(r)
            }
            2 => Ok(answered()),
            _ => Err("HTTP 503".to_string()),
        };
        app.update_prometheus_metrics(round * 3_000, fetched);
        app.update_mock_metrics();
        assert_eq!(node_names(&app), nodes);
        assert_eq!(service_names(&app), services);
    }
    let hardware_after: Vec<(String, String, u32, u32, u64, i64, String, i64)> = app
        .nodes
        .iter()
        .map(|n| {
            (
                n.ip_address.clone(),
                n.cpu_model.clone(),
                n.cpu_cores,
                n.cpu_threads,
                n.memory_total,
                n.memory_total_gb,
                n.gpu_model.clone(),
                n.disk_total_gb,
            )
        })
        .collect();
    let health_after: Vec<(HealthStatus, String, u64, i64, u32)> = app
        .services
        .iter()
        .map(|s| {
            (
                s.health_status,
                s.health_endpoint.clone(),
                s.last_health_check,
                s.health_response_time,
                s.consecutive_failures,
            )
        })
        .collect();
    assert_eq!(hardware_after, hardware);
    assert_eq!(health_after, health);
}

#[test]
fn update_mock_metrics_reports_the_offsets_it_applied() {
    let mut app = seeded_app();
    let before = app.nodes.clone();
    let (node_steps, service_steps) = app.update_mock_metrics();
    assert_eq!(node_steps.len(), 2);
    assert_eq!(service_steps.len(), 7);
    for i in 0..before.len() {
        let mut expected = before[i].clone();
        expected.apply_drift(&node_steps[i]);
        assert_eq!(app.nodes[i], expected);
    }
}
