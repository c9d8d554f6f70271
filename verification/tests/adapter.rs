use monitorium::mock_data::HealthStatus;
use monitorium::prometheus_client::{
    fetch_node_metrics, fetch_service_metrics, match_node, match_service, update_node_cpu,
    update_node_memory, update_service_cpu, update_service_status, Label, PrometheusClient,
    PrometheusConfig, PrometheusData, PrometheusMetric, PrometheusResponse, Query, QueryResults,
    UP_SAMPLE,
};

fn label(name: &str, value: &str) -> Label {
    Label { name: name.to_string(), value: value.to_string() }
}

fn metric(labels: Vec<Label>, sample: i64) -> PrometheusMetric {
    PrometheusMetric { metric: labels, value: vec![Some(1_733_318_400_000), Some(sample)] }
}

fn response(result: Vec<PrometheusMetric>) -> PrometheusResponse {
    PrometheusResponse {
        status: "success".to_string(),
        data: PrometheusData { result_type: "vector".to_string(), result },
    }
}

fn config(interval: u64) -> PrometheusConfig {
    PrometheusConfig {
        url: "http://localhost:9090".to_string(),
        timeout_secs: 10,
        query_interval_secs: interval,
    }
}

#[test]
fn the_default_adapter_configuration() {
    let c = PrometheusConfig::default();
    assert_eq!(c.url, "http://100.81.76.55:30090");
    assert_eq!(c.timeout_secs, 10);
    assert_eq!(c.query_interval_secs, 5);
}

#[test]
fn the_sample_is_the_second_element_of_the_pair() {
    assert_eq!(metric(vec![], 73_200).value(), 73_200);
    let m = PrometheusMetric { metric: vec![], value: vec![Some(5), Some(6), Some(7)] };
    assert_eq!(m.value(), 6);
}

#[test]
fn a_short_pair_or_a_sample_that_is_no_number_counts_as_zero() {
    let m = PrometheusMetric { metric: vec![], value: vec![] };
    assert_eq!(m.value(), 0);
    let m = PrometheusMetric { metric: vec![], value: vec![Some(9)] };
    assert_eq!(m.value(), 0);
    let m = PrometheusMetric { metric: vec![], value: vec![Some(9), None] };
    assert_eq!(m.value(), 0);
}

#[test]
fn a_label_is_found_by_its_name() {
    let m = metric(vec![label("job", "node"), label("instance", "asuna:9100")], 1);
    assert_eq!(m.label(&"instance".to_string()), Some(&"asuna:9100".to_string()));
    assert_eq!(m.label(&"job".to_string()), Some(&"node".to_string()));
    assert_eq!(m.label(&"name".to_string()), None);
}

#[test]
fn instances_are_matched_to_nodes_by_substring() {
    assert_eq!(match_node("100.72.98.106:9100"), Some("pesubuntu"));
    assert_eq!(match_node("pesubuntu:9100"), Some("pesubuntu"));
    assert_eq!(match_node("http://pesubuntu.lan/metrics"), Some("pesubuntu"));
    assert_eq!(match_node("asuna:9100"), Some("asuna"));
    assert_eq!(match_node("asuna"), Some("asuna"));
    assert_eq!(match_node("192.168.8.185:9100"), None);
    assert_eq!(match_node(""), None);
    assert_eq!(match_node("pesubunt"), None);
}

#[test]
fn the_compute_node_wins_where_both_names_occur() {
    assert_eq!(match_node("asuna-via-pesubuntu"), Some("pesubuntu"));
}

#[test]
fn names_are_matched_to_services_by_substring_first_rule_first() {
    assert_eq!(match_service("n8n-0"), Some("n8n-0"));
    assert_eq!(match_service("k8s_postgres_postgres-0_homelab"), Some("postgres-0"));
    assert_eq!(match_service("redis"), Some("redis-0"));
    assert_eq!(match_service("prometheus-server"), Some("prometheus-0"));
    assert_eq!(match_service("grafana"), Some("grafana-0"));
    assert_eq!(match_service("qdrant"), Some("qdrant-0"));
    assert_eq!(match_service("flowise"), Some("flowise-0"));
    assert_eq!(match_service("nginx"), None);
    assert_eq!(match_service("redis-postgres"), Some("postgres-0"));
    assert_eq!(match_service("n8n-postgres"), Some("n8n-0"));
}

#[test]
fn without_answers_the_candidates_are_the_baseline() {
    let nodes = fetch_node_metrics(&QueryResults::none());
    assert_eq!(nodes.len(), 2);
    assert_eq!(nodes[0].name, "pesubuntu");
    assert_eq!(nodes[0].ip_address, "192.168.8.106");
    assert_eq!(nodes[0].status, "Ready");
    assert_eq!(nodes[0].cpu_usage, 25_000);
    assert_eq!(nodes[0].memory_usage, 45_000);
    assert_eq!(nodes[0].disk_usage, 52_000);
    assert_eq!(nodes[0].temperature, 65_000);
    assert_eq!(nodes[0].cpu_model, "Intel Core i5-12400F");
    assert_eq!(nodes[0].cpu_cores, 6);
    assert_eq!(nodes[0].cpu_threads, 12);
    assert_eq!(nodes[0].memory_total_gb, 32_000);
    assert_eq!(nodes[0].gpu_model, "AMD Radeon RX 7800 XT");
    assert_eq!(nodes[0].disk_total_gb, 937_000);
    assert_eq!(nodes[1].name, "asuna");
    assert_eq!(nodes[1].cpu_usage, 42_000);
    assert_eq!(nodes[1].memory_usage, 68_000);
    assert_eq!(nodes[1].cpu_model, "Intel Core i7-4510U");

    let services = fetch_service_metrics(&QueryResults::none());
    let names: Vec<&str> = services.iter().map(|s| s.name.as_str()).collect();
    assert_eq!(
        names,
        vec!["n8n-0", "postgres-0", "redis-0", "prometheus-0", "grafana-0", "qdrant-0", "flowise-0"]
    );
    for s in &services {
        assert_eq!(s.namespace, "homelab");
        assert_eq!(s.status, "Running");
        assert_eq!(s.health_status, HealthStatus::Unknown);
        assert_eq!(s.replicas, 1);
        assert_eq!(s.ready_replicas, 1);
        assert_eq!(s.consecutive_failures, 0);
    }
    assert_eq!(services[0].cpu_usage, 15_000);
    assert_eq!(services[0].error_rate, 200);
    assert_eq!(services[6].response_time, 456_000);
    assert_eq!(services[6].error_rate, 1_200);
    assert_eq!(
        services[1].health_endpoint,
        "postgres://postgres.homelab.svc.cluster.local:5432/homelab"
    );
}

#[test]
fn each_metric_is_resolved_from_its_own_answer() {
    let mut results = QueryResults::none();
    results.node_cpu = Some(response(vec![
        metric(vec![label("instance", "pesubuntu:9100")], 73_200),
        metric(vec![label("instance", "asuna:9100")], 12_500),
    ]));
    let nodes = fetch_node_metrics(&results);
    assert_eq!(nodes[0].cpu_usage, 73_200);
    assert_eq!(nodes[1].cpu_usage, 12_500);
    // The memory query failed: memory keeps its baseline.
    assert_eq!(nodes[0].memory_usage, 45_000);
    assert_eq!(nodes[1].memory_usage, 68_000);

    let mut results = QueryResults::none();
    results.node_memory = Some(response(vec![metric(vec![label("instance", "asuna:9100")], 51_000)]));
    let nodes = fetch_node_metrics(&results);
    assert_eq!(nodes[0].cpu_usage, 25_000);
    assert_eq!(nodes[0].memory_usage, 45_000);
    assert_eq!(nodes[1].cpu_usage, 42_000);
    assert_eq!(nodes[1].memory_usage, 51_000);
}

#[test]
fn unmatched_series_are_dropped_and_the_later_series_prevails() {
    let mut nodes = fetch_node_metrics(&QueryResults::none());
    let answer = response(vec![
        metric(vec![label("instance", "elsewhere:9100")], 99_000),
        metric(vec![label("job", "node")], 98_000),
        metric(vec![label("instance", "asuna:9100")], 10_000),
        metric(vec![label("instance", "asuna:9200")], 20_000),
    ]);
    update_node_cpu(&mut nodes, &answer);
    assert_eq!(nodes[0].cpu_usage, 25_000);
    assert_eq!(nodes[1].cpu_usage, 20_000);
    update_node_memory(&mut nodes, &answer);
    assert_eq!(nodes[1].memory_usage, 20_000);
    assert_eq!(nodes[0].memory_usage, 45_000);
    assert_eq!(nodes.len(), 2);
}

#[test]
fn an_empty_answer_resolves_nothing() {
    let mut nodes = fetch_node_metrics(&QueryResults::none());
    let before = nodes.clone();
    update_node_cpu(&mut nodes, &response(vec![]));
    assert_eq!(nodes, before);
}

#[test]
fn service_cpu_is_resolved_by_the_name_label() {
    let mut services = fetch_service_metrics(&QueryResults::none());
    let answer = response(vec![
        metric(vec![label("name", "k8s_redis_redis-0")], 4_500),
        metric(vec![label("name", "nginx")], 50_000),
        metric(vec![label("instance", "grafana")], 60_000),
    ]);
    update_service_cpu(&mut services, &answer);
    assert_eq!(services[2].name, "redis-0");
    assert_eq!(services[2].cpu_usage, 4_500);
    assert_eq!(services[0].cpu_usage, 15_000);
    assert_eq!(services[4].cpu_usage, 12_000);
}

#[test]
fn the_first_series_of_an_up_answer_decides_the_run_state() {
    let mut services = fetch_service_metrics(&QueryResults::none());
    update_service_status(&mut services, &response(vec![metric(vec![], 0)]), "postgres-0");
    assert_eq!(services[1].status, "Stopped");
    update_service_status(
        &mut services,
        &response(vec![metric(vec![], UP_SAMPLE), metric(vec![], 0)]),
        "postgres-0",
    );
    assert_eq!(services[1].status, "Running");
    update_service_status(&mut services, &response(vec![metric(vec![], 2_000)]), "redis-0");
    assert_eq!(services[2].status, "Stopped");
    // An empty answer decides nothing.
    update_service_status(&mut services, &response(vec![]), "redis-0");
    assert_eq!(services[2].status, "Stopped");
    // Neither does an answer for a service that is not a candidate.
    let before = services.clone();
    update_service_status(&mut services, &response(vec![metric(vec![], 0)]), "nginx-0");
    assert_eq!(services, before);
}

#[test]
fn the_four_probed_services_take_their_state_from_their_own_answers() {
    let mut results = QueryResults::none();
    results.postgres_up = Some(response(vec![metric(vec![], 0)]));
    results.n8n_up = Some(response(vec![metric(vec![], UP_SAMPLE)]));
    results.prometheus_up = Some(response(vec![metric(vec![], 0)]));
    let services = fetch_service_metrics(&results);
    assert_eq!(services[0].status, "Running");
    assert_eq!(services[1].status, "Stopped");
    assert_eq!(services[2].status, "Running");
    assert_eq!(services[3].status, "Stopped");
    assert_eq!(services[4].status, "Running");
}

#[test]
fn a_new_adapter_holds_nothing_and_is_due() {
    let client = PrometheusClient::new(config(5));
    assert!(client.get_nodes().is_empty());
    assert!(client.get_services().is_empty());
    assert!(!client.has_fetched());
    assert!(client.is_due(0));
    assert!(client.is_due(u64::MAX));
}

fn cpu_answer(sample: i64) -> QueryResults {
    let mut results = QueryResults::none();
    results.node_cpu = Some(response(vec![metric(vec![label("instance", "asuna")], sample)]));
    results
}

#[test]
fn a_fetch_inside_the_throttle_window_is_not_taken() {
    let mut client = PrometheusClient::new(config(5));
    assert_eq!(client.update_metrics(1_000, &cpu_answer(11_000)), Ok(true));
    assert!(client.has_fetched());
    assert_eq!(client.get_nodes()[1].cpu_usage, 11_000);
    assert_eq!(client.get_services().len(), 7);

    let later = cpu_answer(22_000);
    assert!(!client.is_due(1_000));
    assert!(!client.is_due(5_999));
    assert_eq!(client.update_metrics(5_999, &later), Ok(false));
    assert_eq!(client.get_nodes()[1].cpu_usage, 11_000);
    // A clock that went backwards counts as no time passed.
    assert_eq!(client.update_metrics(10, &later), Ok(false));
    assert_eq!(client.get_nodes()[1].cpu_usage, 11_000);

    assert!(client.is_due(6_000));
    assert_eq!(client.update_metrics(6_000, &later), Ok(true));
    assert_eq!(client.get_nodes()[1].cpu_usage, 22_000);
    // The window now starts at the fetch just taken.
    assert!(!client.is_due(10_999));
    assert!(client.is_due(11_000));
}

#[test]
fn a_due_fetch_without_any_answer_has_failed_and_leaves_the_adapter_alone() {
    let mut client = PrometheusClient::new(config(5));
    let mut failed = QueryResults::none();
    failed.error = Some("connection refused".to_string());
    assert_eq!(client.update_metrics(0, &failed), Err("connection refused".to_string()));
    assert!(!client.has_fetched());
    assert!(client.get_nodes().is_empty());
    assert!(client.get_services().is_empty());
    // A failed fetch does not start the throttle window.
    assert!(client.is_due(0));

    assert_eq!(client.update_metrics(1_000, &cpu_answer(11_000)), Ok(true));
    let nodes = client.get_nodes().clone();
    let services = client.get_services().clone();
    assert_eq!(client.update_metrics(6_000, &failed), Err("connection refused".to_string()));
    assert_eq!(client.get_nodes(), &nodes);
    assert_eq!(client.get_services(), &services);
    // The window still counts from the last fetch that was taken.
    assert!(client.is_due(6_000));
    assert_eq!(client.update_metrics(6_000, &cpu_answer(22_000)), Ok(true));
    assert!(!client.is_due(10_999));
}

#[test]
fn a_failed_fetch_without_a_word_from_the_transport_is_no_response() {
    let mut client = PrometheusClient::new(config(5));
    assert_eq!(client.update_metrics(0, &QueryResults::none()), Err("No response".to_string()));
    assert_eq!(QueryResults::none().failure(), "No response");
}

#[test]
fn inside_the_throttle_window_even_a_fetch_without_answers_is_no_failure() {
    let mut client = PrometheusClient::new(config(5));
    assert_eq!(client.update_metrics(0, &cpu_answer(1)), Ok(true));
    assert_eq!(client.update_metrics(100, &QueryResults::none()), Ok(false));
}

#[test]
fn one_answer_is_enough_for_a_fetch_to_be_taken() {
    let empty = response(vec![]);
    let mut r = QueryResults::none();
    assert!(!r.answered());
    r.error = Some("HTTP 503".to_string());
    assert!(!r.answered());
    assert_eq!(r.failure(), "HTTP 503");
    r.prometheus_up = Some(empty.clone());
    assert!(r.answered());
    let mut client = PrometheusClient::new(config(5));
    // Five queries failed, one was answered: partial data is taken.
    assert_eq!(client.update_metrics(0, &r), Ok(true));
    assert_eq!(client.get_nodes().len(), 2);
    for place in 0..6 {
        let mut r = QueryResults::none();
        match place {
            0 => r.node_cpu = Some(empty.clone()),
            1 => r.node_memory = Some(empty.clone()),
            2 => r.postgres_up = Some(empty.clone()),
            3 => r.n8n_up = Some(empty.clone()),
            4 => r.redis_up = Some(empty.clone()),
            _ => r.prometheus_up = Some(empty.clone()),
        }
        assert!(r.answered());
    }
}

#[test]
fn with_interval_zero_every_fetch_is_due() {
    let mut client = PrometheusClient::new(config(0));
    assert_eq!(client.update_metrics(7, &cpu_answer(1)), Ok(true));
    assert_eq!(client.update_metrics(7, &cpu_answer(2)), Ok(true));
    assert_eq!(client.update_metrics(3, &cpu_answer(3)), Ok(true));
    assert_eq!(client.get_nodes()[1].cpu_usage, 3);
}

#[test]
fn a_huge_interval_does_not_overflow() {
    let mut client = PrometheusClient::new(config(u64::MAX));
    assert_eq!(client.update_metrics(0, &cpu_answer(1)), Ok(true));
    assert!(!client.is_due(u64::MAX));
}

#[test]
fn the_probe_answer_tells_whether_the_backend_is_there() {
    let client = PrometheusClient::new(config(5));
    assert!(client.test_connection(&response(vec![metric(vec![], UP_SAMPLE)])));
    assert!(client.test_connection(&response(vec![metric(vec![], 0)])));
    assert!(!client.test_connection(&response(vec![])));
}

#[test]
fn the_query_texts() {
    assert_eq!(Query::Probe.text(), "up");
    assert_eq!(
        Query::NodeCpu.text(),
        "100 - (avg by (instance) (irate(node_cpu_seconds_total{mode=\"idle\"}[5m])) * 100)"
    );
    assert_eq!(
        Query::NodeMemory.text(),
        "((1 - (node_memory_MemAvailable_bytes / node_memory_MemTotal_bytes)) * 100)"
    );
    assert_eq!(Query::PostgresUp.text(), "up{job=\"postgres\"}");
    assert_eq!(Query::N8nUp.text(), "up{job=\"n8n\"}");
    assert_eq!(Query::RedisUp.text(), "up{job=\"redis\"}");
    assert_eq!(Query::PrometheusUp.text(), "up{job=\"prometheus\"}");
}
