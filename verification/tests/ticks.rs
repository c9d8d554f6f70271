use monitorium::app::{history_interval_ticks, App};
use monitorium::config::Config;
use monitorium::history::HistorySeries;
use monitorium::prometheus_client::{PrometheusClient, PrometheusConfig};

fn app_with(refresh_rate_ms: u64, retention: usize) -> App {
    let mut config = Config::default();
    config.ui.refresh_rate_ms = refresh_rate_ms;
    config.general.history_retention = retention;
    App::new_with_config(config, PrometheusClient::new(PrometheusConfig::default()), Ok(false))
}

fn samples<'a>(history: &'a [HistorySeries], name: &str) -> &'a [i64] {
    &history.iter().find(|s| s.name == name).unwrap().samples
}

#[test]
fn the_sampling_interval_is_the_ceiling_of_a_second_over_the_redraw_period() {
    assert_eq!(history_interval_ticks(250), 4);
    assert_eq!(history_interval_ticks(1000), 1);
    assert_eq!(history_interval_ticks(500), 2);
    assert_eq!(history_interval_ticks(300), 4);
    assert_eq!(history_interval_ticks(333), 4);
    assert_eq!(history_interval_ticks(334), 3);
    assert_eq!(history_interval_ticks(999), 2);
    assert_eq!(history_interval_ticks(1), 1000);
    assert_eq!(history_interval_ticks(3), 334);
}

#[test]
fn a_redraw_period_longer_than_a_second_samples_on_every_tick() {
    assert_eq!(history_interval_ticks(1001), 1);
    assert_eq!(history_interval_ticks(60_000), 1);
    assert_eq!(history_interval_ticks(u64::MAX), 1);
    let mut app = app_with(5_000, 10);
    app.on_tick();
    app.on_tick();
    assert_eq!(samples(&app.node_history, "asuna").len(), 2);
}

#[test]
fn forty_ticks_keep_the_five_newest_of_ten_samples() {
    let mut app = app_with(250, 5);
    for tick in 1..=40i64 {
        app.nodes[0].cpu_usage = tick * 1_000;
        app.services[2].cpu_usage = tick * 10;
        app.on_tick();
    }
    assert_eq!(app.tick_count, 40);
    assert_eq!(samples(&app.node_history, "pesubuntu").len(), 5);
    assert_eq!(
        samples(&app.node_history, "pesubuntu"),
        &[24_000, 28_000, 32_000, 36_000, 40_000]
    );
    assert_eq!(samples(&app.service_history, "redis-0"), &[240, 280, 320, 360, 400]);
    assert_eq!(app.node_history.len(), 2);
    assert_eq!(app.service_history.len(), 7);
    for s in app.node_history.iter().chain(app.service_history.iter()) {
        assert_eq!(s.samples.len(), 5);
    }
}

#[test]
fn only_every_fourth_tick_samples() {
    let mut app = app_with(250, 60);
    for tick in 1..=11u64 {
        app.on_tick();
        let expected = (tick / 4) as usize;
        if expected == 0 {
            assert!(app.node_history.is_empty());
            assert!(app.service_history.is_empty());
        } else {
            assert_eq!(samples(&app.node_history, "pesubuntu").len(), expected);
            assert_eq!(samples(&app.service_history, "flowise-0").len(), expected);
        }
    }
}

#[test]
fn a_tick_changes_the_counter_and_the_histories_only() {
    let mut app = app_with(1000, 60);
    let nodes = app.nodes.clone();
    let services = app.services.clone();
    let status = app.connection_status.clone();
    app.on_tick();
    assert_eq!(app.tick_count, 1);
    assert_eq!(app.nodes, nodes);
    assert_eq!(app.services, services);
    assert_eq!(app.connection_status, status);
    assert_eq!(app.selected_node_index, 0);
    assert_eq!(
        app.node_history,
        vec![
            HistorySeries { name: "pesubuntu".to_string(), samples: vec![25_300] },
            HistorySeries { name: "asuna".to_string(), samples: vec![42_700] },
        ]
    );
}

#[test]
fn the_history_never_outgrows_the_retention_count() {
    let mut app = app_with(1000, 3);
    for _ in 0..50 {
        app.on_tick();
        for s in app.node_history.iter().chain(app.service_history.iter()) {
            assert!(s.samples.len() <= 3);
        }
    }
    for s in app.node_history.iter().chain(app.service_history.iter()) {
        assert_eq!(s.samples.len(), 3);
    }
}

#[test]
fn resetting_the_tick_counter_keeps_the_histories() {
    let mut app = app_with(250, 60);
    for _ in 0..8 {
        app.on_tick();
    }
    let before = app.node_history.clone();
    assert_eq!(samples(&before, "asuna").len(), 2);
    app.tick_count = 0;
    assert_eq!(app.node_history, before);
    for _ in 0..3 {
        app.on_tick();
    }
    assert_eq!(app.node_history, before);
    app.on_tick();
    assert_eq!(samples(&app.node_history, "asuna").len(), 3);
}

#[test]
fn update_history_samples_when_the_counter_is_a_multiple_of_the_interval() {
    let mut app = app_with(250, 60);
    app.tick_count = 3;
    app.update_history();
    assert!(app.node_history.is_empty());
    app.tick_count = 8;
    app.update_history();
    assert_eq!(samples(&app.node_history, "pesubuntu"), &[25_300]);
    app.tick_count = 0;
    app.update_history();
    assert_eq!(samples(&app.node_history, "pesubuntu"), &[25_300, 25_300]);
}
