use monitorium::app::{App, Command, CurrentTab};
use monitorium::config::Config;
use monitorium::history::{fits_retention, HistorySeries};
use monitorium::prometheus_client::{
    PrometheusClient, PrometheusConfig, PrometheusData, PrometheusResponse, QueryResults,
};
use monitorium::roster::{find_by_name, has_unique_names};
use monitorium::theme::{Theme, ThemeColors};

fn answered() -> QueryResults {
    let mut results = QueryResults::none();
    results.redis_up = Some(PrometheusResponse {
        status: "success".to_string(),
        data: PrometheusData { result_type: "vector".to_string(), result: vec![] },
    });
    results
}

fn app() -> App {
    App::new_with_config(
        Config::default(),
        PrometheusClient::new(PrometheusConfig::default()),
        Ok(false),
    )
}

#[test]
fn a_fresh_dashboard_is_well_formed() {
    assert!(app().is_well_formed());
    let mut client = PrometheusClient::new(PrometheusConfig::default());
    assert_eq!(client.update_metrics(0, &answered()), Ok(true));
    assert!(App::new_with_config(Config::default(), client, Ok(true)).is_well_formed());
}

#[test]
fn every_operation_keeps_the_dashboard_well_formed() {
    let mut a = app();
    a.config.general.history_retention = 3;
    a.config.ui.refresh_rate_ms = 1000;
    a.current_tab = CurrentTab::Services;
    for round in 0..40u64 {
        a.on_tick();
        assert!(a.is_well_formed());
        let fetched = match round % 3 {
            0 => Err("timeout".to_string()),
            1 => Ok(answered()),
            _ => Ok(QueryResults::none()),
        };
        a.update_prometheus_metrics(round * 4_000, fetched);
        assert!(a.is_well_formed());
        a.selected_item_index = (round % 9) as usize;
        for c in [
            Command::ToggleSelection,
            Command::NavigateDown,
            Command::NextTheme,
            Command::SwitchPanel,
            Command::NavigateUp,
            Command::ToggleFilter,
        ] {
            a.apply(c);
            assert!(a.is_well_formed());
        }
        a.clamp_selection();
        assert!(a.is_well_formed());
    }
}

#[test]
fn two_records_of_one_name_are_not_well_formed() {
    let mut a = app();
    let twin = a.nodes[0].clone();
    a.nodes.push(twin);
    assert!(!a.is_well_formed());
    let mut a = app();
    a.services[6].name = "n8n-0".to_string();
    assert!(!a.is_well_formed());
}

#[test]
fn a_series_beyond_the_retention_count_is_not_well_formed() {
    let mut a = app();
    a.config.general.history_retention = 2;
    a.node_history.push(HistorySeries { name: "asuna".to_string(), samples: vec![1, 2] });
    assert!(a.is_well_formed());
    a.node_history[0].samples.push(3);
    assert!(!a.is_well_formed());
    a.config.general.history_retention = 3;
    assert!(a.is_well_formed());
    a.service_history.push(HistorySeries { name: "x".to_string(), samples: vec![] });
    a.service_history.push(HistorySeries { name: "x".to_string(), samples: vec![] });
    assert!(!a.is_well_formed());
}

#[test]
fn a_palette_of_another_theme_is_not_well_formed() {
    let mut a = app();
    a.theme_colors = ThemeColors::from_theme(Theme::Nord);
    assert!(!a.is_well_formed());
    a.current_theme = Theme::Nord;
    assert!(a.is_well_formed());
}

#[test]
fn a_name_pinned_twice_is_not_well_formed() {
    let mut a = app();
    a.selected_items = vec!["asuna".to_string(), "redis-0".to_string()];
    assert!(a.is_well_formed());
    a.selected_items.push("asuna".to_string());
    assert!(!a.is_well_formed());
}

#[test]
fn unique_names_and_lookup() {
    let names = vec!["a".to_string(), "b".to_string(), "c".to_string()];
    assert!(has_unique_names(&names));
    assert_eq!(find_by_name(&names, &"b".to_string()), Some(1));
    assert_eq!(find_by_name(&names, &"d".to_string()), None);
    let names = vec!["a".to_string(), "b".to_string(), "a".to_string()];
    assert!(!has_unique_names(&names));
    assert_eq!(find_by_name(&names, &"a".to_string()), Some(0));
    assert!(has_unique_names(&Vec::<String>::new()));
}

#[test]
fn retention_is_measured_per_series() {
    let history = vec![
        HistorySeries { name: "a".to_string(), samples: vec![1, 2, 3] },
        HistorySeries { name: "b".to_string(), samples: vec![] },
    ];
    assert!(fits_retention(&history, 3));
    assert!(fits_retention(&history, 4));
    assert!(!fits_retention(&history, 2));
    assert!(fits_retention(&Vec::new(), 0));
}
