use monitorium::history::{record_sample, sample_all, HistorySeries};
use monitorium::mock_data::generate_mock_metrics;

fn series(name: &str, samples: &[i64]) -> HistorySeries {
    HistorySeries { name: name.to_string(), samples: samples.to_vec() }
}

#[test]
fn a_new_series_is_empty() {
    let s = HistorySeries::new("a".to_string());
    assert_eq!(s, series("a", &[]));
}

#[test]
fn record_appends_until_the_series_is_full() {
    let mut s = HistorySeries::new("a".to_string());
    s.record(1, 3);
    assert_eq!(s.samples, vec![1]);
    s.record(2, 3);
    s.record(3, 3);
    assert_eq!(s.samples, vec![1, 2, 3]);
}

#[test]
fn a_full_series_evicts_its_oldest_sample_on_every_further_sample() {
    let mut s = series("a", &[1, 2, 3]);
    s.record(4, 3);
    assert_eq!(s.samples, vec![2, 3, 4]);
    s.record(5, 3);
    assert_eq!(s.samples, vec![3, 4, 5]);
    assert_eq!(s.name, "a");
}

#[test]
fn with_retention_zero_nothing_is_kept() {
    let mut s = HistorySeries::new("a".to_string());
    s.record(7, 0);
    assert_eq!(s.samples, Vec::<i64>::new());
}

#[test]
fn with_retention_one_only_the_newest_sample_is_kept() {
    let mut s = HistorySeries::new("a".to_string());
    s.record(7, 1);
    s.record(8, 1);
    assert_eq!(s.samples, vec![8]);
}

#[test]
fn a_series_length_never_exceeds_the_retention_count() {
    let mut s = HistorySeries::new("a".to_string());
    for k in 0..100 {
        s.record(k, 7);
        assert!(s.samples.len() <= 7);
        assert_eq!(s.samples.len(), std::cmp::min(k as usize + 1, 7));
    }
    assert_eq!(s.samples, vec![93, 94, 95, 96, 97, 98, 99]);
}

#[test]
fn record_sample_finds_the_series_by_name() {
    let mut history = vec![series("a", &[1]), series("b", &[10])];
    record_sample(&mut history, &"b".to_string(), 11, 5);
    assert_eq!(history, vec![series("a", &[1]), series("b", &[10, 11])]);
    record_sample(&mut history, &"a".to_string(), 2, 5);
    assert_eq!(history, vec![series("a", &[1, 2]), series("b", &[10, 11])]);
}

#[test]
fn record_sample_opens_a_series_for_an_entity_seen_for_the_first_time() {
    let mut history = vec![series("a", &[1])];
    record_sample(&mut history, &"c".to_string(), 5, 5);
    assert_eq!(history, vec![series("a", &[1]), series("c", &[5])]);
}

#[test]
fn record_sample_touches_the_first_series_of_a_name_only() {
    let mut history = vec![series("a", &[1]), series("a", &[2])];
    record_sample(&mut history, &"a".to_string(), 3, 5);
    assert_eq!(history, vec![series("a", &[1, 3]), series("a", &[2])]);
}

#[test]
fn a_round_of_sampling_records_the_cpu_load_of_every_record() {
    let (nodes, services) = generate_mock_metrics();
    let mut node_history: Vec<HistorySeries> = Vec::new();
    sample_all(&mut node_history, &nodes, 60);
    assert_eq!(node_history, vec![series("pesubuntu", &[25_300]), series("asuna", &[42_700])]);
    sample_all(&mut node_history, &nodes, 60);
    assert_eq!(
        node_history,
        vec![series("pesubuntu", &[25_300, 25_300]), series("asuna", &[42_700, 42_700])]
    );
    let mut service_history: Vec<HistorySeries> = Vec::new();
    sample_all(&mut service_history, &services, 60);
    assert_eq!(service_history.len(), 7);
    assert_eq!(service_history[0], series("n8n-0", &[15_200]));
    assert_eq!(service_history[6], series("flowise-0", &[25_900]));
}

#[test]
fn a_round_of_sampling_leaves_the_series_of_other_entities_alone() {
    let (nodes, _) = generate_mock_metrics();
    let mut history = vec![series("gone", &[1, 2, 3]), series("asuna", &[9])];
    sample_all(&mut history, &nodes, 3);
    assert_eq!(
        history,
        vec![
            series("gone", &[1, 2, 3]),
            series("asuna", &[9, 42_700]),
            series("pesubuntu", &[25_300]),
        ]
    );
}
