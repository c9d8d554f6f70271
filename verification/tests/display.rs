use monitorium::display::{
    severity, spark_height, spark_heights, Severity, SPARK_MAX, USAGE_DANGER, USAGE_WARNING,
};
use monitorium::theme::{Theme, ThemeColors};

#[test]
fn a_value_on_a_threshold_has_not_passed_it() {
    assert_eq!(severity(60_000, USAGE_WARNING, USAGE_DANGER), Severity::Good);
    assert_eq!(severity(60_001, USAGE_WARNING, USAGE_DANGER), Severity::Warning);
    assert_eq!(severity(80_000, USAGE_WARNING, USAGE_DANGER), Severity::Warning);
    assert_eq!(severity(80_001, USAGE_WARNING, USAGE_DANGER), Severity::Danger);
    assert_eq!(severity(0, USAGE_WARNING, USAGE_DANGER), Severity::Good);
    assert_eq!(severity(-5, USAGE_WARNING, USAGE_DANGER), Severity::Good);
    assert_eq!(severity(i64::MAX, USAGE_WARNING, USAGE_DANGER), Severity::Danger);
}

#[test]
fn a_bar_is_a_fifth_of_the_whole_percents() {
    assert_eq!(spark_height(100_000), SPARK_MAX);
    assert_eq!(spark_height(25_300), 5);
    assert_eq!(spark_height(24_999), 4);
    assert_eq!(spark_height(4_999), 0);
    assert_eq!(spark_height(5_000), 1);
    assert_eq!(spark_height(0), 0);
    assert_eq!(spark_height(-40_000), 0);
    assert_eq!(spark_height(i64::MIN), 0);
    assert_eq!(spark_heights(&vec![0, 50_000, 99_999, -1]), vec![0, 10, 19, 0]);
    assert_eq!(spark_heights(&vec![]), Vec::<u64>::new());
}

#[test]
fn gauge_colours_by_severity() {
    for theme in Theme::all() {
        let c = ThemeColors::from_theme(theme);
        assert_eq!(c.gauge(Severity::Good), c.gauge_good);
        assert_eq!(c.gauge(Severity::Warning), c.gauge_warning);
        assert_eq!(c.gauge(Severity::Danger), c.gauge_danger);
    }
}
