//! What the renderer needs to know about a value before it draws it: how
//! alarming it is, and how tall its bar in a trend graph is.
//!
//! Values are thousandths of their unit, as everywhere in the crate.

use vstd::prelude::*;
use crate::theme::{Color, ThemeColors};

verus! {

/// How alarming a value is.
#[derive(Debug, Clone, Copy, PartialEq, Eq, Structural)]
pub enum Severity {
    Good,
    Warning,
    Danger,
}

/// Usage of a node resource, and the temperature of a node: warning above
/// 60, danger above 80.
pub const USAGE_WARNING: i64 = 60_000;

pub const USAGE_DANGER: i64 = 80_000;

/// CPU load of a service: warning above 30 %, danger above 50 %.
pub const SERVICE_CPU_WARNING: i64 = 30_000;

pub const SERVICE_CPU_DANGER: i64 = 50_000;

/// Memory use of a service: warning above 50 %, danger above 75 %.
pub const SERVICE_MEMORY_WARNING: i64 = 50_000;

pub const SERVICE_MEMORY_DANGER: i64 = 75_000;

/// Request rate of a service: warning above 100 per second, danger above
/// 150.
pub const REQUESTS_WARNING: i64 = 100_000;

pub const REQUESTS_DANGER: i64 = 150_000;

/// Response time of a service: warning above 200 ms, danger above 300 ms.
pub const LATENCY_WARNING: i64 = 200_000;

pub const LATENCY_DANGER: i64 = 300_000;

/// Error rate of a service: warning above 0.5 %, danger above 1 %.
pub const ERROR_RATE_WARNING: i64 = 500;

pub const ERROR_RATE_DANGER: i64 = 1_000;

/// The tallest bar of a trend graph.
pub const SPARK_MAX: u64 = 20;

/// The severity of `value` against the two thresholds; a value on a
/// threshold has not passed it.
pub open spec fn severity_of(value: int, warning: int, danger: int) -> Severity {
    if value > danger {
        Severity::Danger
    } else if value > warning {
        Severity::Warning
    } else {
        Severity::Good
    }
}

/// The height of the bar that stands for a percentage: a fifth of the
/// whole percents, hence 20 for 100 %, and nothing for a value below zero.
pub open spec fn spark_height_of(value: int) -> int {
    if value <= 0 {
        0
    } else {
        value / 5000
    }
}

/// The severity of `value` against the two thresholds.
pub fn severity(value: i64, warning: i64, danger: i64) -> (level: Severity)
    ensures
        level == severity_of(value as int, warning as int, danger as int),
{
    if value > danger {
        Severity::Danger
    } else if value > warning {
        Severity::Warning
    } else {
        Severity::Good
    }
}

/// The height of the bar that stands for a percentage in a trend graph.
pub fn spark_height(value: i64) -> (height: u64)
    ensures
        height == spark_height_of(value as int),
{
    if value <= 0 {
        0
    } else {
        (value / 5000) as u64
    }
}

/// The heights of the bars of a whole series, oldest first.
pub fn spark_heights(samples: &Vec<i64>) -> (heights: Vec<u64>)
    ensures
        heights@.len() == samples@.len(),
        forall|i: int| 0 <= i < samples@.len() ==> heights@[i] == spark_height_of(samples@[i] as int),
{
    let mut heights: Vec<u64> = Vec::new();
    let mut i: usize = 0;
    while i < samples.len()
        invariant
            i <= samples.len(),
            heights@.len() == i,
            forall|k: int| 0 <= k < i ==> heights@[k] == spark_height_of(samples@[k] as int),
        decreases samples.len() - i,
    {
        heights.push(spark_height(samples[i]));
        i += 1;
    }
    heights
}

impl ThemeColors {
    /// The gauge colour for a severity.
    pub fn gauge(&self, level: Severity) -> (color: Color)
        ensures
            color == match level {
                Severity::Good => self.gauge_good,
                Severity::Warning => self.gauge_warning,
                Severity::Danger => self.gauge_danger,
            },
    {
        match level {
            Severity::Good => self.gauge_good,
            Severity::Warning => self.gauge_warning,
            Severity::Danger => self.gauge_danger,
        }
    }
}

/// A percentage between 0 and 100 gives a bar that fits the graph, and a
/// larger value never gives a shorter bar.
pub proof fn lemma_spark_height_fits(value: int, larger: int)
    ensures
        0 <= value <= 100_000 ==> 0 <= spark_height_of(value) <= SPARK_MAX,
        value <= larger ==> spark_height_of(value) <= spark_height_of(larger),
{
}

} // verus!
