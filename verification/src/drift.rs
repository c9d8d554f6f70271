//! Bounded drift: the small random walk that keeps the display alive while
//! the backend does not answer.
//!
//! Each drifting metric has a step interval, from which one offset is drawn
//! per application, and a clamp range that the result never leaves. All
//! numbers are thousandths of the metric's unit.

use rand::Rng;
use vstd::prelude::*;
use crate::mock_data::{NodeMetrics, NodeMetricsView, ServiceMetrics, ServiceMetricsView};

verus! {

// Node CPU load: one step lies in [-500, 500), the value stays in [10_000, 95_000].
pub const NODE_CPU_STEP_LOW: i64 = -500;

pub const NODE_CPU_STEP_HIGH: i64 = 500;

pub const NODE_CPU_MIN: i64 = 10_000;

pub const NODE_CPU_MAX: i64 = 95_000;

// Node memory in use: one step lies in [-300, 300), the value stays in [20_000, 85_000].
pub const NODE_MEMORY_STEP_LOW: i64 = -300;

pub const NODE_MEMORY_STEP_HIGH: i64 = 300;

pub const NODE_MEMORY_MIN: i64 = 20_000;

pub const NODE_MEMORY_MAX: i64 = 85_000;

// Node GPU load: one step lies in [-1_000, 1_000), the value stays in [0, 100_000].
pub const NODE_GPU_STEP_LOW: i64 = -1_000;

pub const NODE_GPU_STEP_HIGH: i64 = 1_000;

pub const NODE_GPU_MIN: i64 = 0;

pub const NODE_GPU_MAX: i64 = 100_000;

// Node GPU memory in use: one step lies in [-200, 200), the value stays in [30_000, 70_000].
pub const NODE_GPU_MEMORY_STEP_LOW: i64 = -200;

pub const NODE_GPU_MEMORY_STEP_HIGH: i64 = 200;

pub const NODE_GPU_MEMORY_MIN: i64 = 30_000;

pub const NODE_GPU_MEMORY_MAX: i64 = 70_000;

// Node receive rate: one step lies in [-10_000, 20_000), the value stays in [0, 1_000_000].
pub const NODE_NETWORK_RX_STEP_LOW: i64 = -10_000;

pub const NODE_NETWORK_RX_STEP_HIGH: i64 = 20_000;

pub const NODE_NETWORK_RX_MIN: i64 = 0;

pub const NODE_NETWORK_RX_MAX: i64 = 1_000_000;

// Node transmit rate: one step lies in [-8_000, 15_000), the value stays in [0, 800_000].
pub const NODE_NETWORK_TX_STEP_LOW: i64 = -8_000;

pub const NODE_NETWORK_TX_STEP_HIGH: i64 = 15_000;

pub const NODE_NETWORK_TX_MIN: i64 = 0;

pub const NODE_NETWORK_TX_MAX: i64 = 800_000;

// Node disk space in use: one step lies in [-100, 100), the value stays in [40_000, 90_000].
pub const NODE_DISK_STEP_LOW: i64 = -100;

pub const NODE_DISK_STEP_HIGH: i64 = 100;

pub const NODE_DISK_MIN: i64 = 40_000;

pub const NODE_DISK_MAX: i64 = 90_000;

// Service CPU load: one step lies in [-200, 300), the value stays in [500, 80_000].
pub const SERVICE_CPU_STEP_LOW: i64 = -200;

pub const SERVICE_CPU_STEP_HIGH: i64 = 300;

pub const SERVICE_CPU_MIN: i64 = 500;

pub const SERVICE_CPU_MAX: i64 = 80_000;

// Service memory in use: one step lies in [-100, 200), the value stays in [10_000, 75_000].
pub const SERVICE_MEMORY_STEP_LOW: i64 = -100;

pub const SERVICE_MEMORY_STEP_HIGH: i64 = 200;

pub const SERVICE_MEMORY_MIN: i64 = 10_000;

pub const SERVICE_MEMORY_MAX: i64 = 75_000;

// Service request rate: one step lies in [-1_000, 2_000), the value stays in [0, 200_000].
pub const SERVICE_REQUESTS_STEP_LOW: i64 = -1_000;

pub const SERVICE_REQUESTS_STEP_HIGH: i64 = 2_000;

pub const SERVICE_REQUESTS_MIN: i64 = 0;

pub const SERVICE_REQUESTS_MAX: i64 = 200_000;

// Service response time: one step lies in [-5_000, 10_000), the value stays in [50_000, 500_000].
pub const SERVICE_RESPONSE_TIME_STEP_LOW: i64 = -5_000;

pub const SERVICE_RESPONSE_TIME_STEP_HIGH: i64 = 10_000;

pub const SERVICE_RESPONSE_TIME_MIN: i64 = 50_000;

pub const SERVICE_RESPONSE_TIME_MAX: i64 = 500_000;

// Service error rate: one step lies in [-50, 100), the value stays in [0, 5_000].
pub const SERVICE_ERROR_RATE_STEP_LOW: i64 = -50;

pub const SERVICE_ERROR_RATE_STEP_HIGH: i64 = 100;

pub const SERVICE_ERROR_RATE_MIN: i64 = 0;

pub const SERVICE_ERROR_RATE_MAX: i64 = 5_000;

/// `value` forced into `[min, max]`.
pub open spec fn clamp_to(value: int, min: int, max: int) -> int {
    if value < min {
        min
    } else if value > max {
        max
    } else {
        value
    }
}

/// One drift step: `value` moved by `delta` and clamped into `[min, max]`.
pub fn drift_value(value: i64, delta: i64, min: i64, max: i64) -> (moved: i64)
    requires
        min <= max,
    ensures
        moved == clamp_to(value + delta, min as int, max as int),
{
    let wide: i128 = value as i128 + delta as i128;
    if wide < min as i128 {
        min
    } else if wide > max as i128 {
        max
    } else {
        wide as i64
    }
}

/// Draws one offset from `[low, high)` with `rand::Rng::gen_range` on the
/// generator that `rand::thread_rng` returns.
///
/// Trusted: the result is taken to lie in the half-open interval, which is
/// what `gen_range` computes for a non-empty integer range; which value of
/// the interval comes back is left open. An empty range, on which
/// `gen_range` panics, is excluded. That the operating system can seed the
/// generator on its first use is taken for granted.
#[verifier::external_body]
fn random_offset(low: i64, high: i64) -> (offset: i64)
    requires
        low < high,
    ensures
        low <= offset < high,
{
    rand::thread_rng().gen_range(low..high)
}

/// One offset for every drifting metric of a node.
#[derive(Debug, Clone, Copy, PartialEq, Eq, Structural)]
pub struct NodeDrift {
    pub cpu_usage: i64,
    pub memory_usage: i64,
    pub gpu_usage: i64,
    pub gpu_memory: i64,
    pub network_rx: i64,
    pub network_tx: i64,
    pub disk_usage: i64,
}

impl NodeDrift {
    /// Every offset lies in the step interval of its metric.
    pub open spec fn in_range(self) -> bool {
        &&& NODE_CPU_STEP_LOW <= self.cpu_usage < NODE_CPU_STEP_HIGH
        &&& NODE_MEMORY_STEP_LOW <= self.memory_usage < NODE_MEMORY_STEP_HIGH
        &&& NODE_GPU_STEP_LOW <= self.gpu_usage < NODE_GPU_STEP_HIGH
        &&& NODE_GPU_MEMORY_STEP_LOW <= self.gpu_memory < NODE_GPU_MEMORY_STEP_HIGH
        &&& NODE_NETWORK_RX_STEP_LOW <= self.network_rx < NODE_NETWORK_RX_STEP_HIGH
        &&& NODE_NETWORK_TX_STEP_LOW <= self.network_tx < NODE_NETWORK_TX_STEP_HIGH
        &&& NODE_DISK_STEP_LOW <= self.disk_usage < NODE_DISK_STEP_HIGH
    }

    /// The offsets that are all zero: a step by them only clamps.
    pub fn zero() -> (none: NodeDrift)
        ensures
            none == (NodeDrift {
                cpu_usage: 0,
                memory_usage: 0,
                gpu_usage: 0,
                gpu_memory: 0,
                network_rx: 0,
                network_tx: 0,
                disk_usage: 0,
            }),
            none.in_range(),
    {
        NodeDrift {
            cpu_usage: 0,
            memory_usage: 0,
            gpu_usage: 0,
            gpu_memory: 0,
            network_rx: 0,
            network_tx: 0,
            disk_usage: 0,
        }
    }

    /// Draws a fresh offset for every metric, each from its step interval.
    ///
    /// Two calls may differ; the contract states what holds of every draw.
    pub fn draw() -> (drawn: NodeDrift)
        ensures
            drawn.in_range(),
    {
        NodeDrift {
            cpu_usage: random_offset(NODE_CPU_STEP_LOW, NODE_CPU_STEP_HIGH),
            memory_usage: random_offset(NODE_MEMORY_STEP_LOW, NODE_MEMORY_STEP_HIGH),
            gpu_usage: random_offset(NODE_GPU_STEP_LOW, NODE_GPU_STEP_HIGH),
            gpu_memory: random_offset(NODE_GPU_MEMORY_STEP_LOW, NODE_GPU_MEMORY_STEP_HIGH),
            network_rx: random_offset(NODE_NETWORK_RX_STEP_LOW, NODE_NETWORK_RX_STEP_HIGH),
            network_tx: random_offset(NODE_NETWORK_TX_STEP_LOW, NODE_NETWORK_TX_STEP_HIGH),
            disk_usage: random_offset(NODE_DISK_STEP_LOW, NODE_DISK_STEP_HIGH),
        }
    }
}

impl NodeMetricsView {
    /// This record after one drift step: every drifting metric moved by its
    /// offset and clamped into its range; every other field as it was.
    pub open spec fn drifted(self, by: NodeDrift) -> NodeMetricsView {
        NodeMetricsView {
            cpu_usage: clamp_to(
                self.cpu_usage + by.cpu_usage,
                NODE_CPU_MIN as int,
                NODE_CPU_MAX as int,
            ),
            memory_usage: clamp_to(
                self.memory_usage + by.memory_usage,
                NODE_MEMORY_MIN as int,
                NODE_MEMORY_MAX as int,
            ),
            gpu_usage: clamp_to(
                self.gpu_usage + by.gpu_usage,
                NODE_GPU_MIN as int,
                NODE_GPU_MAX as int,
            ),
            gpu_memory: clamp_to(
                self.gpu_memory + by.gpu_memory,
                NODE_GPU_MEMORY_MIN as int,
                NODE_GPU_MEMORY_MAX as int,
            ),
            network_rx: clamp_to(
                self.network_rx + by.network_rx,
                NODE_NETWORK_RX_MIN as int,
                NODE_NETWORK_RX_MAX as int,
            ),
            network_tx: clamp_to(
                self.network_tx + by.network_tx,
                NODE_NETWORK_TX_MIN as int,
                NODE_NETWORK_TX_MAX as int,
            ),
            disk_usage: clamp_to(
                self.disk_usage + by.disk_usage,
                NODE_DISK_MIN as int,
                NODE_DISK_MAX as int,
            ),
            ..self
        }
    }

    /// Every drifting metric lies in its clamp range.
    pub open spec fn within_drift_bounds(self) -> bool {
        &&& NODE_CPU_MIN <= self.cpu_usage <= NODE_CPU_MAX
        &&& NODE_MEMORY_MIN <= self.memory_usage <= NODE_MEMORY_MAX
        &&& NODE_GPU_MIN <= self.gpu_usage <= NODE_GPU_MAX
        &&& NODE_GPU_MEMORY_MIN <= self.gpu_memory <= NODE_GPU_MEMORY_MAX
        &&& NODE_NETWORK_RX_MIN <= self.network_rx <= NODE_NETWORK_RX_MAX
        &&& NODE_NETWORK_TX_MIN <= self.network_tx <= NODE_NETWORK_TX_MAX
        &&& NODE_DISK_MIN <= self.disk_usage <= NODE_DISK_MAX
    }

    /// No drifting metric of `self` is further from its value in `before`
    /// than one step of that metric allows.
    pub open spec fn within_one_step_of(self, before: NodeMetricsView) -> bool {
        &&& NODE_CPU_STEP_LOW <= self.cpu_usage - before.cpu_usage < NODE_CPU_STEP_HIGH
        &&& NODE_MEMORY_STEP_LOW <= self.memory_usage - before.memory_usage < NODE_MEMORY_STEP_HIGH
        &&& NODE_GPU_STEP_LOW <= self.gpu_usage - before.gpu_usage < NODE_GPU_STEP_HIGH
        &&& NODE_GPU_MEMORY_STEP_LOW <= self.gpu_memory - before.gpu_memory
            < NODE_GPU_MEMORY_STEP_HIGH
        &&& NODE_NETWORK_RX_STEP_LOW <= self.network_rx - before.network_rx
            < NODE_NETWORK_RX_STEP_HIGH
        &&& NODE_NETWORK_TX_STEP_LOW <= self.network_tx - before.network_tx
            < NODE_NETWORK_TX_STEP_HIGH
        &&& NODE_DISK_STEP_LOW <= self.disk_usage - before.disk_usage < NODE_DISK_STEP_HIGH
    }
}

impl NodeMetrics {
    /// Applies one drift step to the record.
    pub fn apply_drift(&mut self, by: &NodeDrift)
        ensures
            final(self)@ == old(self)@.drifted(*by),
    {
        self.cpu_usage = drift_value(self.cpu_usage, by.cpu_usage, NODE_CPU_MIN, NODE_CPU_MAX);
        self.memory_usage = drift_value(
            self.memory_usage,
            by.memory_usage,
            NODE_MEMORY_MIN,
            NODE_MEMORY_MAX,
        );
        self.gpu_usage = drift_value(self.gpu_usage, by.gpu_usage, NODE_GPU_MIN, NODE_GPU_MAX);
        self.gpu_memory = drift_value(
            self.gpu_memory,
            by.gpu_memory,
            NODE_GPU_MEMORY_MIN,
            NODE_GPU_MEMORY_MAX,
        );
        self.network_rx = drift_value(
            self.network_rx,
            by.network_rx,
            NODE_NETWORK_RX_MIN,
            NODE_NETWORK_RX_MAX,
        );
        self.network_tx = drift_value(
            self.network_tx,
            by.network_tx,
            NODE_NETWORK_TX_MIN,
            NODE_NETWORK_TX_MAX,
        );
        self.disk_usage = drift_value(self.disk_usage, by.disk_usage, NODE_DISK_MIN, NODE_DISK_MAX);
    }
}

/// Drift boundedness: whatever the record held and whatever the offsets
/// are, after a drift step every drifting metric lies in its clamp range.
pub proof fn lemma_node_drift_bounded(record: NodeMetricsView, by: NodeDrift)
    ensures
        record.drifted(by).within_drift_bounds(),
{
}

/// Drift continuity: a record that lies in its clamp ranges moves, under
/// offsets from the step intervals, by no more than one step per metric.
pub proof fn lemma_node_drift_continuous(record: NodeMetricsView, by: NodeDrift)
    requires
        record.within_drift_bounds(),
        by.in_range(),
    ensures
        record.drifted(by).within_one_step_of(record),
{
}

/// Drift touches the drifting metrics only: name, address and hardware
/// descriptors are those of the record before the step.
pub proof fn lemma_node_drift_keeps_identity(record: NodeMetricsView, by: NodeDrift)
    ensures
        record.drifted(by).same_identity(record),
        record.drifted(by).same_hardware(record),
{
}

/// One offset for every drifting metric of a service.
#[derive(Debug, Clone, Copy, PartialEq, Eq, Structural)]
pub struct ServiceDrift {
    pub cpu_usage: i64,
    pub memory_usage: i64,
    pub requests_per_sec: i64,
    pub response_time: i64,
    pub error_rate: i64,
}

impl ServiceDrift {
    /// Every offset lies in the step interval of its metric.
    pub open spec fn in_range(self) -> bool {
        &&& SERVICE_CPU_STEP_LOW <= self.cpu_usage < SERVICE_CPU_STEP_HIGH
        &&& SERVICE_MEMORY_STEP_LOW <= self.memory_usage < SERVICE_MEMORY_STEP_HIGH
        &&& SERVICE_REQUESTS_STEP_LOW <= self.requests_per_sec < SERVICE_REQUESTS_STEP_HIGH
        &&& SERVICE_RESPONSE_TIME_STEP_LOW <= self.response_time < SERVICE_RESPONSE_TIME_STEP_HIGH
        &&& SERVICE_ERROR_RATE_STEP_LOW <= self.error_rate < SERVICE_ERROR_RATE_STEP_HIGH
    }

    /// The offsets that are all zero: a step by them only clamps.
    pub fn zero() -> (none: ServiceDrift)
        ensures
            none == (ServiceDrift {
                cpu_usage: 0,
                memory_usage: 0,
                requests_per_sec: 0,
                response_time: 0,
                error_rate: 0,
            }),
            none.in_range(),
    {
        ServiceDrift {
            cpu_usage: 0,
            memory_usage: 0,
            requests_per_sec: 0,
            response_time: 0,
            error_rate: 0,
        }
    }

    /// Draws a fresh offset for every metric, each from its step interval.
    ///
    /// Two calls may differ; the contract states what holds of every draw.
    pub fn draw() -> (drawn: ServiceDrift)
        ensures
            drawn.in_range(),
    {
        ServiceDrift {
            cpu_usage: random_offset(SERVICE_CPU_STEP_LOW, SERVICE_CPU_STEP_HIGH),
            memory_usage: random_offset(SERVICE_MEMORY_STEP_LOW, SERVICE_MEMORY_STEP_HIGH),
            requests_per_sec: random_offset(SERVICE_REQUESTS_STEP_LOW, SERVICE_REQUESTS_STEP_HIGH),
            response_time: random_offset(
                SERVICE_RESPONSE_TIME_STEP_LOW,
                SERVICE_RESPONSE_TIME_STEP_HIGH,
            ),
            error_rate: random_offset(SERVICE_ERROR_RATE_STEP_LOW, SERVICE_ERROR_RATE_STEP_HIGH),
        }
    }
}

impl ServiceMetricsView {
    /// This record after one drift step: every drifting metric moved by its
    /// offset and clamped into its range; every other field as it was.
    pub open spec fn drifted(self, by: ServiceDrift) -> ServiceMetricsView {
        ServiceMetricsView {
            cpu_usage: clamp_to(
                self.cpu_usage + by.cpu_usage,
                SERVICE_CPU_MIN as int,
                SERVICE_CPU_MAX as int,
            ),
            memory_usage: clamp_to(
                self.memory_usage + by.memory_usage,
                SERVICE_MEMORY_MIN as int,
                SERVICE_MEMORY_MAX as int,
            ),
            requests_per_sec: clamp_to(
                self.requests_per_sec + by.requests_per_sec,
                SERVICE_REQUESTS_MIN as int,
                SERVICE_REQUESTS_MAX as int,
            ),
            response_time: clamp_to(
                self.response_time + by.response_time,
                SERVICE_RESPONSE_TIME_MIN as int,
                SERVICE_RESPONSE_TIME_MAX as int,
            ),
            error_rate: clamp_to(
                self.error_rate + by.error_rate,
                SERVICE_ERROR_RATE_MIN as int,
                SERVICE_ERROR_RATE_MAX as int,
            ),
            ..self
        }
    }

    /// Every drifting metric lies in its clamp range.
    pub open spec fn within_drift_bounds(self) -> bool {
        &&& SERVICE_CPU_MIN <= self.cpu_usage <= SERVICE_CPU_MAX
        &&& SERVICE_MEMORY_MIN <= self.memory_usage <= SERVICE_MEMORY_MAX
        &&& SERVICE_REQUESTS_MIN <= self.requests_per_sec <= SERVICE_REQUESTS_MAX
        &&& SERVICE_RESPONSE_TIME_MIN <= self.response_time <= SERVICE_RESPONSE_TIME_MAX
        &&& SERVICE_ERROR_RATE_MIN <= self.error_rate <= SERVICE_ERROR_RATE_MAX
    }

    /// No drifting metric of `self` is further from its value in `before`
    /// than one step of that metric allows.
    pub open spec fn within_one_step_of(self, before: ServiceMetricsView) -> bool {
        &&& SERVICE_CPU_STEP_LOW <= self.cpu_usage - before.cpu_usage < SERVICE_CPU_STEP_HIGH
        &&& SERVICE_MEMORY_STEP_LOW <= self.memory_usage - before.memory_usage
            < SERVICE_MEMORY_STEP_HIGH
        &&& SERVICE_REQUESTS_STEP_LOW <= self.requests_per_sec - before.requests_per_sec
            < SERVICE_REQUESTS_STEP_HIGH
        &&& SERVICE_RESPONSE_TIME_STEP_LOW <= self.response_time - before.response_time
            < SERVICE_RESPONSE_TIME_STEP_HIGH
        &&& SERVICE_ERROR_RATE_STEP_LOW <= self.error_rate - before.error_rate
            < SERVICE_ERROR_RATE_STEP_HIGH
    }
}

impl ServiceMetrics {
    /// Applies one drift step to the record.
    pub fn apply_drift(&mut self, by: &ServiceDrift)
        ensures
            final(self)@ == old(self)@.drifted(*by),
    {
        self.cpu_usage = drift_value(
            self.cpu_usage,
            by.cpu_usage,
            SERVICE_CPU_MIN,
            SERVICE_CPU_MAX,
        );
        self.memory_usage = drift_value(
            self.memory_usage,
            by.memory_usage,
            SERVICE_MEMORY_MIN,
            SERVICE_MEMORY_MAX,
        );
        self.requests_per_sec = drift_value(
            self.requests_per_sec,
            by.requests_per_sec,
            SERVICE_REQUESTS_MIN,
            SERVICE_REQUESTS_MAX,
        );
        self.response_time = drift_value(
            self.response_time,
            by.response_time,
            SERVICE_RESPONSE_TIME_MIN,
            SERVICE_RESPONSE_TIME_MAX,
        );
        self.error_rate = drift_value(
            self.error_rate,
            by.error_rate,
            SERVICE_ERROR_RATE_MIN,
            SERVICE_ERROR_RATE_MAX,
        );
    }
}

/// Drift boundedness: whatever the record held and whatever the offsets
/// are, after a drift step every drifting metric lies in its clamp range.
pub proof fn lemma_service_drift_bounded(record: ServiceMetricsView, by: ServiceDrift)
    ensures
        record.drifted(by).within_drift_bounds(),
{
}

/// Drift continuity: a record that lies in its clamp ranges moves, under
/// offsets from the step intervals, by no more than one step per metric.
pub proof fn lemma_service_drift_continuous(record: ServiceMetricsView, by: ServiceDrift)
    requires
        record.within_drift_bounds(),
        by.in_range(),
    ensures
        record.drifted(by).within_one_step_of(record),
{
}

/// Drift touches the drifting metrics only: name and namespace, run state,
/// replica counts and the state of the health probe are those of the
/// record before the step.
pub proof fn lemma_service_drift_keeps_identity(record: ServiceMetricsView, by: ServiceDrift)
    ensures
        record.drifted(by).same_identity(record),
        record.drifted(by).same_health(record),
        record.drifted(by).status == record.status,
        record.drifted(by).replicas == record.replicas,
        record.drifted(by).ready_replicas == record.ready_replicas,
{
}

} // verus!
