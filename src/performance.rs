//! Vocabulary of the performance monitor: severities, trends, anomalies and
//! escalation of performance alerts.
use vstd::prelude::*;
use std::time::{Duration, Instant};

verus! {

/// Severity of a performance alert, ordered from least to most severe.
#[derive(Debug, Clone, Copy, PartialEq, Eq, Structural, PartialOrd, Ord)]
pub enum PerformanceSeverityLevel {
    /// Informational.
    Info,
    /// Warning.
    Warning,
    /// Error.
    Error,
    /// Critical.
    Critical,
}

/// Comparison operators for performance conditions.
#[derive(Debug, Clone, Copy, PartialEq, Eq, Structural)]
pub enum PerformanceComparisonOperator {
    /// Greater than.
    GreaterThan,
    /// Greater than or equal to.
    GreaterThanOrEqual,
    /// Less than.
    LessThan,
    /// Less than or equal to.
    LessThanOrEqual,
    /// Equal to.
    EqualTo,
    /// Not equal to.
    NotEqualTo,
}

/// Escalation of performance alerts.
#[derive(Debug, Clone)]
pub struct PerformanceEscalationConfig {
    /// Whether escalation is enabled.
    pub enabled: bool,
    /// Escalation rules.
    pub rules: Vec<PerformanceEscalationRule>,
}

/// One escalation rule.
#[derive(Debug, Clone)]
pub struct PerformanceEscalationRule {
    /// Rule name.
    pub name: String,
    /// Initial severity.
    pub initial_severity: PerformanceSeverityLevel,
    /// Escalation steps.
    pub steps: Vec<PerformanceEscalationStep>,
}

/// One escalation step.
#[derive(Debug, Clone)]
pub struct PerformanceEscalationStep {
    /// Time after which to escalate.
    pub after_duration: Duration,
    /// Next severity.
    pub next_severity: PerformanceSeverityLevel,
    /// Additional notification channels.
    pub additional_channels: Vec<String>,
}

impl Default for PerformanceEscalationConfig {
    fn default() -> (r: Self)
        ensures
            r.enabled,
            r.rules@.len() == 1,
            r.rules@[0].name@ == "severity_escalation"@,
            r.rules@[0].initial_severity == PerformanceSeverityLevel::Warning,
            r.rules@[0].steps@.len() == 2,
            r.rules@[0].steps@[0].next_severity == PerformanceSeverityLevel::Error,
            r.rules@[0].steps@[1].next_severity == PerformanceSeverityLevel::Critical,
    {
        let first = PerformanceEscalationStep {
            after_duration: Duration::from_secs(600),
            next_severity: PerformanceSeverityLevel::Error,
            additional_channels: vec![String::from_str("email")],
        };
        let second = PerformanceEscalationStep {
            after_duration: Duration::from_secs(1800),
            next_severity: PerformanceSeverityLevel::Critical,
            additional_channels: vec![String::from_str("pager_duty")],
        };
        let rule = PerformanceEscalationRule {
            name: String::from_str("severity_escalation"),
            initial_severity: PerformanceSeverityLevel::Warning,
            steps: vec![first, second],
        };
        PerformanceEscalationConfig { enabled: true, rules: vec![rule] }
    }
}

/// Where a performance alert stands.
#[derive(Debug)]
pub struct PerformanceAlertState {
    /// Alert name.
    pub name: String,
    /// Current severity.
    pub severity: PerformanceSeverityLevel,
    /// Number of breaches.
    pub breach_count: usize,
    /// First breach.
    pub first_breach: Option<Instant>,
    /// Last breach.
    pub last_breach: Option<Instant>,
    /// When it was resolved.
    pub resolved: Option<Instant>,
}

/// Direction in which a metric moves.
#[derive(Debug, Clone, Copy, PartialEq, Eq, Structural)]
pub enum TrendDirection {
    /// Getting better.
    Improving,
    /// Holding.
    Stable,
    /// Getting worse.
    Degrading,
    /// Not enough data.
    Unknown,
}

/// Trends of the main metrics.
#[derive(Debug, Clone)]
pub struct PerformanceTrends {
    /// Response time.
    pub response_time_trend: TrendDirection,
    /// Throughput.
    pub throughput_trend: TrendDirection,
    /// Error rate.
    pub error_rate_trend: TrendDirection,
    /// Memory usage.
    pub memory_usage_trend: TrendDirection,
    /// CPU usage.
    pub cpu_usage_trend: TrendDirection,
}

impl Default for PerformanceTrends {
    fn default() -> (r: Self)
        ensures
            r.response_time_trend == TrendDirection::Unknown,
            r.throughput_trend == TrendDirection::Unknown,
            r.error_rate_trend == TrendDirection::Unknown,
            r.memory_usage_trend == TrendDirection::Unknown,
            r.cpu_usage_trend == TrendDirection::Unknown,
    {
        PerformanceTrends {
            response_time_trend: TrendDirection::Unknown,
            throughput_trend: TrendDirection::Unknown,
            error_rate_trend: TrendDirection::Unknown,
            memory_usage_trend: TrendDirection::Unknown,
            cpu_usage_trend: TrendDirection::Unknown,
        }
    }
}

/// An anomaly seen in the metrics.
#[derive(Debug, Clone)]
pub struct PerformanceAnomaly {
    /// Kind of anomaly.
    pub anomaly_type: PerformanceAnomalyType,
    /// Severity.
    pub severity: PerformanceSeverityLevel,
    /// Description.
    pub description: String,
    /// Start, in seconds since the epoch.
    pub start_time: u64,
    /// End, in seconds since the epoch, if over.
    pub end_time: Option<u64>,
    /// Impact.
    pub impact: PerformanceImpact,
    /// Metrics affected.
    pub affected_metrics: Vec<String>,
}

/// Kinds of anomaly.
#[derive(Debug, Clone, Copy, PartialEq, Eq, Structural)]
pub enum PerformanceAnomalyType {
    /// Response time spike.
    ResponseTimeSpike,
    /// Throughput drop.
    ThroughputDrop,
    /// Error rate increase.
    ErrorRateIncrease,
    /// Memory leak.
    MemoryLeak,
    /// CPU spike.
    CpuSpike,
    /// Queue build-up.
    QueueBuildup,
    /// JSON parsing failures.
    JsonParsingFailure,
    /// Transcription failures.
    TranscriptionFailure,
}

/// Impact of an anomaly.
#[derive(Debug, Clone)]
pub struct PerformanceImpact {
    /// Level of impact.
    pub level: PerformanceImpactLevel,
    /// Users affected, if known.
    pub affected_users: Option<usize>,
    /// Estimated downtime, if any.
    pub estimated_downtime: Option<Duration>,
    /// Business impact.
    pub business_impact: String,
}

/// Levels of impact.
#[derive(Debug, Clone, Copy, PartialEq, Eq, Structural)]
pub enum PerformanceImpactLevel {
    /// Minimal.
    Minimal,
    /// Moderate.
    Moderate,
    /// Significant.
    Significant,
    /// Critical.
    Critical,
}

/// Kinds of recommendation.
#[derive(Debug, Clone, Copy, PartialEq, Eq, Structural)]
pub enum PerformanceRecommendationType {
    /// Code optimisation.
    CodeOptimization,
    /// Database optimisation.
    DatabaseOptimization,
    /// Infrastructure scaling.
    InfrastructureScaling,
    /// Configuration tuning.
    ConfigurationTuning,
    /// Caching improvement.
    CachingImprovement,
    /// Load balancing.
    LoadBalancing,
    /// Resource allocation.
    ResourceAllocation,
    /// Algorithm improvement.
    AlgorithmImprovement,
}

/// Priority of a recommendation.
#[derive(Debug, Clone, Copy, PartialEq, Eq, Structural)]
pub enum PerformancePriority {
    /// Low.
    Low,
    /// Medium.
    Medium,
    /// High.
    High,
    /// Critical.
    Critical,
}

} // verus!
