//! Bookkeeping of the JSON interface: logging settings, metric settings, the
//! counters kept and the alerts raised.
use vstd::prelude::*;
use std::collections::VecDeque;
use std::time::SystemTime;

verus! {

/// `std::time::SystemTime`, held opaque: a wall-clock moment.
#[verifier::external_type_specification]
#[verifier::external_body]
pub struct ExSystemTime(std::time::SystemTime);

/// Relies on `SystemTime::now`: the current wall-clock time, of which nothing
/// is promised.
pub assume_specification[ std::time::SystemTime::now ]() -> SystemTime;

/// Relies on `SystemTime`'s `Clone`, which copies the value.
pub assume_specification[ <std::time::SystemTime as Clone>::clone ](t: &SystemTime) -> (r: SystemTime)
    ensures
        r == *t,
;

/// Logging levels, from least to most severe.
#[derive(Debug, Clone, Copy, PartialEq, Eq, Structural)]
pub enum LogLevel {
    /// Debugging detail.
    Debug,
    /// Normal operation.
    Info,
    /// Something unexpected.
    Warning,
    /// A failure.
    Error,
    /// A failure of the whole service.
    Critical,
}

/// The rank of a level: 0 for `Debug` up to 4 for `Critical`.
pub open spec fn level_rank(l: LogLevel) -> nat {
    match l {
        LogLevel::Debug => 0,
        LogLevel::Info => 1,
        LogLevel::Warning => 2,
        LogLevel::Error => 3,
        LogLevel::Critical => 4,
    }
}

impl LogLevel {
    /// The level's rank; higher is more severe.
    pub fn rank(&self) -> (r: u8)
        ensures
            r == level_rank(*self),
    {
        match self {
            LogLevel::Debug => 0,
            LogLevel::Info => 1,
            LogLevel::Warning => 2,
            LogLevel::Error => 3,
            LogLevel::Critical => 4,
        }
    }
}

/// What a structured log entry is about.
#[derive(Debug, Clone, Copy, PartialEq, Eq, Structural)]
pub enum LogCategory {
    /// A JSON request arrived.
    JsonRequestReceived,
    /// A JSON request was processed.
    JsonRequestProcessed,
    /// A JSON response was sent.
    JsonResponseSent,
    /// A JSON request could not be parsed.
    JsonParsingError,
    /// A transcription started.
    TranscriptionStarted,
    /// A transcription completed.
    TranscriptionCompleted,
    /// A transcription failed.
    TranscriptionFailed,
    /// A performance measurement.
    PerformanceMetric,
    /// A system event.
    SystemEvent,
    /// A configuration change.
    ConfigurationChange,
    /// An alert was raised.
    AlertTriggered,
    /// A maintenance operation.
    MaintenanceOperation,
}

/// Settings of the structured event log.
#[derive(Debug, Clone)]
pub struct LoggingConfig {
    /// Whether logging is enabled.
    pub enabled: bool,
    /// How many entries are kept.
    pub max_entries: usize,
    /// Whether requests are logged.
    pub log_requests: bool,
    /// Whether responses are logged.
    pub log_responses: bool,
    /// Whether performance measurements are logged.
    pub log_performance: bool,
    /// Whether stack traces are logged.
    pub log_stack_traces: bool,
    /// The least severe level that is logged.
    pub log_level: LogLevel,
}

impl Default for LoggingConfig {
    fn default() -> (r: Self)
        ensures
            r.enabled && r.log_requests && r.log_responses && r.log_performance,
            !r.log_stack_traces,
            r.max_entries == 1000,
            r.log_level == LogLevel::Info,
    {
        LoggingConfig {
            enabled: true,
            max_entries: 1000,
            log_requests: true,
            log_responses: true,
            log_performance: true,
            log_stack_traces: false,
            log_level: LogLevel::Info,
        }
    }
}

impl LoggingConfig {
    /// Whether an entry at `level` is logged: it must be at least as severe as
    /// the configured level.
    pub fn should_log_level(&self, level: &LogLevel) -> (r: bool)
        ensures
            r == (level_rank(*level) >= level_rank(self.log_level)),
    {
        level.rank() >= self.log_level.rank()
    }
}

/// Which JSON interface metrics are tracked.
#[derive(Debug, Clone)]
pub struct JsonInterfaceMetricsConfig {
    /// Track successes and failures.
    pub track_success_failure: bool,
    /// Track parsing errors.
    pub track_parsing_errors: bool,
    /// Track request sizes.
    pub track_request_sizes: bool,
    /// Track response times.
    pub track_response_times: bool,
}

impl Default for JsonInterfaceMetricsConfig {
    fn default() -> (r: Self)
        ensures
            r.track_success_failure && r.track_parsing_errors,
            r.track_request_sizes && r.track_response_times,
    {
        JsonInterfaceMetricsConfig {
            track_success_failure: true,
            track_parsing_errors: true,
            track_request_sizes: true,
            track_response_times: true,
        }
    }
}

/// Which performance metrics are tracked.
#[derive(Debug, Clone)]
pub struct PerformanceMetricsConfig {
    /// Track transcription performance.
    pub track_transcription_performance: bool,
    /// Track memory usage.
    pub track_memory_usage: bool,
    /// Track CPU usage.
    pub track_cpu_usage: bool,
    /// Sampling interval in seconds.
    pub sampling_interval: u64,
}

impl Default for PerformanceMetricsConfig {
    fn default() -> (r: Self)
        ensures
            r.track_transcription_performance && r.track_memory_usage && r.track_cpu_usage,
            r.sampling_interval == 10,
    {
        PerformanceMetricsConfig {
            track_transcription_performance: true,
            track_memory_usage: true,
            track_cpu_usage: true,
            sampling_interval: 10,
        }
    }
}

/// Counters of the JSON interface.
#[derive(Debug, Clone)]
pub struct JsonInterfaceMetrics {
    /// Requests seen.
    pub total_requests: u64,
    /// Requests that succeeded.
    pub successful_requests: u64,
    /// Requests that failed.
    pub failed_requests: u64,
    /// Requests that could not be parsed.
    pub parsing_errors: u64,
    /// Recent request sizes in bytes.
    pub request_sizes: VecDeque<u64>,
    /// Recent response times in milliseconds.
    pub response_times: VecDeque<u64>,
    /// When the counters were last reset.
    pub last_reset: SystemTime,
}

impl JsonInterfaceMetrics {
    /// All counters at zero, no samples, reset now.
    pub fn new() -> (r: Self)
        ensures
            r.total_requests == 0 && r.successful_requests == 0,
            r.failed_requests == 0 && r.parsing_errors == 0,
            r.request_sizes@.len() == 0 && r.response_times@.len() == 0,
    {
        JsonInterfaceMetrics {
            total_requests: 0,
            successful_requests: 0,
            failed_requests: 0,
            parsing_errors: 0,
            request_sizes: VecDeque::new(),
            response_times: VecDeque::new(),
            last_reset: SystemTime::now(),
        }
    }
}

/// `history` with `x` added at the back, dropping the oldest sample once
/// more than `max` are held.
pub open spec fn windowed(history: Seq<u64>, x: u64, max: nat) -> Seq<u64> {
    let grown = history.push(x);
    if grown.len() > max {
        grown.subrange(1, grown.len() as int)
    } else {
        grown
    }
}

/// Adds `x` to the back of `history`, dropping the oldest sample once more
/// than `max` are held.
fn push_windowed(history: &mut VecDeque<u64>, x: u64, max: usize)
    ensures
        final(history)@ == windowed(old(history)@, x, max as nat),
{
    history.push_back(x);
    if history.len() > max {
        let _ = history.pop_front();
    }
}

impl JsonInterfaceMetrics {
    /// Counts one request as a success or a failure, and keeps its size and
    /// response time in the bounded histories where those are tracked and
    /// given.
    pub fn record_request(
        &mut self,
        config: &JsonInterfaceMetricsConfig,
        max_metrics: usize,
        success: bool,
        request_size: Option<u64>,
        response_time_ms: Option<u64>,
    )
        requires
            old(self).total_requests < u64::MAX,
            success ==> old(self).successful_requests < u64::MAX,
            !success ==> old(self).failed_requests < u64::MAX,
        ensures
            final(self).total_requests == old(self).total_requests + 1,
            final(self).successful_requests == old(self).successful_requests + if success {
                1int
            } else {
                0int
            },
            final(self).failed_requests == old(self).failed_requests + if success {
                0int
            } else {
                1int
            },
            final(self).parsing_errors == old(self).parsing_errors,
            final(self).request_sizes@ == match request_size {
                Some(n) => if config.track_request_sizes {
                    windowed(old(self).request_sizes@, n, max_metrics as nat)
                } else {
                    old(self).request_sizes@
                },
                None => old(self).request_sizes@,
            },
            final(self).response_times@ == match response_time_ms {
                Some(t) => if config.track_response_times {
                    windowed(old(self).response_times@, t, max_metrics as nat)
                } else {
                    old(self).response_times@
                },
                None => old(self).response_times@,
            },
    {
        self.total_requests = self.total_requests + 1;
        if success {
            self.successful_requests = self.successful_requests + 1;
        } else {
            self.failed_requests = self.failed_requests + 1;
        }
        if config.track_request_sizes {
            if let Some(n) = request_size {
                push_windowed(&mut self.request_sizes, n, max_metrics);
            }
        }
        if config.track_response_times {
            if let Some(t) = response_time_ms {
                push_windowed(&mut self.response_times, t, max_metrics);
            }
        }
    }

    /// Counts one request that could not be parsed.
    pub fn record_parsing_error(&mut self)
        requires
            old(self).parsing_errors < u64::MAX,
        ensures
            final(self).parsing_errors == old(self).parsing_errors + 1,
            final(self).total_requests == old(self).total_requests,
            final(self).successful_requests == old(self).successful_requests,
            final(self).failed_requests == old(self).failed_requests,
    {
        self.parsing_errors = self.parsing_errors + 1;
    }
}

/// Memory usage samples.
#[derive(Debug, Clone)]
pub struct MemoryMetrics {
    /// Current usage in bytes.
    pub current_usage_bytes: u64,
    /// Peak usage in bytes.
    pub peak_usage_bytes: u64,
    /// Recent usage samples.
    pub usage_history: VecDeque<u64>,
}

impl MemoryMetrics {
    /// No usage recorded.
    pub fn new() -> (r: Self)
        ensures
            r.current_usage_bytes == 0,
            r.peak_usage_bytes == 0,
            r.usage_history@.len() == 0,
    {
        MemoryMetrics { current_usage_bytes: 0, peak_usage_bytes: 0, usage_history: VecDeque::new() }
    }

    /// Records a usage sample: it becomes the current usage, raises the peak
    /// where higher, and enters the bounded history.
    pub fn record_usage(&mut self, usage_bytes: u64, max_metrics: usize)
        ensures
            final(self).current_usage_bytes == usage_bytes,
            final(self).peak_usage_bytes == if usage_bytes > old(self).peak_usage_bytes {
                usage_bytes
            } else {
                old(self).peak_usage_bytes
            },
            final(self).usage_history@ == windowed(
                old(self).usage_history@,
                usage_bytes,
                max_metrics as nat,
            ),
    {
        self.current_usage_bytes = usage_bytes;
        if usage_bytes > self.peak_usage_bytes {
            self.peak_usage_bytes = usage_bytes;
        }
        push_windowed(&mut self.usage_history, usage_bytes, max_metrics);
    }
}

/// Kinds of alert.
#[derive(Debug, Clone, Copy, PartialEq, Eq, Structural)]
pub enum AlertType {
    /// High error rate.
    HighErrorRate,
    /// Slow response time.
    SlowResponseTime,
    /// High memory usage.
    HighMemoryUsage,
    /// High CPU usage.
    HighCpuUsage,
    /// JSON parsing errors.
    JsonParsingErrors,
    /// Transcription failures.
    TranscriptionFailures,
}

/// Alert severity levels.
#[derive(Debug, Clone, Copy, PartialEq, Eq, Structural)]
pub enum AlertSeverity {
    /// Informational alert.
    Info,
    /// Warning alert.
    Warning,
    /// Error alert.
    Error,
    /// Critical alert.
    Critical,
}

/// One raised alert.
#[derive(Debug, Clone)]
pub struct Alert {
    /// Alert type.
    pub alert_type: AlertType,
    /// Alert severity.
    pub severity: AlertSeverity,
    /// Alert message.
    pub message: String,
    /// When the alert was raised.
    pub timestamp: SystemTime,
    /// Whether the alert is resolved.
    pub resolved: bool,
}

/// The active alerts and a history of past ones.
#[derive(Debug, Clone)]
pub struct AlertingState {
    /// Active alerts.
    pub active_alerts: Vec<Alert>,
    /// Past alerts.
    pub alert_history: VecDeque<Alert>,
    /// When alerts were last checked.
    pub last_check: SystemTime,
}

/// When resolving `t`, an active alert stays unless it is an unresolved
/// alert of type `t`.
pub open spec fn kept_when_resolving(t: AlertType) -> spec_fn(Alert) -> bool {
    |a: Alert| !(a.alert_type == t && !a.resolved)
}

/// When clearing, an active alert stays unless it is resolved.
pub open spec fn kept_when_clearing() -> spec_fn(Alert) -> bool {
    |a: Alert| !a.resolved
}

impl AlertingState {
    /// No alerts, checked now.
    pub fn new() -> (r: Self)
        ensures
            r.active_alerts@.len() == 0,
            r.alert_history@.len() == 0,
    {
        AlertingState {
            active_alerts: Vec::new(),
            alert_history: VecDeque::new(),
            last_check: SystemTime::now(),
        }
    }

    /// Drops the active alerts that `keep` rejects, keeping the order of the
    /// others; `keep` is the resolving filter for `t` when `resolving`, the
    /// clearing filter otherwise.
    fn retain_active(&mut self, t: AlertType, resolving: bool, Ghost(keep): Ghost<spec_fn(Alert) -> bool>)
        requires
            keep == if resolving {
                kept_when_resolving(t)
            } else {
                kept_when_clearing()
            },
        ensures
            final(self).alert_history == old(self).alert_history,
            final(self).active_alerts@ == old(self).active_alerts@.filter(keep),
    {
        let ghost orig = self.active_alerts@;
        let mut rest: Vec<Alert> = Vec::new();
        std::mem::swap(&mut rest, &mut self.active_alerts);
        assert(orig.take(0).filter(keep) =~= Seq::<Alert>::empty()) by {
            reveal(Seq::filter);
        }
        assert(rest@ =~= orig.skip(0));
        while rest.len() > 0
            invariant
                rest@.len() <= orig.len(),
                rest@ == orig.skip(orig.len() - rest@.len()),
                self.active_alerts@ == orig.take(orig.len() - rest@.len()).filter(keep),
                self.alert_history == old(self).alert_history,
                keep == if resolving {
                    kept_when_resolving(t)
                } else {
                    kept_when_clearing()
                },
            decreases rest@.len(),
        {
            let ghost j = orig.len() - rest@.len();
            let a = rest.remove(0);
            assert(orig.take(j + 1).drop_last() =~= orig.take(j));
            assert(orig.take(j + 1).last() == a);
            assert(orig.take(j + 1).filter(keep) == if keep(a) {
                orig.take(j).filter(keep).push(a)
            } else {
                orig.take(j).filter(keep)
            }) by {
                reveal(Seq::filter);
            }
            assert(rest@ =~= orig.skip(j + 1));
            let stays = if resolving {
                !(a.alert_type == t && !a.resolved)
            } else {
                !a.resolved
            };
            if stays {
                self.active_alerts.push(a);
            }
        }
        assert(orig.take(orig.len() as int) =~= orig);
    }

    /// Resolves the unresolved active alerts of type `alert_type`, which
    /// leave the active list; the others stay in order.
    pub fn resolve_alert(&mut self, alert_type: &AlertType)
        ensures
            final(self).alert_history == old(self).alert_history,
            final(self).active_alerts@ == old(self).active_alerts@.filter(
                kept_when_resolving(*alert_type),
            ),
    {
        self.retain_active(*alert_type, true, Ghost(kept_when_resolving(*alert_type)));
    }

    /// Drops the resolved alerts from the active list.
    pub fn clear_resolved_alerts(&mut self)
        ensures
            final(self).alert_history == old(self).alert_history,
            final(self).active_alerts@ == old(self).active_alerts@.filter(kept_when_clearing()),
    {
        self.retain_active(AlertType::HighErrorRate, false, Ghost(kept_when_clearing()));
    }

    /// The number of active alerts.
    pub fn active_alerts_count(&self) -> (r: usize)
        ensures
            r == self.active_alerts@.len(),
    {
        self.active_alerts.len()
    }

    /// The number of alerts in the history.
    pub fn alert_history_count(&self) -> (r: usize)
        ensures
            r == self.alert_history@.len(),
    {
        self.alert_history.len()
    }
}

} // verus!
