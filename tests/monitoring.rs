use std::time::SystemTime;
use whisper_background_server::monitoring::{
    Alert, AlertSeverity, AlertType, AlertingState, JsonInterfaceMetrics, JsonInterfaceMetricsConfig,
    LogLevel, LoggingConfig, MemoryMetrics, PerformanceMetricsConfig,
};

fn alert(alert_type: AlertType, resolved: bool) -> Alert {
    Alert {
        alert_type,
        severity: AlertSeverity::Warning,
        message: "Test alert".to_string(),
        timestamp: SystemTime::now(),
        resolved,
    }
}

#[test]
fn test_alert_types_and_severities() {
    let alert = Alert {
        alert_type: AlertType::HighErrorRate,
        severity: AlertSeverity::Warning,
        message: "Test alert".to_string(),
        timestamp: SystemTime::now(),
        resolved: false,
    };

    assert_eq!(alert.alert_type, AlertType::HighErrorRate);
    assert_eq!(alert.severity, AlertSeverity::Warning);
    assert!(!alert.resolved);
}

#[test]
fn resolving_and_clearing_alerts() {
    let mut state = AlertingState::new();
    state.active_alerts.push(alert(AlertType::HighErrorRate, false));
    state.active_alerts.push(alert(AlertType::HighCpuUsage, false));
    state.active_alerts.push(alert(AlertType::HighErrorRate, true));
    state.resolve_alert(&AlertType::HighErrorRate);
    assert_eq!(state.active_alerts_count(), 2);
    assert_eq!(state.active_alerts[0].alert_type, AlertType::HighCpuUsage);
    assert!(state.active_alerts[1].resolved);
    state.clear_resolved_alerts();
    assert_eq!(state.active_alerts_count(), 1);
    assert_eq!(state.alert_history_count(), 0);
}

#[test]
fn request_counters_and_bounded_history() {
    let mut m = JsonInterfaceMetrics::new();
    let config = JsonInterfaceMetricsConfig::default();
    m.record_request(&config, 2, true, Some(1024), Some(100));
    m.record_request(&config, 2, false, Some(2048), Some(200));
    m.record_request(&config, 2, true, Some(4096), None);
    m.record_parsing_error();
    assert_eq!(m.total_requests, 3);
    assert_eq!(m.successful_requests, 2);
    assert_eq!(m.failed_requests, 1);
    assert_eq!(m.parsing_errors, 1);
    assert_eq!(m.request_sizes.iter().copied().collect::<Vec<u64>>(), vec![2048, 4096]);
    assert_eq!(m.response_times.iter().copied().collect::<Vec<u64>>(), vec![100, 200]);
}

#[test]
fn memory_peak_and_history() {
    let mut m = MemoryMetrics::new();
    m.record_usage(10, 2);
    m.record_usage(30, 2);
    m.record_usage(20, 2);
    assert_eq!(m.current_usage_bytes, 20);
    assert_eq!(m.peak_usage_bytes, 30);
    assert_eq!(m.usage_history.iter().copied().collect::<Vec<u64>>(), vec![30, 20]);
}

#[test]
fn logging_levels_and_defaults() {
    let config = LoggingConfig::default();
    assert_eq!(config.max_entries, 1000);
    assert_eq!(config.log_level, LogLevel::Info);
    assert!(!config.should_log_level(&LogLevel::Debug));
    assert!(config.should_log_level(&LogLevel::Info));
    assert!(config.should_log_level(&LogLevel::Critical));
    assert_eq!(PerformanceMetricsConfig::default().sampling_interval, 10);
}
