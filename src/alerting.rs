//! Alerting configuration: where alerts go, how they escalate, when they are
//! suppressed and how they are announced.
use vstd::prelude::*;
use std::collections::HashMap;
use std::time::Duration;

verus! {

/// Relies on `Duration::from_secs`: a span of whole seconds, never panicking.
pub assume_specification[ core::time::Duration::from_secs ](secs: u64) -> Duration;

/// Relies on `Duration`'s `Clone`, which copies the value.
pub assume_specification[ <core::time::Duration as Clone>::clone ](d: &Duration) -> (r: Duration)
    ensures
        r == *d,
;

/// Alert severity levels, from least to most severe.
#[derive(Debug, Clone, Copy, PartialEq, Eq, Structural, Hash)]
pub enum AlertSeverity {
    /// Informational alert.
    Info,
    /// Warning alert.
    Warning,
    /// Error alert.
    Error,
    /// Critical alert.
    Critical,
}

/// The rank of a severity: 1 for `Info` up to 4 for `Critical`.
pub open spec fn severity_rank(s: AlertSeverity) -> nat {
    match s {
        AlertSeverity::Info => 1,
        AlertSeverity::Warning => 2,
        AlertSeverity::Error => 3,
        AlertSeverity::Critical => 4,
    }
}

impl AlertSeverity {
    /// The severity as an ordinal; higher is more severe.
    pub fn ordinal(&self) -> (r: usize)
        ensures
            r == severity_rank(*self),
    {
        match self {
            AlertSeverity::Info => 1,
            AlertSeverity::Warning => 2,
            AlertSeverity::Error => 3,
            AlertSeverity::Critical => 4,
        }
    }

    /// Whether this severity is more severe than `other`.
    pub fn is_higher_than(&self, other: &AlertSeverity) -> (r: bool)
        ensures
            r == (severity_rank(*self) > severity_rank(*other)),
    {
        self.ordinal() > other.ordinal()
    }

    /// Whether this severity is less severe than `other`.
    pub fn is_lower_than(&self, other: &AlertSeverity) -> (r: bool)
        ensures
            r == (severity_rank(*self) < severity_rank(*other)),
    {
        self.ordinal() < other.ordinal()
    }

    /// Whether this severity is as severe as `other`.
    pub fn is_equal_to(&self, other: &AlertSeverity) -> (r: bool)
        ensures
            r == (severity_rank(*self) == severity_rank(*other)),
            r == (*self == *other),
    {
        self.ordinal() == other.ordinal()
    }
}

/// Alert delivery configuration.
#[derive(Debug, Clone)]
pub struct AlertDeliveryConfig {
    /// Whether to deliver alerts to stderr.
    pub stderr: bool,
    /// Whether to deliver alerts to log files.
    pub log_files: bool,
    /// Log file path for alerts.
    pub log_file_path: Option<String>,
    /// Whether to deliver alerts to external systems.
    pub external_delivery: bool,
    /// External delivery endpoints.
    pub external_endpoints: Vec<AlertEndpoint>,
}

impl Default for AlertDeliveryConfig {
    fn default() -> (r: Self)
        ensures
            r.stderr && r.log_files && !r.external_delivery,
            r.log_file_path matches Some(p) && p@ == "/var/log/whisper-alerts.log"@,
            r.external_endpoints@.len() == 0,
    {
        AlertDeliveryConfig {
            stderr: true,
            log_files: true,
            log_file_path: Some(String::from_str("/var/log/whisper-alerts.log")),
            external_delivery: false,
            external_endpoints: Vec::new(),
        }
    }
}

/// An external endpoint that receives alerts.
#[derive(Debug, Clone)]
pub struct AlertEndpoint {
    /// Endpoint name.
    pub name: String,
    /// Endpoint URL.
    pub url: String,
    /// Endpoint type.
    pub endpoint_type: AlertEndpointType,
    /// Authentication configuration.
    pub auth: Option<AlertAuthConfig>,
    /// Headers to include in requests.
    pub headers: HashMap<String, String>,
    /// Timeout for requests, in seconds.
    pub timeout_seconds: u64,
}

/// Alert endpoint types.
#[derive(Debug, Clone, Copy, PartialEq, Eq, Structural)]
pub enum AlertEndpointType {
    /// Webhook endpoint.
    Webhook,
    /// Email endpoint.
    Email,
    /// Slack endpoint.
    Slack,
    /// PagerDuty endpoint.
    PagerDuty,
    /// Custom HTTP endpoint.
    Http,
}

/// Alert authentication configuration.
#[derive(Debug, Clone)]
pub struct AlertAuthConfig {
    /// Authentication type.
    pub auth_type: AlertAuthType,
    /// Authentication credentials.
    pub credentials: HashMap<String, String>,
}

/// Alert authentication types.
#[derive(Debug, Clone, Copy, PartialEq, Eq, Structural)]
pub enum AlertAuthType {
    /// Basic authentication.
    Basic,
    /// Bearer token.
    Bearer,
    /// API key.
    ApiKey,
    /// OAuth2.
    OAuth2,
}

/// A user-defined alert rule.
#[derive(Debug, Clone)]
pub struct CustomAlertRule {
    /// Rule name.
    pub name: String,
    /// Whether the rule is enabled.
    pub enabled: bool,
    /// Rule condition.
    pub condition: String,
    /// Time window for evaluation.
    pub time_window: Duration,
    /// Number of consecutive breaches required to trigger.
    pub consecutive_breaches: usize,
    /// Alert severity.
    pub severity: AlertSeverity,
    /// Alert message template.
    pub message_template: String,
    /// Custom evaluation function name.
    pub evaluation_function: Option<String>,
}

/// Comparison operators for threshold rules.
#[derive(Debug, Clone, Copy, PartialEq, Eq, Structural)]
pub enum ComparisonOperator {
    /// Greater than.
    GreaterThan,
    /// Greater than or equal to.
    GreaterThanOrEqual,
    /// Less than.
    LessThan,
    /// Less than or equal to.
    LessThanOrEqual,
    /// Equal to.
    EqualTo,
    /// Not equal to.
    NotEqualTo,
}

/// Alert escalation configuration.
#[derive(Debug, Clone)]
pub struct AlertEscalationConfig {
    /// Whether escalation is enabled.
    pub enabled: bool,
    /// Escalation rules.
    pub rules: Vec<EscalationRule>,
    /// Maximum escalation level.
    pub max_level: usize,
}

/// An escalation rule.
#[derive(Debug, Clone)]
pub struct EscalationRule {
    /// Rule name.
    pub name: String,
    /// Initial severity level.
    pub initial_severity: AlertSeverity,
    /// Escalation steps.
    pub steps: Vec<EscalationStep>,
}

/// One escalation step.
#[derive(Debug, Clone)]
pub struct EscalationStep {
    /// Time after which to escalate.
    pub after_duration: Duration,
    /// Next severity level.
    pub next_severity: AlertSeverity,
    /// Additional notification channels.
    pub additional_channels: Vec<String>,
}

impl Default for AlertEscalationConfig {
    fn default() -> (r: Self)
        ensures
            r.enabled,
            r.max_level == 3,
            r.rules@.len() == 1,
            r.rules@[0].name@ == "severity_escalation"@,
            r.rules@[0].initial_severity == AlertSeverity::Warning,
            r.rules@[0].steps@.len() == 2,
            r.rules@[0].steps@[0].next_severity == AlertSeverity::Error,
            r.rules@[0].steps@[1].next_severity == AlertSeverity::Critical,
    {
        let first = EscalationStep {
            after_duration: Duration::from_secs(600),
            next_severity: AlertSeverity::Error,
            additional_channels: vec![String::from_str("email")],
        };
        let second = EscalationStep {
            after_duration: Duration::from_secs(1800),
            next_severity: AlertSeverity::Critical,
            additional_channels: vec![String::from_str("pager_duty")],
        };
        let rule = EscalationRule {
            name: String::from_str("severity_escalation"),
            initial_severity: AlertSeverity::Warning,
            steps: vec![first, second],
        };
        AlertEscalationConfig { enabled: true, rules: vec![rule], max_level: 3 }
    }
}

/// Alert suppression configuration.
#[derive(Debug, Clone)]
pub struct AlertSuppressionConfig {
    /// Whether suppression is enabled.
    pub enabled: bool,
    /// Suppression rules.
    pub rules: Vec<SuppressionRule>,
}

/// A suppression rule.
#[derive(Debug, Clone)]
pub struct SuppressionRule {
    /// Rule name.
    pub name: String,
    /// Alert types to suppress.
    pub alert_types: Vec<String>,
    /// Time window for suppression.
    pub suppression_window: Duration,
    /// Maximum suppressed alerts.
    pub max_suppressed: usize,
    /// Whether to suppress during maintenance windows.
    pub suppress_during_maintenance: bool,
}

impl Default for AlertSuppressionConfig {
    fn default() -> (r: Self)
        ensures
            r.enabled,
            r.rules@.len() == 2,
            r.rules@[0].name@ == "maintenance_suppression"@,
            r.rules@[0].alert_types@.len() == 4,
            r.rules@[0].max_suppressed == 10,
            r.rules@[0].suppress_during_maintenance,
            r.rules@[1].name@ == "flapping_suppression"@,
            r.rules@[1].alert_types@.len() == 2,
            r.rules@[1].max_suppressed == 5,
            !r.rules@[1].suppress_during_maintenance,
    {
        let maintenance = SuppressionRule {
            name: String::from_str("maintenance_suppression"),
            alert_types: vec![
                String::from_str("HighMemoryUsage"),
                String::from_str("HighCpuUsage"),
                String::from_str("HighProcessMemory"),
                String::from_str("HighProcessCpu"),
            ],
            suppression_window: Duration::from_secs(3600),
            max_suppressed: 10,
            suppress_during_maintenance: true,
        };
        let flapping = SuppressionRule {
            name: String::from_str("flapping_suppression"),
            alert_types: vec![String::from_str("HighErrorRate"), String::from_str("SlowResponseTime")],
            suppression_window: Duration::from_secs(1800),
            max_suppressed: 5,
            suppress_during_maintenance: false,
        };
        AlertSuppressionConfig { enabled: true, rules: vec![maintenance, flapping] }
    }
}

/// Alert notification configuration.
#[derive(Debug, Clone)]
pub struct AlertNotificationConfig {
    /// Whether notifications are enabled.
    pub enabled: bool,
    /// Notification channels.
    pub channels: Vec<NotificationChannel>,
    /// Notification templates by name.
    pub templates: HashMap<String, NotificationTemplate>,
}

/// A notification channel.
#[derive(Debug, Clone)]
pub struct NotificationChannel {
    /// Channel name.
    pub name: String,
    /// Channel type.
    pub channel_type: NotificationChannelType,
    /// Channel configuration.
    pub config: NotificationChannelConfig,
    /// Alert severities to notify on.
    pub severities: Vec<AlertSeverity>,
    /// Time restrictions.
    pub time_restrictions: Option<TimeRestrictions>,
}

/// Notification channel types.
#[derive(Debug, Clone, Copy, PartialEq, Eq, Structural)]
pub enum NotificationChannelType {
    /// Email notification.
    Email,
    /// Slack notification.
    Slack,
    /// PagerDuty notification.
    PagerDuty,
    /// Webhook notification.
    Webhook,
    /// Custom HTTP notification.
    Http,
    /// File-based notification.
    File,
}

/// Per-kind settings of a notification channel; the one matching the
/// channel's type is set.
#[derive(Debug, Clone)]
pub struct NotificationChannelConfig {
    /// Email settings.
    pub email: Option<EmailConfig>,
    /// Slack settings.
    pub slack: Option<SlackConfig>,
    /// PagerDuty settings.
    pub pager_duty: Option<PagerDutyConfig>,
    /// Webhook settings.
    pub webhook: Option<WebhookConfig>,
    /// HTTP settings.
    pub http: Option<HttpConfig>,
    /// File settings.
    pub file: Option<FileConfig>,
}

impl Default for NotificationChannelConfig {
    fn default() -> (r: Self)
        ensures
            r.email is None && r.slack is None && r.pager_duty is None,
            r.webhook is None && r.http is None && r.file is None,
    {
        NotificationChannelConfig {
            email: None,
            slack: None,
            pager_duty: None,
            webhook: None,
            http: None,
            file: None,
        }
    }
}

impl Default for AlertNotificationConfig {
    fn default() -> (r: Self)
        ensures
            r.enabled,
            r.channels@.len() == 1,
            r.channels@[0].name@ == "stderr"@,
            r.channels@[0].channel_type == NotificationChannelType::File,
            r.channels@[0].config.file matches Some(f) && f.file_path@ == "/dev/stderr"@
                && !f.append && f.format == FileFormat::Text,
            r.channels@[0].severities@ == seq![
                AlertSeverity::Info,
                AlertSeverity::Warning,
                AlertSeverity::Error,
                AlertSeverity::Critical,
            ],
            r.channels@[0].time_restrictions is None,
            r.templates@.len() == 0,
    {
        let file = FileConfig {
            file_path: String::from_str("/dev/stderr"),
            append: false,
            format: FileFormat::Text,
        };
        let config = NotificationChannelConfig {
            email: None,
            slack: None,
            pager_duty: None,
            webhook: None,
            http: None,
            file: Some(file),
        };
        let channel = NotificationChannel {
            name: String::from_str("stderr"),
            channel_type: NotificationChannelType::File,
            config,
            severities: vec![
                AlertSeverity::Info,
                AlertSeverity::Warning,
                AlertSeverity::Error,
                AlertSeverity::Critical,
            ],
            time_restrictions: None,
        };
        let channels = vec![channel];
        assert(channels@[0].severities@ =~= seq![
            AlertSeverity::Info,
            AlertSeverity::Warning,
            AlertSeverity::Error,
            AlertSeverity::Critical,
        ]);
        AlertNotificationConfig { enabled: true, channels, templates: HashMap::new() }
    }
}

/// Email settings.
#[derive(Debug, Clone)]
pub struct EmailConfig {
    /// SMTP server.
    pub smtp_server: String,
    /// SMTP port.
    pub smtp_port: u16,
    /// Username.
    pub username: String,
    /// Password.
    pub password: String,
    /// From address.
    pub from_address: String,
    /// To addresses.
    pub to_addresses: Vec<String>,
    /// Whether to use TLS.
    pub use_tls: bool,
}

impl Default for EmailConfig {
    fn default() -> (r: Self)
        ensures
            r.smtp_server@ == "localhost"@,
            r.smtp_port == 587,
            r.username@.len() == 0 && r.password@.len() == 0,
            r.from_address@ == "alerts@whisper-server.local"@,
            r.to_addresses@.len() == 0,
            r.use_tls,
    {
        EmailConfig {
            smtp_server: String::from_str("localhost"),
            smtp_port: 587,
            username: String::new(),
            password: String::new(),
            from_address: String::from_str("alerts@whisper-server.local"),
            to_addresses: Vec::new(),
            use_tls: true,
        }
    }
}

/// Slack settings.
#[derive(Debug, Clone)]
pub struct SlackConfig {
    /// Webhook URL.
    pub webhook_url: String,
    /// Channel name.
    pub channel: String,
    /// Username.
    pub username: String,
    /// Whether to send as bot.
    pub as_bot: bool,
}

impl Default for SlackConfig {
    fn default() -> (r: Self)
        ensures
            r.webhook_url@.len() == 0,
            r.channel@ == "#alerts"@,
            r.username@ == "Whisper Server"@,
            !r.as_bot,
    {
        SlackConfig {
            webhook_url: String::new(),
            channel: String::from_str("#alerts"),
            username: String::from_str("Whisper Server"),
            as_bot: false,
        }
    }
}

/// PagerDuty settings.
#[derive(Debug, Clone)]
pub struct PagerDutyConfig {
    /// Integration key.
    pub integration_key: String,
    /// Severity mapping.
    pub severity_mapping: HashMap<AlertSeverity, String>,
}

impl Default for PagerDutyConfig {
    fn default() -> (r: Self)
        ensures
            r.integration_key@.len() == 0,
            r.severity_mapping@.len() == 0,
    {
        PagerDutyConfig { integration_key: String::new(), severity_mapping: HashMap::new() }
    }
}

/// Webhook settings.
#[derive(Debug, Clone)]
pub struct WebhookConfig {
    /// Webhook URL.
    pub url: String,
    /// HTTP method.
    pub method: String,
    /// Headers.
    pub headers: HashMap<String, String>,
    /// Timeout.
    pub timeout: Duration,
}

impl Default for WebhookConfig {
    fn default() -> (r: Self)
        ensures
            r.url@.len() == 0,
            r.method@ == "POST"@,
            r.headers@.len() == 0,
    {
        WebhookConfig {
            url: String::new(),
            method: String::from_str("POST"),
            headers: HashMap::new(),
            timeout: Duration::from_secs(30),
        }
    }
}

/// HTTP settings.
#[derive(Debug, Clone)]
pub struct HttpConfig {
    /// Base URL.
    pub base_url: String,
    /// API key.
    pub api_key: String,
    /// Headers.
    pub headers: HashMap<String, String>,
    /// Timeout.
    pub timeout: Duration,
}

impl Default for HttpConfig {
    fn default() -> (r: Self)
        ensures
            r.base_url@.len() == 0,
            r.api_key@.len() == 0,
            r.headers@.len() == 0,
    {
        HttpConfig {
            base_url: String::new(),
            api_key: String::new(),
            headers: HashMap::new(),
            timeout: Duration::from_secs(30),
        }
    }
}

/// File settings.
#[derive(Debug, Clone)]
pub struct FileConfig {
    /// File path.
    pub file_path: String,
    /// Whether to append.
    pub append: bool,
    /// File format.
    pub format: FileFormat,
}

impl Default for FileConfig {
    fn default() -> (r: Self)
        ensures
            r.file_path@ == "/var/log/whisper-alerts.log"@,
            r.append,
            r.format == FileFormat::Text,
    {
        FileConfig {
            file_path: String::from_str("/var/log/whisper-alerts.log"),
            append: true,
            format: FileFormat::Text,
        }
    }
}

/// File format.
#[derive(Debug, Clone, Copy, PartialEq, Eq, Structural)]
pub enum FileFormat {
    /// Plain text.
    Text,
    /// JSON.
    Json,
    /// CSV.
    Csv,
}

/// A notification template.
#[derive(Debug, Clone)]
pub struct NotificationTemplate {
    /// Template name.
    pub name: String,
    /// Template subject.
    pub subject: String,
    /// Template body.
    pub body: String,
    /// Template format.
    pub format: TemplateFormat,
}

impl Default for NotificationTemplate {
    fn default() -> (r: Self)
        ensures
            r.name@ == "default"@,
            r.subject@ == "Whisper Server Alert"@,
            r.body@ == "An alert has been triggered: {message}"@,
            r.format == TemplateFormat::Text,
    {
        NotificationTemplate {
            name: String::from_str("default"),
            subject: String::from_str("Whisper Server Alert"),
            body: String::from_str("An alert has been triggered: {message}"),
            format: TemplateFormat::Text,
        }
    }
}

/// Template format.
#[derive(Debug, Clone, Copy, PartialEq, Eq, Structural)]
pub enum TemplateFormat {
    /// Plain text.
    Text,
    /// HTML.
    Html,
    /// Markdown.
    Markdown,
}

/// Hours during which a channel is used.
#[derive(Debug, Clone)]
pub struct TimeRestrictions {
    /// Start time, `HH:MM`.
    pub start_time: String,
    /// End time, `HH:MM`.
    pub end_time: String,
    /// Time zone.
    pub timezone: String,
    /// Whether the restrictions are active.
    pub active: bool,
}

impl Default for TimeRestrictions {
    fn default() -> (r: Self)
        ensures
            r.start_time@ == "09:00"@,
            r.end_time@ == "17:00"@,
            r.timezone@ == "UTC"@,
            !r.active,
    {
        TimeRestrictions {
            start_time: String::from_str("09:00"),
            end_time: String::from_str("17:00"),
            timezone: String::from_str("UTC"),
            active: false,
        }
    }
}

} // verus!
