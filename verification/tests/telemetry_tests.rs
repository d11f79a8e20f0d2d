use mysten_infra::telemetry::{log_output, subscriber_plan, LogOutput, SubscriberPlan, TelemetryConfig};

fn config() -> TelemetryConfig {
    TelemetryConfig { service_name: "my_app".into(), ..Default::default() }
}

#[test]
fn default_config_logs_formatted_to_stdout() {
    let c = config();
    assert!(matches!(log_output(&c), LogOutput::Stdout));
    match subscriber_plan(&c) {
        SubscriberPlan::Formatted { ansi, jaeger_service } => {
            assert!(ansi);
            assert!(jaeger_service.is_none());
        }
        other => panic!("unexpected plan {:?}", other),
    }
}

#[test]
fn json_takes_precedence() {
    let c = TelemetryConfig { json_log_output: true, tokio_console: true, enable_tracing: true, ..config() };
    match subscriber_plan(&c) {
        SubscriberPlan::Json { service_name } => assert_eq!(service_name, "my_app"),
        other => panic!("unexpected plan {:?}", other),
    }
}

#[test]
fn console_then_tracing() {
    let c = TelemetryConfig { tokio_console: true, ..config() };
    assert!(matches!(subscriber_plan(&c), SubscriberPlan::TokioConsole));
    let c = TelemetryConfig { enable_tracing: true, log_file: Some("app.log".into()), ..config() };
    match subscriber_plan(&c) {
        SubscriberPlan::Formatted { ansi, jaeger_service } => {
            assert!(!ansi);
            assert_eq!(jaeger_service.as_deref(), Some("my_app"));
        }
        other => panic!("unexpected plan {:?}", other),
    }
    match log_output(&c) {
        LogOutput::DailyFile(prefix) => assert_eq!(prefix, "app.log"),
        LogOutput::Stdout => panic!("expected a log file"),
    }
}

#[test]
fn json_logs_go_to_stdout_only() {
    let c = TelemetryConfig { json_log_output: true, log_file: Some("app.log".into()), ..config() };
    assert!(matches!(log_output(&c), LogOutput::Stdout));
}
