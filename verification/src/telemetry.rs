//! Choosing the tracing subscribers from a [`TelemetryConfig`].
use vstd::prelude::*;

verus! {

/// Configuration for different logging/tracing options.
/// - `json_log_output`: output JSON logs to stdout only; no other option takes effect.
/// - `log_file`: if defined, write output to a file starting with this name, e.g. app.log.
/// - `service_name`: the name of the service for Jaeger and Bunyan.
#[derive(Clone, Debug)]
pub struct TelemetryConfig {
    pub enable_tracing: bool,
    /// The name of the service for Jaeger and Bunyan
    pub service_name: String,
    pub tokio_console: bool,
    /// Output JSON logs. Tracing and Tokio Console are not available if this is enabled.
    pub json_log_output: bool,
    /// If defined, write output to a file starting with this name, ex app.log
    pub log_file: Option<String>,
}

impl Default for TelemetryConfig {
    fn default() -> (c: Self)
        ensures
            !c.enable_tracing,
            c.service_name@ == Seq::<char>::empty(),
            !c.tokio_console,
            !c.json_log_output,
            c.log_file is None,
    {
        TelemetryConfig {
            enable_tracing: false,
            service_name: String::new(),
            tokio_console: false,
            json_log_output: false,
            log_file: None,
        }
    }
}

/// Where log output is written.
#[derive(Clone, Debug)]
pub enum LogOutput {
    /// A file rolled daily, whose names start with the given prefix.
    DailyFile(String),
    /// Standard output.
    Stdout,
}

/// Which subscriber to install.
#[derive(Clone, Debug)]
pub enum SubscriberPlan {
    /// Bunyan-formatted JSON logs with span timings, under the given service name.
    Json { service_name: String },
    /// The Tokio console subscriber.
    TokioConsole,
    /// Human-readable logs; with ANSI colors when `ansi`, and with traces sent
    /// to Jaeger under the given service name when `jaeger_service` is set.
    Formatted { ansi: bool, jaeger_service: Option<String> },
}

/// The prefix of the log file that output goes to, or `None` for standard output.
pub open spec fn output_of(config: TelemetryConfig) -> Option<Seq<char>> {
    if config.json_log_output {
        None
    } else {
        match config.log_file {
            Some(prefix) => Some(prefix@),
            None => None,
        }
    }
}

/// The log output a configuration asks for: JSON logs always go to standard
/// output; other logs go to the log file when one is named, to standard output
/// otherwise.
pub fn log_output(config: &TelemetryConfig) -> (out: LogOutput)
    ensures
        match out {
            LogOutput::DailyFile(prefix) => output_of(*config) == Some(prefix@),
            LogOutput::Stdout => output_of(*config) is None,
        },
{
    if config.json_log_output {
        return LogOutput::Stdout;
    }
    match &config.log_file {
        Some(prefix) => LogOutput::DailyFile(prefix.clone()),
        None => LogOutput::Stdout,
    }
}

/// The subscriber a configuration asks for. JSON output takes precedence over
/// everything else, then the Tokio console; otherwise logs are formatted, with
/// colors only when writing to standard output, and traces go to Jaeger when
/// tracing is enabled.
pub fn subscriber_plan(config: &TelemetryConfig) -> (plan: SubscriberPlan)
    ensures
        match plan {
            SubscriberPlan::Json { service_name } => config.json_log_output && service_name@
                == config.service_name@,
            SubscriberPlan::TokioConsole => !config.json_log_output && config.tokio_console,
            SubscriberPlan::Formatted { ansi, jaeger_service } => {
                &&& !config.json_log_output
                &&& !config.tokio_console
                &&& ansi == (config.log_file is None)
                &&& match jaeger_service {
                    Some(name) => config.enable_tracing && name@ == config.service_name@,
                    None => !config.enable_tracing,
                }
            },
        },
{
    if config.json_log_output {
        SubscriberPlan::Json { service_name: config.service_name.clone() }
    } else if config.tokio_console {
        SubscriberPlan::TokioConsole
    } else {
        let ansi = config.log_file.is_none();
        let jaeger_service = if config.enable_tracing {
            Some(config.service_name.clone())
        } else {
            None
        };
        SubscriberPlan::Formatted { ansi, jaeger_service }
    }
}

/// Where logs go, in terms of the configuration alone: JSON logs always go to
/// standard output; otherwise a named log file is always used, whatever the
/// tracing and Tokio console settings are, and standard output when none is
/// named.
pub proof fn lemma_log_destination(config: TelemetryConfig)
    ensures
        config.json_log_output ==> output_of(config) is None,
        !config.json_log_output && config.log_file is None ==> output_of(config) is None,
        !config.json_log_output && config.log_file is Some ==> output_of(config) == Some(
            config.log_file->0@,
        ),
{
}

} // verus!
