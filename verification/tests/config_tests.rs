use pravega_sink::config::{
    index_stream_name, parse_scoped_stream, ConfigError, SinkConfig, TimestampMode,
    DEFAULT_BUFFER_SIZE, DEFAULT_INDEX_MAX_NANOS, DEFAULT_INDEX_MIN_NANOS,
    DEFAULT_RETENTION_MAINTENANCE_INTERVAL_SECONDS,
};
use pravega_sink::retention::{RetentionPolicy, RetentionType};

#[test]
fn defaults() {
    let c = SinkConfig::default();
    assert!(c.scope.is_none());
    assert!(c.stream.is_none());
    assert!(c.controller.is_none());
    assert!(!c.seal);
    assert_eq!(c.buffer_size, DEFAULT_BUFFER_SIZE);
    assert_eq!(c.timestamp_mode, TimestampMode::Tai);
    assert_eq!(c.index_min_nanos, DEFAULT_INDEX_MIN_NANOS);
    assert_eq!(c.index_max_nanos, DEFAULT_INDEX_MAX_NANOS);
    assert!(c.allow_create_scope);
    assert!(c.keycloak_file.is_none());
    assert_eq!(c.retention_type, RetentionType::Disabled);
    assert_eq!(
        c.retention_maintenance_interval_seconds,
        DEFAULT_RETENTION_MAINTENANCE_INTERVAL_SECONDS
    );
}

fn full_config() -> SinkConfig {
    let mut c = SinkConfig::default();
    c.scope = Some(String::from("examples"));
    c.stream = Some(String::from("camera1"));
    c.controller = Some(String::from("tcp://127.0.0.1:9090"));
    c
}

#[test]
fn validation_reports_the_first_fault() {
    let c = SinkConfig::default();
    assert!(matches!(c.validate(), Err(ConfigError::ScopeNotDefined)));

    let mut c = SinkConfig::default();
    c.index_min_nanos = 2;
    c.index_max_nanos = 1;
    assert!(matches!(c.validate(), Err(ConfigError::IndexIntervalOrder)));

    let mut c = SinkConfig::default();
    c.scope = Some(String::from("examples"));
    assert!(matches!(c.validate(), Err(ConfigError::StreamNotDefined)));

    let mut c = SinkConfig::default();
    c.scope = Some(String::from("examples"));
    c.stream = Some(String::from("camera1"));
    assert!(matches!(c.validate(), Err(ConfigError::ControllerNotDefined)));

    let mut c = full_config();
    c.retention_type = RetentionType::Days;
    assert!(matches!(c.validate(), Err(ConfigError::RetentionDaysNotSet)));

    let mut c = full_config();
    c.retention_type = RetentionType::Bytes;
    assert!(matches!(c.validate(), Err(ConfigError::RetentionBytesNotSet)));
}

#[test]
fn validation_resolves_the_start_plan() {
    let mut c = full_config();
    c.seal = true;
    c.retention_type = RetentionType::DaysAndBytes;
    c.retention_days_seconds = Some(86_400);
    c.retention_bytes = Some(1_000_000);
    let p = c.validate().unwrap();
    assert_eq!(p.scope, "examples");
    assert_eq!(p.stream_name, "camera1");
    assert_eq!(p.index_stream_name, "camera1-index");
    assert_eq!(p.controller, "tcp://127.0.0.1:9090");
    assert!(p.seal_on_stop);
    assert_eq!(p.retention_policy, RetentionPolicy::DaysAndBytes(86_400, 1_000_000));
    assert_eq!(p.retention_interval_seconds, DEFAULT_RETENTION_MAINTENANCE_INTERVAL_SECONDS);
}

#[test]
fn stream_specification_must_be_scope_slash_stream() {
    let (scope, stream) = parse_scoped_stream("examples/camera1").unwrap();
    assert_eq!(scope, "examples");
    assert_eq!(stream, "camera1");
    assert!(matches!(
        parse_scoped_stream("nostream"),
        Err(ConfigError::StreamSpecMalformed)
    ));
    assert!(matches!(
        parse_scoped_stream("a/b/c"),
        Err(ConfigError::StreamSpecMalformed)
    ));
    assert!(matches!(parse_scoped_stream(""), Err(ConfigError::StreamSpecMalformed)));
    // one slash with an empty side still splits
    let (scope, stream) = parse_scoped_stream("/camera1").unwrap();
    assert_eq!(scope, "");
    assert_eq!(stream, "camera1");
}

#[test]
fn index_stream_name_is_derived() {
    assert_eq!(index_stream_name("camera1"), "camera1-index");
}
