use serde_json::Value;
use tyl_logging::{
    generate_request_id, ConsoleLogger, EnvVars, Environment, JsonLogger, LogLevel, LogRecord,
    LoggingConfig,
};

#[test]
fn test_end_to_end_console_logging() {
    // Test complete console logging flow
    let logger = ConsoleLogger::new();
    let mut record = LogRecord::new(LogLevel::Info, "Integration test message");
    record.add_field("test_id", Value::from("integration_001"));

    // The fields do not show in the console format
    let line = logger.render(&record);
    assert_eq!(line, format!("[{}] INFO: Integration test message", record.timestamp()));
    assert!(!line.contains("integration_001"));
}

#[test]
fn test_end_to_end_json_logging() {
    // Test complete JSON logging flow
    let logger = JsonLogger::new();
    let request_id = generate_request_id();
    let record = LogRecord::new(LogLevel::Error, "Integration test error")
        .with_request_id(request_id.clone());

    // Should produce valid JSON
    let line = logger.render(&record);
    let parsed: Value = serde_json::from_str(&line).unwrap();
    assert_eq!(parsed["level"], Value::from("ERROR"));
    assert_eq!(parsed["message"], Value::from("Integration test error"));
    assert_eq!(parsed["request_id"], Value::from(request_id));
}

#[test]
fn test_configuration_integration() {
    // Test configuration with environment detection
    let config = LoggingConfig::new("integration-test", &EnvVars::unset())
        .with_level(LogLevel::Debug)
        .with_environment(Environment::Test);

    assert_eq!(config.service_name(), "integration-test");
    assert_eq!(config.level(), LogLevel::Debug);
    assert_eq!(config.environment(), Environment::Test);
}

#[test]
fn test_request_correlation_across_loggers() {
    // Test request ID correlation across different loggers
    let request_id = generate_request_id();
    let console_logger = ConsoleLogger::new();
    let json_logger = JsonLogger::new();

    let record1 = LogRecord::new(LogLevel::Info, "Console log").with_request_id(request_id.clone());
    let record2 = LogRecord::new(LogLevel::Info, "JSON log").with_request_id(request_id.clone());

    // Both should handle the same request ID
    assert_eq!(record1.request_id(), Some(request_id.as_str()));
    assert_eq!(record2.request_id(), Some(request_id.as_str()));
    let line1 = console_logger.render(&record1);
    let line2 = json_logger.render(&record2);
    assert!(line1.ends_with("INFO: Console log"));
    let parsed: Value = serde_json::from_str(&line2).unwrap();
    assert_eq!(parsed["message"], Value::from("JSON log"));
    assert_eq!(parsed["request_id"], Value::from(request_id));
}
