use otel_setup::{
    current_timestamp, KeyValue, Lifecycle, LifecycleError, OutputStream, PipelineSettings,
    ShutdownAction, Transport, AUTHORIZATION_KEY, AUTHORIZATION_VALUE, COLLECTOR_ENDPOINT,
    SERVICE_NAME_KEY,
};

fn assert_settings_for(p: &PipelineSettings, service_name: &str) {
    assert_eq!(p.console.stream, OutputStream::Stderr);
    assert!(!p.console.ansi);
    assert_eq!(p.export.endpoint, "https://tempo-prod-04-prod-us-east-0.grafana.net");
    assert_eq!(p.export.transport, Transport::Grpc);
    assert_eq!(p.export.metadata.len(), 1);
    assert_eq!(p.export.metadata[0].key, "authorization");
    assert_eq!(p.export.metadata[0].value, "Basic <base64 encoded instance_id:key>");
    assert_eq!(
        p.resource,
        vec![KeyValue { key: "service.name".to_string(), value: service_name.to_string() }]
    );
}

#[test]
fn settings_for_service() {
    let p = PipelineSettings::for_service("svc-a");
    assert_eq!(p.console.stream, OutputStream::Stderr);
    assert!(!p.console.ansi);
    assert_eq!(p.export.endpoint, "https://tempo-prod-04-prod-us-east-0.grafana.net");
    assert_eq!(p.export.endpoint, COLLECTOR_ENDPOINT);
    assert_eq!(p.export.transport, Transport::Grpc);
    assert_eq!(
        p.export.metadata,
        vec![KeyValue {
            key: "authorization".to_string(),
            value: AUTHORIZATION_VALUE.to_string()
        }]
    );
    assert_eq!(AUTHORIZATION_KEY, "authorization");
    assert_eq!(
        p.resource,
        vec![KeyValue { key: "service.name".to_string(), value: "svc-a".to_string() }]
    );
    assert_eq!(SERVICE_NAME_KEY, "service.name");
}

#[test]
fn shutdown_before_initialize_is_noop() {
    let mut l = Lifecycle::new();
    assert!(!l.is_active());
    assert_eq!(l.shutdown(), ShutdownAction::Nothing);
    assert!(!l.is_active());
}

#[test]
fn initialize_then_shutdown() {
    for name in ["svc-a", "hello_srv", "x"] {
        let mut l = Lifecycle::new();
        let p = l.initialize(name).unwrap();
        assert_settings_for(&p, name);
        assert!(l.is_active());
        assert_eq!(l.shutdown(), ShutdownAction::FlushAndStop);
        assert!(!l.is_active());
    }
}

#[test]
fn initialize_with_empty_service_name() {
    let mut l = Lifecycle::new();
    let p = l.initialize("").unwrap();
    assert_settings_for(&p, "");
    assert_eq!(l.shutdown(), ShutdownAction::FlushAndStop);
}

#[test]
fn double_shutdown_is_idempotent() {
    let mut l = Lifecycle::new();
    l.initialize("svc-a").unwrap();
    assert_eq!(l.shutdown(), ShutdownAction::FlushAndStop);
    assert_eq!(l.shutdown(), ShutdownAction::Nothing);
    assert!(!l.is_active());
}

#[test]
fn second_initialize_is_refused() {
    let mut l = Lifecycle::new();
    l.initialize("svc-a").unwrap();
    assert_eq!(l.initialize("svc-b"), Err(LifecycleError::AlreadyActive));
    assert!(l.is_active());
    assert_eq!(l.shutdown(), ShutdownAction::FlushAndStop);
    let p = l.initialize("svc-b").unwrap();
    assert_eq!(p.resource[0].value, "svc-b");
}

#[test]
fn hello_event_scenario() {
    let mut l = Lifecycle::new();
    let p = l.initialize("svc-a").unwrap();
    assert_settings_for(&p, "svc-a");
    let stamp = current_timestamp();
    assert_eq!(stamp.len(), 12);
    assert!(!stamp.contains('\u{1b}'));
    assert_eq!(l.shutdown(), ShutdownAction::FlushAndStop);
}
