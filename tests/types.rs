use rexec::{ContainerStatus, CreateContainerRequest, ResizeMessage};

#[test]
fn resize_message_round_trip_text() {
    let m = ResizeMessage::new(132, 43);
    assert_eq!(m.msg_type, "resize");
    assert_eq!(m.cols, 132);
    assert_eq!(m.rows, 43);
    assert_eq!(m.to_json(), "{\"type\":\"resize\",\"cols\":132,\"rows\":43}");
}

#[test]
fn create_request_defaults() {
    let r = CreateContainerRequest::new("ubuntu:24.04");
    assert_eq!(r.image, "ubuntu:24.04");
    assert!(r.name.is_none());
    assert!(r.environment.is_empty());
    assert!(r.labels.is_empty());
}

#[test]
fn create_request_builders() {
    let r = CreateContainerRequest::new("ubuntu:24.04")
        .name("my-sandbox")
        .env("MY_VAR", "value")
        .env("OTHER", "2")
        .label("team", "a");
    assert_eq!(r.name.as_deref(), Some("my-sandbox"));
    assert_eq!(
        r.environment,
        vec![("MY_VAR".to_string(), "value".to_string()), ("OTHER".to_string(), "2".to_string())]
    );
    assert_eq!(r.labels, vec![("team".to_string(), "a".to_string())]);
}

#[test]
fn create_request_same_key_replaces() {
    let r = CreateContainerRequest::new("img")
        .env("K", "1")
        .env("J", "x")
        .env("K", "2")
        .label("l", "a")
        .label("l", "b");
    assert_eq!(
        r.environment,
        vec![("K".to_string(), "2".to_string()), ("J".to_string(), "x".to_string())]
    );
    assert_eq!(r.labels, vec![("l".to_string(), "b".to_string())]);
}

#[test]
fn container_status_compares() {
    assert_eq!(ContainerStatus::Running, ContainerStatus::Running);
    assert_ne!(ContainerStatus::Running, ContainerStatus::Stopped);
}
