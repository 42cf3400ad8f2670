use stremio_border_breaker::presence::{ConnectStep, DiscordRpc, DISCORD_APP_ID};

#[test]
fn connect_is_idempotent() {
    let mut rpc = DiscordRpc::new();
    assert!(!rpc.is_connected());
    assert_eq!(rpc.connect(), ConnectStep::Open);
    assert_eq!(rpc.finish_connect(Ok(())), Ok(()));
    assert!(rpc.is_connected());
    assert_eq!(rpc.connect(), ConnectStep::AlreadyConnected);
    assert_eq!(DISCORD_APP_ID, "1452620752263319665");
}

#[test]
fn failed_connect_reports_and_stays_closed() {
    let mut rpc = DiscordRpc::new();
    let r = rpc.finish_connect(Err("pipe not found".to_string()));
    assert_eq!(r, Err("Failed to connect to Discord: pipe not found".to_string()));
    assert!(!rpc.is_connected());
}

#[test]
fn activity_needs_a_connection() {
    let rpc = DiscordRpc::new();
    match rpc.set_activity("Watching", "A film", None, None) {
        Err(e) => assert_eq!(e, "Discord not connected"),
        Ok(_) => panic!("activity without a connection"),
    }
    assert!(!rpc.clear_activity());
}

#[test]
fn activity_fields() {
    let mut rpc = DiscordRpc::new();
    rpc.finish_connect(Ok(())).unwrap();
    let a = rpc.set_activity("Watching", "A film", None, Some(1_700_000_000)).ok().unwrap();
    assert_eq!(a.state, "Watching");
    assert_eq!(a.details, "A film");
    assert_eq!(a.large_image, "stremio_logo");
    assert_eq!(a.large_text, "Stremio");
    assert_eq!(a.start_timestamp, Some(1_700_000_000));
    let b = rpc.set_activity("Paused", "", Some("https://img/poster.jpg"), None).ok().unwrap();
    assert_eq!(b.large_image, "https://img/poster.jpg");
    assert_eq!(b.large_text, "Stremio");
    assert_eq!(b.start_timestamp, None);
    assert!(rpc.clear_activity());
}

#[test]
fn disconnect_closes_the_session() {
    let mut rpc = DiscordRpc::new();
    assert!(!rpc.disconnect());
    rpc.finish_connect(Ok(())).unwrap();
    assert!(rpc.disconnect());
    assert!(!rpc.is_connected());
    assert!(rpc.set_activity("s", "d", None, None).is_err());
    assert_eq!(rpc.connect(), ConnectStep::Open);
}

#[test]
fn error_messages_are_prefixed() {
    assert_eq!(DiscordRpc::finish_disconnect(Ok(())), Ok(()));
    assert_eq!(
        DiscordRpc::finish_disconnect(Err("broken pipe".to_string())),
        Err("Failed to close Discord connection: broken pipe".to_string())
    );
    assert_eq!(
        DiscordRpc::finish_set_activity(Err("x".to_string())),
        Err("Failed to set activity: x".to_string())
    );
    assert_eq!(
        DiscordRpc::finish_clear_activity(Err("y".to_string())),
        Err("Failed to clear activity: y".to_string())
    );
    assert_eq!(DiscordRpc::finish_clear_activity(Ok(())), Ok(()));
}
