use ota_flasher::mqtt::{on_notification, run_mqtt, status_event, Notification};
use ota_flasher::types::{AppConfig, AppEvent};

#[test]
fn a_session_is_made_from_the_settings() {
    let mut c = AppConfig::with_home(None);
    c.mqtt_pass = "p".to_string();
    let s = run_mqtt(&c, 1700000000123);
    assert_eq!(s.client_id, "ota-flasher-1700000000123");
    assert_eq!(s.host, "mqtt.vitalitysoft.com");
    assert_eq!(s.port, 8883);
    assert_eq!(s.user, "solar");
    assert_eq!(s.pass, "p");
    assert_eq!(s.keep_alive_secs, 30);
    assert_eq!(s.queue, 20);
    assert_eq!(s.subscription, "solar/+/status");
}

#[test]
fn the_state_of_the_connection_is_reported() {
    assert_eq!(on_notification(Notification::Accepted), (Some(AppEvent::MqttConnected), false));
    for n in [Notification::Refused, Notification::Lost, Notification::NotSubscribed] {
        assert_eq!(on_notification(n), (Some(AppEvent::MqttDisconnected), true));
    }
    assert_eq!(on_notification(Notification::Other), (None, false));
}

fn message(topic: &str, payload: &[u8]) -> (Option<AppEvent>, bool) {
    on_notification(Notification::Message { topic: topic.to_string(), payload: payload.to_vec() })
}

fn status(id: &str, status: &str) -> (Option<AppEvent>, bool) {
    (
        Some(AppEvent::MqttStatus { device_id: id.to_string(), status: status.to_string() }),
        false,
    )
}

#[test]
fn messages_are_statuses() {
    assert_eq!(message("solar/vit010/status", b"ONLINE v1.0.1"), status("vit010", "ONLINE v1.0.1"));
    assert_eq!(message("solar/vit010/status", b""), status("vit010", ""));
    assert_eq!(message("solar/vit010", b"x"), (None, false));
}

#[test]
fn malformed_bytes_are_replaced() {
    assert_eq!(message("a/b/c", b"\xffok\xe2\x82"), status("b", "\u{fffd}ok\u{fffd}"));
    assert_eq!(message("a/b/c", "grün".as_bytes()), status("b", "grün"));
}

#[test]
fn a_text_is_the_status_of_the_device_of_its_topic() {
    assert_eq!(status_event("a/b/c", "x".to_string()), status("b", "x").0);
    assert_eq!(status_event("a", "x".to_string()), None);
}
