//! The connection to the broker: how it is made, and what comes in over it.
use vstd::prelude::*;
use vstd::string::*;
use vstd::utf8::{decode_utf8, valid_utf8};
use crate::number::{decimal, to_decimal};
use crate::outside::{lossy_text, utf8_lossy};
use crate::topics::{device_id, device_of_topic, topic_of};
use crate::types::{AppConfig, AppEvent, ConfigView};

verus! {

/// How long a connection may be silent, in seconds.
pub const KEEP_ALIVE_SECS: u64 = 30;

/// How many requests to the broker may wait.
pub const QUEUE_LENGTH: usize = 20;

/// How long a lost connection is left alone before it is tried again, in seconds.
pub const RECONNECT_SECS: u64 = 5;

/// How a connection is made; it goes over TLS.
#[derive(Debug, PartialEq)]
pub struct Session {
    /// The name of this client at the broker.
    pub client_id: String,
    pub host: String,
    pub port: u16,
    pub user: String,
    pub pass: String,
    pub keep_alive_secs: u64,
    pub queue: usize,
    /// The topics to be told of.
    pub subscription: String,
}

/// The session is one with the settings `c` that begins at `ms`.
pub open spec fn is_session(s: Session, c: ConfigView, ms: u64) -> bool {
    &&& s.client_id@ == "ota-flasher-"@ + decimal(ms as nat)
    &&& s.host@ == c.mqtt_host
    &&& s.port == c.mqtt_port
    &&& s.user@ == c.mqtt_user
    &&& s.pass@ == c.mqtt_pass
    &&& s.keep_alive_secs == KEEP_ALIVE_SECS
    &&& s.queue == QUEUE_LENGTH
    &&& s.subscription@ == topic_of("+"@, "status"@)
}

/// The connection that is made with these settings at `ms`, in milliseconds since 1970.
pub fn run_mqtt(config: &AppConfig, ms: u64) -> (r: Session)
    ensures
        is_session(r, config@, ms),
{
    Session {
        client_id: "ota-flasher-".to_owned().concat(to_decimal(ms).as_str()),
        host: config.mqtt_host.clone(),
        port: config.mqtt_port,
        user: config.mqtt_user.clone(),
        pass: config.mqtt_pass.clone(),
        keep_alive_secs: KEEP_ALIVE_SECS,
        queue: QUEUE_LENGTH,
        subscription: crate::topics::topic("+", "status"),
    }
}

/// What comes in over a connection.
#[derive(Debug)]
pub enum Notification {
    /// The subscription could not be asked for.
    NotSubscribed,
    /// The broker accepted the connection.
    Accepted,
    /// The broker refused it.
    Refused,
    /// A message was published.
    Message { topic: String, payload: Vec<u8> },
    /// The connection is lost.
    Lost,
    /// Anything else.
    Other,
}

/// After this the connection is over, and is forgotten.
pub open spec fn is_over(n: Notification) -> bool {
    n is NotSubscribed || n is Refused || n is Lost
}

/// The event is the status of `id`, read as `status`.
pub open spec fn is_status(ev: AppEvent, id: Seq<char>, status: Seq<char>) -> bool {
    ev matches AppEvent::MqttStatus { device_id: d, status: s } && d@ == id && s@ == status
}

/// What is reported of a message that was read as `text`: the status of a device, if the topic
/// names one.
pub fn status_event(topic: &str, text: String) -> (r: Option<AppEvent>)
    ensures
        match device_of_topic(topic@) {
            Some(id) => r matches Some(ev) && is_status(ev, id, text@),
            None => r is None,
        },
{
    match device_id(topic) {
        Some(id) => Some(AppEvent::MqttStatus { device_id: id, status: text }),
        None => None,
    }
}

/// What is reported of what came in, and whether the connection is over.
pub fn on_notification(n: Notification) -> (r: (Option<AppEvent>, bool))
    ensures
        r.1 == is_over(n),
        match n {
            Notification::Accepted => r.0 == Some(AppEvent::MqttConnected),
            Notification::Message { topic, payload } => match device_of_topic(topic@) {
                Some(id) => r.0 matches Some(ev) && is_status(ev, id, lossy_text(payload@)) && (
                valid_utf8(payload@) ==> is_status(ev, id, decode_utf8(payload@))),
                None => r.0 is None,
            },
            Notification::Other => r.0 is None,
            _ => r.0 == Some(AppEvent::MqttDisconnected),
        },
{
    match n {
        Notification::NotSubscribed => (Some(AppEvent::MqttDisconnected), true),
        Notification::Accepted => (Some(AppEvent::MqttConnected), false),
        Notification::Refused => (Some(AppEvent::MqttDisconnected), true),
        Notification::Message { topic, payload } => {
            let text: String = utf8_lossy(payload.as_slice());
            (status_event(&topic, text), false)
        },
        Notification::Lost => (Some(AppEvent::MqttDisconnected), true),
        Notification::Other => (None, false),
    }
}

} // verus!
