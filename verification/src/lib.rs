//! Topic addressing and message routing for a broker-mediated signalling
//! backend: reading topic strings, finding the topic of an answer, choosing
//! the handler of a method, and working out what is announced to whom.

use vstd::prelude::*;
use crate::messages::{Notification, destination_of, is_outbound};
use crate::topic::{Topic, is_reversible, topic_reversed};

pub mod controllers;
pub mod error;
pub mod id;
pub mod messages;
pub mod models;
pub mod rpc;
pub mod settings;
pub mod text;
pub mod topic;
pub mod version;

verus! {

/// The quality of service of a publication or a subscription.
#[derive(Clone, Copy, Debug, PartialEq, Eq, Structural)]
pub enum QoS {
    /// Delivered at most once.
    Level0,
    /// Delivered at least once.
    Level1,
    /// Delivered exactly once.
    Level2,
}

/// A topic filter to subscribe to.
#[derive(Clone, Copy, Debug, PartialEq, Eq)]
pub struct Subscription {
    pub filter: &'static str,
    pub qos: QoS,
}

/// Something to publish: where, how, and what.
#[derive(Clone, Debug, PartialEq, Eq)]
pub struct Publication {
    pub topic: Topic,
    pub qos: QoS,
    pub payload: String,
}

/// How the service reaches the broker.
#[derive(Clone, Debug, PartialEq, Eq)]
pub struct BrokerOptions {
    /// The broker's address: host, a colon, port.
    pub broker: String,
    /// The identifier under which the service connects.
    pub client_id: String,
    /// Seconds between two signs of life.
    pub keep_alive: u16,
    /// Seconds to wait before connecting again.
    pub reconnect: u16,
}

/// What the service is started with.
#[derive(Clone, Debug, PartialEq, Eq)]
pub struct Options {
    pub mqtt: BrokerOptions,
    pub database_url: String,
}

/// The port on which the broker listens.
pub const MQTT_PORT: &'static str = "1883";

/// The options for the broker at `mqtt_host`, the client identifier
/// `mqtt_client_id` and the store at `database_url`: the broker is reached
/// on port 1883, with a sign of life every 5 seconds and 3 seconds between
/// two attempts to connect.
pub fn build_options(mqtt_host: &str, mqtt_client_id: String, database_url: String) -> (r: Options)
    ensures
        r.mqtt.broker@ == mqtt_host@ + ":"@ + "1883"@,
        r.mqtt.client_id == mqtt_client_id,
        r.mqtt.keep_alive == 5,
        r.mqtt.reconnect == 3,
        r.database_url == database_url,
{
    let mut broker = String::from_str(mqtt_host);
    broker.append(":");
    broker.append(MQTT_PORT);
    Options {
        mqtt: BrokerOptions { broker, client_id: mqtt_client_id, keep_alive: 5, reconnect: 3 },
        database_url,
    }
}

/// The subscriptions of the service: the pings, the requests of every
/// agent, and the presence of every agent.
pub fn subscribe() -> (r: Vec<Subscription>)
    ensures
        r@.len() == 3,
        r@[0].filter@ == "ping"@ && r@[0].qos == QoS::Level0,
        r@[1].filter@ == "agents/+/out/signals.netology-group.services/api/v1"@ && r@[1].qos
            == QoS::Level1,
        r@[2].filter@ == "agents/+/state/api/v1"@ && r@[2].qos == QoS::Level1,
{
    let mut r: Vec<Subscription> = Vec::new();
    r.push(Subscription { filter: "ping", qos: QoS::Level0 });
    r.push(
        Subscription {
            filter: "agents/+/out/signals.netology-group.services/api/v1",
            qos: QoS::Level1,
        },
    );
    r.push(Subscription { filter: "agents/+/state/api/v1", qos: QoS::Level1 });
    r
}

/// What is published once a message that came on `topic` is handled.
/// `response` is what the handler answered, if it answered. An answer goes
/// out, at least once, on the reverse of `topic`; where the handler did not
/// answer, or `topic` has no reverse, nothing is published.
pub fn handle_message(topic: &Topic, response: Option<String>) -> (r: Option<Publication>)
    ensures
        match response {
            Some(payload) if is_reversible(*topic) => r == Some(
                Publication { topic: topic_reversed(*topic)->0, qos: QoS::Level1, payload },
            ),
            _ => r is None,
        },
{
    match response {
        Some(payload) => match topic.get_reverse() {
            Some(topic) => Some(Publication { topic, qos: QoS::Level1, payload }),
            None => None,
        },
        None => None,
    }
}

/// The publication of `notification`, whose encoded form is `payload`: at
/// least once, on the topic that the notification is addressed to.
pub fn notify(notification: &Notification, payload: String) -> (r: Publication)
    requires
        is_outbound(*notification),
    ensures
        r == (Publication { topic: destination_of(*notification), qos: QoS::Level1, payload }),
{
    Publication { topic: notification.destination(), qos: QoS::Level1, payload }
}

} // verus!
