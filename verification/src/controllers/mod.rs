//! The controllers of the direct form: from the topic and the message
//! received to what is published in answer.

use vstd::prelude::*;
use crate::controllers::ping::PingController;
use crate::messages::direct::Message;
use crate::topic::ping::ping_reversed;
use crate::topic::Topic;
use crate::QoS;

pub mod ping;
pub mod rooms;

verus! {

/// What is published in answer to a message: the topic, the quality of
/// service, and the message to encode as the payload.
#[derive(Clone, Debug, PartialEq, Eq)]
pub struct Response {
    pub topic: Topic,
    pub qos: QoS,
    pub payload: Message,
}

/// The controller for whatever topic a message came on.
pub struct MainController<'a> {
    topic: &'a Topic,
}

impl<'a> MainController<'a> {
    /// The topic that the controller serves.
    pub closed spec fn topic(&self) -> Topic {
        *self.topic
    }

    /// The controller for messages that came on `topic`.
    pub fn new(topic: &'a Topic) -> (r: MainController<'a>)
        ensures
            r.topic() == *topic,
    {
        MainController { topic }
    }

    /// What is published in answer to `msg`. Only a ping on a liveness
    /// topic is served.
    pub fn call(&self, msg: &Message) -> (r: Vec<Response>)
        requires
            self.topic() is Ping,
            *msg is Ping,
        ensures
            r@ == seq![
                Response {
                    topic: Topic::Ping(ping_reversed(self.topic()->Ping_0)),
                    qos: QoS::Level0,
                    payload: Message::Pong,
                },
            ],
    {
        match self.topic {
            Topic::Ping(t) => PingController::call(t, msg),
            _ => unreached(),
        }
    }
}

} // verus!
