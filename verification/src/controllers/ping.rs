//! The controller of the liveness topics.

use vstd::prelude::*;
use crate::controllers::Response;
use crate::messages::direct::Message;
use crate::topic::ping::{PingTopicKind, ping_reversed};
use crate::topic::{Reversible, Topic};
use crate::QoS;

verus! {

/// The controller of the liveness topics.
pub struct PingController;

impl PingController {
    /// What is published in answer to a ping that came on `topic`: one
    /// pong, on the reverse of `topic`, delivered at most once.
    pub fn call(topic: &PingTopicKind, msg: &Message) -> (r: Vec<Response>)
        requires
            *msg is Ping,
        ensures
            r@ == seq![
                Response {
                    topic: Topic::Ping(ping_reversed(*topic)),
                    qos: QoS::Level0,
                    payload: Message::Pong,
                },
            ],
    {
        let topic = topic.get_reverse();
        let mut r: Vec<Response> = Vec::new();
        r.push(Response { topic: Topic::Ping(topic), qos: QoS::Level0, payload: Message::Pong });
        proof {
            assert(r@ =~= seq![
                Response {
                    topic: Topic::Ping(topic),
                    qos: QoS::Level0,
                    payload: Message::Pong,
                },
            ]);
        }
        r
    }
}

} // verus!
