//! The handlers for signalling: each request is passed on to its recipient.

use vstd::prelude::*;
use crate::messages::webrtc::{
    AnswerRequest, CandidateRequest, OfferRequest, answer_method, candidate_method, offer_method,
};
use crate::messages::{Method, Notification};
use crate::rpc::Outcome;

verus! {

/// The handlers for signalling.
pub struct RpcImpl;

impl RpcImpl {
    /// Passes an offer on to the agent that it names, and answers with
    /// an empty list.
    pub fn offer(&self, req: OfferRequest) -> (r: Outcome<Vec<()>>)
        ensures
            r.notifications@ == seq![
                Notification::Method(Method { agent_id: req.data.to, body: offer_method(req) }),
            ],
            r.response matches Ok(list) && list@.len() == 0,
    {
        let method = Method::from(req);
        let mut notifications: Vec<Notification> = Vec::new();
        notifications.push(Notification::Method(method));
        proof {
            assert(notifications@ =~= seq![Notification::Method(method)]);
        }
        Outcome { notifications, response: Ok(Vec::new()) }
    }

    /// Passes an answer on to the agent that it names, and answers with
    /// an empty list.
    pub fn answer(&self, req: AnswerRequest) -> (r: Outcome<Vec<()>>)
        ensures
            r.notifications@ == seq![
                Notification::Method(Method { agent_id: req.data.to, body: answer_method(req) }),
            ],
            r.response matches Ok(list) && list@.len() == 0,
    {
        let method = Method::from(req);
        let mut notifications: Vec<Notification> = Vec::new();
        notifications.push(Notification::Method(method));
        proof {
            assert(notifications@ =~= seq![Notification::Method(method)]);
        }
        Outcome { notifications, response: Ok(Vec::new()) }
    }

    /// Passes a candidate on to the agent that it names, and answers with
    /// an empty list.
    pub fn candidate(&self, req: CandidateRequest) -> (r: Outcome<Vec<()>>)
        ensures
            r.notifications@ == seq![
                Notification::Method(
                    Method { agent_id: req.data.to, body: candidate_method(req) },
                ),
            ],
            r.response matches Ok(list) && list@.len() == 0,
    {
        let method = Method::from(req);
        let mut notifications: Vec<Notification> = Vec::new();
        notifications.push(Notification::Method(method));
        proof {
            assert(notifications@ =~= seq![Notification::Method(method)]);
        }
        Outcome { notifications, response: Ok(Vec::new()) }
    }
}

} // verus!
