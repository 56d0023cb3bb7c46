//! The signalling messages that one agent sends to another: offer, answer
//! and candidate. Session descriptions and candidates are passed on as
//! they are.

use vstd::prelude::*;
use vstd::std_specs::convert::FromSpecImpl;
use serde_json::Value;
use crate::id::Id;
use crate::messages::Method;

verus! {

/// A signalling request within a room.
#[derive(Clone, Debug, PartialEq, Eq)]
pub struct Request<T> {
    pub room_id: Id,
    pub data: T,
}

/// What the recipient of a signalling request is told.
#[derive(Clone, Debug, PartialEq, Eq)]
pub struct NotificationParams<T> {
    pub room_id: Id,
    pub data: T,
}

/// A track that an offer names.
#[derive(Clone, Copy, Debug, PartialEq, Eq, Structural)]
pub struct Track {
    pub id: Id,
}

pub type OfferRequest = Request<OfferRequestData>;

/// An offer: a session description, the sender, the recipient, the tracks.
#[derive(Clone, Debug, PartialEq, Eq)]
pub struct OfferRequestData {
    pub jsep: Value,
    pub from: Id,
    pub to: Id,
    pub tracks: Vec<Track>,
}

pub type OfferNotification = NotificationParams<OfferNotificationData>;

/// An offer as the recipient sees it.
#[derive(Clone, Debug, PartialEq, Eq)]
pub struct OfferNotificationData {
    pub jsep: Value,
    pub from: Id,
    pub tracks: Vec<Track>,
}

pub type AnswerRequest = Request<AnswerRequestData>;

/// An answer: a session description, the sender, the recipient.
#[derive(Clone, Debug, PartialEq, Eq)]
pub struct AnswerRequestData {
    pub jsep: Value,
    pub from: Id,
    pub to: Id,
}

pub type AnswerNotification = NotificationParams<AnswerNotificationData>;

/// An answer as the recipient sees it.
#[derive(Clone, Debug, PartialEq, Eq)]
pub struct AnswerNotificationData {
    pub jsep: Value,
    pub from: Id,
}

pub type CandidateRequest = Request<CandidateRequestData>;

/// A candidate, the sender, the recipient.
#[derive(Clone, Debug, PartialEq, Eq)]
pub struct CandidateRequestData {
    pub candidate: Value,
    pub from: Id,
    pub to: Id,
}

pub type CandidateNotification = NotificationParams<CandidateNotificationData>;

/// A candidate as the recipient sees it.
#[derive(Clone, Debug, PartialEq, Eq)]
pub struct CandidateNotificationData {
    pub candidate: Value,
    pub from: Id,
}

/// A signalling message on its way to the recipient.
#[derive(Clone, Debug, PartialEq, Eq)]
pub enum WebrtcMethod {
    Offer(OfferNotification),
    Answer(AnswerNotification),
    Candidate(CandidateNotification),
}

/// The method name under which a signalling message is delivered.
pub open spec fn method_text(method: WebrtcMethod) -> Seq<char> {
    match method {
        WebrtcMethod::Offer(_) => "webrtc.offer"@,
        WebrtcMethod::Answer(_) => "webrtc.answer"@,
        WebrtcMethod::Candidate(_) => "webrtc.candidate"@,
    }
}

impl WebrtcMethod {
    /// The method name under which the message is delivered.
    pub fn method_name(&self) -> (r: &'static str)
        ensures
            r@ == method_text(*self),
    {
        match self {
            WebrtcMethod::Offer(_) => "webrtc.offer",
            WebrtcMethod::Answer(_) => "webrtc.answer",
            WebrtcMethod::Candidate(_) => "webrtc.candidate",
        }
    }
}

/// An offer without the recipient.
pub open spec fn offer_data(req: OfferRequest) -> OfferNotificationData {
    OfferNotificationData { jsep: req.data.jsep, from: req.data.from, tracks: req.data.tracks }
}

/// An answer without the recipient.
pub open spec fn answer_data(req: AnswerRequest) -> AnswerNotificationData {
    AnswerNotificationData { jsep: req.data.jsep, from: req.data.from }
}

/// A candidate without the recipient.
pub open spec fn candidate_data(req: CandidateRequest) -> CandidateNotificationData {
    CandidateNotificationData { candidate: req.data.candidate, from: req.data.from }
}

/// The signalling message that an offer becomes: same room, no recipient.
pub open spec fn offer_method(req: OfferRequest) -> WebrtcMethod {
    WebrtcMethod::Offer(OfferNotification { room_id: req.room_id, data: offer_data(req) })
}

/// The signalling message that an answer becomes: same room, no recipient.
pub open spec fn answer_method(req: AnswerRequest) -> WebrtcMethod {
    WebrtcMethod::Answer(AnswerNotification { room_id: req.room_id, data: answer_data(req) })
}

/// The signalling message that a candidate becomes: same room, no recipient.
pub open spec fn candidate_method(req: CandidateRequest) -> WebrtcMethod {
    WebrtcMethod::Candidate(
        CandidateNotification { room_id: req.room_id, data: candidate_data(req) },
    )
}

impl From<OfferRequest> for OfferNotificationData {
    fn from(req: OfferRequest) -> (r: OfferNotificationData) {
        OfferNotificationData { jsep: req.data.jsep, from: req.data.from, tracks: req.data.tracks }
    }
}

impl FromSpecImpl<OfferRequest> for OfferNotificationData {
    open spec fn obeys_from_spec() -> bool {
        true
    }

    open spec fn from_spec(req: OfferRequest) -> OfferNotificationData {
        offer_data(req)
    }
}

impl From<AnswerRequest> for AnswerNotificationData {
    fn from(req: AnswerRequest) -> (r: AnswerNotificationData) {
        AnswerNotificationData { jsep: req.data.jsep, from: req.data.from }
    }
}

impl FromSpecImpl<AnswerRequest> for AnswerNotificationData {
    open spec fn obeys_from_spec() -> bool {
        true
    }

    open spec fn from_spec(req: AnswerRequest) -> AnswerNotificationData {
        answer_data(req)
    }
}

impl From<CandidateRequest> for CandidateNotificationData {
    fn from(req: CandidateRequest) -> (r: CandidateNotificationData) {
        CandidateNotificationData { candidate: req.data.candidate, from: req.data.from }
    }
}

impl FromSpecImpl<CandidateRequest> for CandidateNotificationData {
    open spec fn obeys_from_spec() -> bool {
        true
    }

    open spec fn from_spec(req: CandidateRequest) -> CandidateNotificationData {
        candidate_data(req)
    }
}

impl From<OfferRequest> for WebrtcMethod {
    fn from(req: OfferRequest) -> (r: WebrtcMethod) {
        let room_id = req.room_id;
        WebrtcMethod::Offer(OfferNotification { room_id, data: OfferNotificationData::from(req) })
    }
}

impl FromSpecImpl<OfferRequest> for WebrtcMethod {
    open spec fn obeys_from_spec() -> bool {
        true
    }

    open spec fn from_spec(req: OfferRequest) -> WebrtcMethod {
        offer_method(req)
    }
}

impl From<AnswerRequest> for WebrtcMethod {
    fn from(req: AnswerRequest) -> (r: WebrtcMethod) {
        let room_id = req.room_id;
        WebrtcMethod::Answer(
            AnswerNotification { room_id, data: AnswerNotificationData::from(req) },
        )
    }
}

impl FromSpecImpl<AnswerRequest> for WebrtcMethod {
    open spec fn obeys_from_spec() -> bool {
        true
    }

    open spec fn from_spec(req: AnswerRequest) -> WebrtcMethod {
        answer_method(req)
    }
}

impl From<CandidateRequest> for WebrtcMethod {
    fn from(req: CandidateRequest) -> (r: WebrtcMethod) {
        let room_id = req.room_id;
        WebrtcMethod::Candidate(
            CandidateNotification { room_id, data: CandidateNotificationData::from(req) },
        )
    }
}

impl FromSpecImpl<CandidateRequest> for WebrtcMethod {
    open spec fn obeys_from_spec() -> bool {
        true
    }

    open spec fn from_spec(req: CandidateRequest) -> WebrtcMethod {
        candidate_method(req)
    }
}

impl From<OfferRequest> for Method {
    fn from(req: OfferRequest) -> (r: Method) {
        let agent_id = req.data.to;
        Method { agent_id, body: WebrtcMethod::from(req) }
    }
}

impl FromSpecImpl<OfferRequest> for Method {
    open spec fn obeys_from_spec() -> bool {
        true
    }

    /// An offer goes to the agent that it names as recipient.
    open spec fn from_spec(req: OfferRequest) -> Method {
        Method { agent_id: req.data.to, body: offer_method(req) }
    }
}

impl From<AnswerRequest> for Method {
    fn from(req: AnswerRequest) -> (r: Method) {
        let agent_id = req.data.to;
        Method { agent_id, body: WebrtcMethod::from(req) }
    }
}

impl FromSpecImpl<AnswerRequest> for Method {
    open spec fn obeys_from_spec() -> bool {
        true
    }

    /// An answer goes to the agent that it names as recipient.
    open spec fn from_spec(req: AnswerRequest) -> Method {
        Method { agent_id: req.data.to, body: answer_method(req) }
    }
}

impl From<CandidateRequest> for Method {
    fn from(req: CandidateRequest) -> (r: Method) {
        let agent_id = req.data.to;
        Method { agent_id, body: WebrtcMethod::from(req) }
    }
}

impl FromSpecImpl<CandidateRequest> for Method {
    open spec fn obeys_from_spec() -> bool {
        true
    }

    /// A candidate goes to the agent that it names as recipient.
    open spec fn from_spec(req: CandidateRequest) -> Method {
        Method { agent_id: req.data.to, body: candidate_method(req) }
    }
}

} // verus!
