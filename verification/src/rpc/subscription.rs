//! The handler that tells an agent which broadcast topic to subscribe to.

use vstd::prelude::*;
use crate::messages::subscription::{CreateRequest, CreateResponse};
use crate::rpc::error::Error;
use crate::topic::AppTopic;

verus! {

/// The handler for subscriptions.
pub struct RpcImpl;

impl RpcImpl {
    /// Names the broadcast topic of the resource and the room asked about.
    pub fn create(&self, req: CreateRequest) -> (r: Result<CreateResponse, Error>)
        ensures
            r matches Ok(resp) && resp.data.topic == (AppTopic {
                room_id: req.room_id,
                resource: req.data.resource,
            }),
    {
        let topic = AppTopic { room_id: req.room_id, resource: req.data.resource };
        Ok(CreateResponse::new(topic))
    }
}

} // verus!
