//! The settings of the service.

use vstd::prelude::*;
use crate::models::RoomCapacity;

verus! {

/// The settings of the service.
#[derive(Clone, Copy, Debug, PartialEq, Eq, Structural)]
pub struct Settings {
    pub room: RoomSettings,
}

/// The settings for rooms: the largest capacity that a room may have.
#[derive(Clone, Copy, Debug, PartialEq, Eq, Structural)]
pub struct RoomSettings {
    pub max_capacity: RoomCapacity,
}

impl Default for RoomSettings {
    fn default() -> (r: RoomSettings)
        ensures
            r.max_capacity.count() == 0,
    {
        RoomSettings { max_capacity: RoomCapacity::new(0) }
    }
}

impl Default for Settings {
    fn default() -> (r: Settings)
        ensures
            r.room.max_capacity.count() == 0,
    {
        Settings { room: RoomSettings { max_capacity: RoomCapacity::new(0) } }
    }
}

} // verus!
