//! Rooms and their capacity.

use vstd::prelude::*;
use vstd::std_specs::convert::FromSpecImpl;
use crate::id::Id;
use crate::messages::room::CreateRequest;
use chrono::NaiveDateTime;

verus! {

/// How many agents a room admits.
#[derive(Clone, Copy, Debug, PartialEq, Eq, Structural)]
pub struct RoomCapacity(u8);

/// A stored room.
#[derive(Clone, Debug, PartialEq, Eq)]
pub struct Room {
    pub id: Id,
    pub label: String,
    pub created_at: NaiveDateTime,
    pub capacity: RoomCapacity,
}

/// A room that is not stored yet.
#[derive(Clone, Debug, PartialEq, Eq)]
pub struct NewRoom {
    pub label: Option<String>,
    pub capacity: RoomCapacity,
}

impl RoomCapacity {
    /// The number of agents admitted.
    pub closed spec fn count(self) -> u8 {
        self.0
    }

    /// The capacity for `cap` agents.
    pub fn new(cap: u8) -> (r: RoomCapacity)
        ensures
            r.count() == cap,
    {
        RoomCapacity(cap)
    }

    /// The number of agents admitted.
    pub fn value(&self) -> (r: u8)
        ensures
            r == self.count(),
    {
        self.0
    }

    /// The capacity as the store holds it, in a column of 16 bits.
    pub fn to_sql(&self) -> (r: i16)
        ensures
            r == self.count(),
    {
        self.0 as i16
    }

    /// The capacity that the store holds as `x`: the low eight bits of `x`.
    pub fn from_sql(x: i16) -> (r: RoomCapacity)
        ensures
            r.count() == x as u8,
            0 <= x <= 255 ==> r.count() == x,
    {
        RoomCapacity(#[verifier::truncate] (x as u8))
    }

    /// The capacity as a decimal numeral.
    pub fn to_string(&self) -> (r: String)
        ensures
            r@ == decimal_text(self.count() as nat),
    {
        let n = self.0;
        let mut r = String::new();
        if n >= 100 {
            r.append(digit_str(n / 100));
        }
        if n >= 10 {
            r.append(digit_str((n / 10) % 10));
        }
        r.append(digit_str(n % 10));
        proof {
            let v = n as nat;
            if v >= 100 {
                assert(decimal_text(v / 100) =~= seq![digit_char(v / 100)]);
                assert(decimal_text(v / 10) =~= decimal_text(v / 100).push(
                    digit_char((v / 10) % 10),
                ));
                assert((v / 10) / 10 == v / 100);
            } else if v >= 10 {
                assert(decimal_text(v / 10) =~= seq![digit_char(v / 10)]);
            }
            assert(r@ =~= decimal_text(v));
        }
        r
    }

    /// Whether this capacity is over the limit `max`.
    pub fn exceeds(&self, max: &RoomCapacity) -> (r: bool)
        ensures
            r == (self.count() > max.count()),
    {
        self.0 > max.0
    }
}

/// The decimal digit for `d`, where `d < 10`.
pub open spec fn digit_char(d: nat) -> char {
    (d + '0' as nat) as char
}

/// The decimal numeral of `n`, without leading zeros.
pub open spec fn decimal_text(n: nat) -> Seq<char>
    decreases n,
{
    if n < 10 {
        seq![digit_char(n)]
    } else {
        decimal_text(n / 10).push(digit_char(n % 10))
    }
}

/// The decimal digit for `d` as a text.
fn digit_str(d: u8) -> (r: &'static str)
    requires
        d < 10,
    ensures
        r@ == seq![digit_char(d as nat)],
{
    let r = if d == 0 {
        "0"
    } else if d == 1 {
        "1"
    } else if d == 2 {
        "2"
    } else if d == 3 {
        "3"
    } else if d == 4 {
        "4"
    } else if d == 5 {
        "5"
    } else if d == 6 {
        "6"
    } else if d == 7 {
        "7"
    } else if d == 8 {
        "8"
    } else {
        "9"
    };
    proof {
        reveal_strlit("0");
        reveal_strlit("1");
        reveal_strlit("2");
        reveal_strlit("3");
        reveal_strlit("4");
        reveal_strlit("5");
        reveal_strlit("6");
        reveal_strlit("7");
        reveal_strlit("8");
        reveal_strlit("9");
        assert(r@ =~= seq![digit_char(d as nat)]);
    }
    r
}

/// Two capacities are the same where they admit the same number of agents.
pub proof fn lemma_capacity_by_count(a: RoomCapacity, b: RoomCapacity)
    ensures
        (a.count() == b.count()) == (a == b),
{
}

impl Default for RoomCapacity {
    fn default() -> (r: RoomCapacity)
        ensures
            r.count() == 0,
    {
        RoomCapacity(0)
    }
}

impl From<CreateRequest> for NewRoom {
    fn from(req: CreateRequest) -> (r: NewRoom) {
        let data = req.data;
        NewRoom { label: None, capacity: data.capacity }
    }
}

impl FromSpecImpl<CreateRequest> for NewRoom {
    open spec fn obeys_from_spec() -> bool {
        true
    }

    /// The room that a request asks for: its capacity, and no label.
    open spec fn from_spec(req: CreateRequest) -> NewRoom {
        NewRoom { label: None, capacity: req.data.capacity }
    }
}

} // verus!
