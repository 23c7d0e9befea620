//! Addresses of published roll-call votes.
//!
//! A `CongressEndpoint` names one roll call by chamber, congress, session and
//! number; `to_string` gives the address under which the chamber publishes it.
use crate::text::{decimal, lowercase, padded, push_decimal, push_zero_padded, text_eq};
use crate::{CURRENT_CONGRESS, CURRENT_ROLL, CURRENT_SESSION, OLDEST_CONGRESS};
use vstd::prelude::*;
use vstd::string::*;

verus! {

type CongressNumber = u32;

type CongressSession = u32;

type RollCall = u32;

type Chamber = CongressChamber;

/// One of the two chambers.
#[derive(Debug, Clone, Copy, PartialEq, Eq, Structural)]
pub enum CongressChamber {
    House,
    Senate,
}

impl Default for CongressChamber {
    fn default() -> (r: Self)
        ensures
            r == CongressChamber::House,
    {
        CongressChamber::House
    }
}

/// The chamber that a name stands for where every name is accepted: the
/// Senate for "senate" in any letter case, the House for everything else.
pub open spec fn chamber_of(name: Seq<char>) -> CongressChamber {
    if lowercase(name) == "senate"@ {
        CongressChamber::Senate
    } else {
        CongressChamber::House
    }
}

/// The chamber that a name stands for where only the two chamber names are
/// accepted, in any letter case.
pub open spec fn chamber_named(name: Seq<char>) -> Option<CongressChamber> {
    if lowercase(name) == "house"@ {
        Some(CongressChamber::House)
    } else if lowercase(name) == "senate"@ {
        Some(CongressChamber::Senate)
    } else {
        None
    }
}

impl From<&str> for CongressChamber {
    fn from(name: &str) -> (r: Self) {
        let lower = name.to_lowercase();
        if text_eq(lower.as_str(), "senate") {
            CongressChamber::Senate
        } else {
            CongressChamber::House
        }
    }
}

impl vstd::std_specs::convert::FromSpecImpl<&str> for CongressChamber {
    open spec fn obeys_from_spec() -> bool {
        true
    }

    open spec fn from_spec(name: &str) -> Self {
        chamber_of(name@)
    }
}

impl std::str::FromStr for CongressChamber {
    type Err = String;

    /// The chamber that `s` names, or a message that holds the rejected name.
    fn from_str(s: &str) -> (r: Result<Self, String>)
        ensures
            match r {
                Ok(c) => chamber_named(s@) == Some(c),
                Err(msg) => chamber_named(s@) is None && msg@ == "Invalid chamber: "@ + s@,
            },
    {
        Chamber::parse(s)
    }
}

impl Chamber {
    /// The chamber that `s` names, or a message that holds the rejected name.
    pub fn parse(s: &str) -> (r: Result<Self, String>)
        ensures
            match r {
                Ok(c) => chamber_named(s@) == Some(c),
                Err(msg) => chamber_named(s@) is None && msg@ == "Invalid chamber: "@ + s@,
            },
    {
        let lower = s.to_lowercase();
        if text_eq(lower.as_str(), "house") {
            Ok(CongressChamber::House)
        } else if text_eq(lower.as_str(), "senate") {
            Ok(CongressChamber::Senate)
        } else {
            let mut msg = String::from_str("Invalid chamber: ");
            msg.append(s);
            Err(msg)
        }
    }

    /// The chamber's name in lower case.
    pub open spec fn name(self) -> Seq<char> {
        match self {
            CongressChamber::House => "house"@,
            CongressChamber::Senate => "senate"@,
        }
    }

    /// The address under which the chamber publishes its roll calls.
    pub open spec fn base(self) -> Seq<char> {
        match self {
            CongressChamber::House => "https://clerk.house.gov/evs/"@,
            CongressChamber::Senate => "https://www.senate.gov/legislative/LIS/roll_call_votes/"@,
        }
    }

    /// The chamber's name in lower case.
    pub fn to_string(&self) -> (r: String)
        ensures
            r@ == self.name(),
    {
        match self {
            CongressChamber::House => String::from_str("house"),
            CongressChamber::Senate => String::from_str("senate"),
        }
    }

    /// The address under which the chamber publishes its roll calls.
    pub fn base_url(&self) -> (r: String)
        ensures
            r@ == self.base(),
    {
        match self {
            CongressChamber::House => String::from_str("https://clerk.house.gov/evs/"),
            CongressChamber::Senate => String::from_str(
                "https://www.senate.gov/legislative/LIS/roll_call_votes/",
            ),
        }
    }
}

/// The name under which `CongressFields` is used.
pub type CongressEndpoint = CongressFields;

/// One roll call: the chamber that held it, the congress and session it was
/// held in, and its number within that session.
#[derive(Debug, Clone, Copy, PartialEq, Eq, Structural)]
pub struct CongressFields {
    pub chamber: CongressChamber,
    pub number: CongressNumber,
    pub session: CongressSession,
    pub roll_call: RollCall,
}

impl Default for CongressFields {
    fn default() -> (r: Self)
        ensures
            r == (CongressFields {
                chamber: CongressChamber::House,
                number: 0,
                session: 0,
                roll_call: 0,
            }),
    {
        CongressFields { chamber: CongressChamber::House, number: 0, session: 0, roll_call: 0 }
    }
}

/// The last congress whose calendar years are known.
pub const LAST_DATED_CONGRESS: u32 = 120;

/// Whether a calendar year is known for this session of this congress.
pub open spec fn has_year(number: u32, session: u32) -> bool {
    OLDEST_CONGRESS <= number <= LAST_DATED_CONGRESS && (session == 1 || session == 2)
}

/// The calendar year in which a session of a congress sits: the first
/// congress met in 1789, each congress lasts two years, and its second
/// session falls in the second of them.
pub open spec fn year_of(number: u32, session: u32) -> int {
    1786 + 2 * number + session
}

/// The message for a congress number that is not accepted.
pub open spec fn invalid_number_message(number: u32) -> Seq<char> {
    "Invalid Congress number: "@ + decimal(number as nat)
}

/// The message for a session number that is not accepted.
pub open spec fn invalid_session_message(session: u32) -> Seq<char> {
    "Invalid Congress session: "@ + decimal(session as nat)
}

impl CongressEndpoint {
    /// The roll call of the given chamber, congress, session and number.
    /// Nothing is checked: what has no address or no year is known by
    /// `is_dated`.
    pub fn new(chamber: &str, number: u32, session: u32, roll_call: u32) -> (r: Self)
        ensures
            r == (CongressFields { chamber: chamber_of(chamber@), number, session, roll_call }),
    {
        CongressFields { chamber: chamber.into(), number, session, roll_call }
    }

    /// This endpoint, to be changed in place.
    pub fn as_mut(&mut self) -> (r: &mut Self)
        ensures
            *r == *old(self),
            *final(self) == *final(r),
    {
        self
    }

    /// The latest roll call of the chamber that is known to this library.
    pub fn current(chamber: &str) -> (r: Self)
        ensures
            r == (CongressFields {
                chamber: chamber_of(chamber@),
                number: CURRENT_CONGRESS,
                session: CURRENT_SESSION,
                roll_call: CURRENT_ROLL,
            }),
    {
        CongressFields {
            chamber: chamber.into(),
            number: CURRENT_CONGRESS,
            session: CURRENT_SESSION,
            roll_call: CURRENT_ROLL,
        }
    }

    /// Sets the chamber.
    pub fn chamber(&mut self, chamber: &str) -> (r: &mut Self)
        ensures
            *r == (CongressFields { chamber: chamber_of(chamber@), ..*old(self) }),
            *final(self) == *final(r),
    {
        let chamber: CongressChamber = chamber.into();
        self.chamber = chamber;
        self
    }

    /// Sets the congress, which has to lie between the oldest and the current one.
    pub fn number(&mut self, number: u32) -> (r: Result<&mut Self, String>)
        ensures
            match r {
                Ok(endpoint) => {
                    &&& OLDEST_CONGRESS <= number <= CURRENT_CONGRESS
                    &&& *endpoint == (CongressFields { number, ..*old(self) })
                    &&& *final(self) == *final(endpoint)
                },
                Err(msg) => {
                    &&& !(OLDEST_CONGRESS <= number <= CURRENT_CONGRESS)
                    &&& msg@ == invalid_number_message(number)
                    &&& *final(self) == *old(self)
                },
            },
    {
        if number < OLDEST_CONGRESS || number > CURRENT_CONGRESS {
            let mut msg = String::from_str("Invalid Congress number: ");
            push_decimal(&mut msg, number as u64);
            return Err(msg);
        }
        self.number = number;
        Ok(self)
    }

    /// Sets the session, which is the first or the second.
    pub fn session(&mut self, session: u32) -> (r: Result<&mut Self, String>)
        ensures
            match r {
                Ok(endpoint) => {
                    &&& (session == 1 || session == 2)
                    &&& *endpoint == (CongressFields { session, ..*old(self) })
                    &&& *final(self) == *final(endpoint)
                },
                Err(msg) => {
                    &&& session != 1 && session != 2
                    &&& msg@ == invalid_session_message(session)
                    &&& *final(self) == *old(self)
                },
            },
    {
        if session != 1 && session != 2 {
            let mut msg = String::from_str("Invalid Congress session: ");
            push_decimal(&mut msg, session as u64);
            return Err(msg);
        }
        self.session = session;
        Ok(self)
    }

    /// Sets the number of the roll call.
    pub fn roll_call(&mut self, roll_call: u32) -> (r: &mut Self)
        ensures
            *r == (CongressFields { roll_call, ..*old(self) }),
            *final(self) == *final(r),
    {
        self.roll_call = roll_call;
        self
    }

    /// A copy of this endpoint.
    pub fn build(&self) -> (r: CongressEndpoint)
        ensures
            r == *self,
    {
        *self
    }

    /// Whether `to_year` is defined for this endpoint.
    pub fn is_dated(&self) -> (r: bool)
        ensures
            r == has_year(self.number, self.session),
    {
        OLDEST_CONGRESS <= self.number && self.number <= LAST_DATED_CONGRESS && (self.session == 1
            || self.session == 2)
    }

    /// The calendar year of this endpoint's session.
    pub fn to_year(&self) -> (year: u32)
        requires
            has_year(self.number, self.session),
        ensures
            year == year_of(self.number, self.session),
    {
        1786 + 2 * self.number + self.session
    }

    /// The address of this roll call. The House files its roll calls by year,
    /// the Senate by congress and session.
    pub open spec fn url(self) -> Seq<char> {
        match self.chamber {
            CongressChamber::House => self.chamber.base() + decimal(
                year_of(self.number, self.session) as nat,
            ) + "/roll"@ + padded(decimal(self.roll_call as nat), 3, '0') + ".xml"@,
            CongressChamber::Senate => self.chamber.base() + "vote"@ + decimal(self.number as nat)
                + decimal(self.session as nat) + "/vote_"@ + decimal(self.number as nat) + "_"@
                + decimal(self.session as nat) + "_"@ + padded(
                decimal(self.roll_call as nat),
                5,
                '0',
            ) + ".xml"@,
        }
    }

    /// The address of this roll call.
    pub fn to_string(&self) -> (r: String)
        requires
            self.chamber == CongressChamber::House ==> has_year(self.number, self.session),
        ensures
            r@ == self.url(),
    {
        let mut out = self.chamber.base_url();
        match self.chamber {
            CongressChamber::House => {
                push_decimal(&mut out, self.to_year() as u64);
                out.append("/roll");
                push_zero_padded(&mut out, self.roll_call as u64, 3);
            },
            CongressChamber::Senate => {
                out.append("vote");
                push_decimal(&mut out, self.number as u64);
                push_decimal(&mut out, self.session as u64);
                out.append("/vote_");
                push_decimal(&mut out, self.number as u64);
                out.append("_");
                push_decimal(&mut out, self.session as u64);
                out.append("_");
                push_zero_padded(&mut out, self.roll_call as u64, 5);
            },
        }
        out.append(".xml");
        out
    }
}

} // verus!
