//! The lifecycle marker of a deployment, as reported to and from the
//! hosting API, together with its wire (string) representation.

use vstd::prelude::*;

use crate::text::str_eq;

verus! {

/// The closed set of deployment states. `Unknown` stands for any wire
/// string outside the four valid ones; it is never sent to the API.
#[derive(Clone, Copy, Debug, PartialEq, Eq, Structural)]
pub enum Status {
    Unknown,
    Pending,
    Error,
    Success,
    Failure,
}

impl Status {
    /// The wire string of a status.
    pub open spec fn wire_spec(self) -> Seq<char> {
        match self {
            Status::Unknown => "unknown"@,
            Status::Pending => "pending"@,
            Status::Error => "error"@,
            Status::Success => "success"@,
            Status::Failure => "failure"@,
        }
    }

    /// The status a wire string denotes: one of the four valid strings,
    /// or `Unknown` for anything else.
    pub open spec fn from_wire_spec(s: Seq<char>) -> Status {
        if s == "pending"@ {
            Status::Pending
        } else if s == "error"@ {
            Status::Error
        } else if s == "success"@ {
            Status::Success
        } else if s == "failure"@ {
            Status::Failure
        } else {
            Status::Unknown
        }
    }

    /// Whether a status may appear as the `state` of a status update.
    pub open spec fn is_valid_wire(self) -> bool {
        self != Status::Unknown
    }

    pub fn from_wire(s: &str) -> (r: Status)
        ensures
            r == Status::from_wire_spec(s@),
    {
        if str_eq(s, "pending") {
            Status::Pending
        } else if str_eq(s, "error") {
            Status::Error
        } else if str_eq(s, "success") {
            Status::Success
        } else if str_eq(s, "failure") {
            Status::Failure
        } else {
            Status::Unknown
        }
    }

    pub fn wire(&self) -> (r: String)
        ensures
            r@ == self.wire_spec(),
    {
        match self {
            Status::Unknown => "unknown".to_owned(),
            Status::Pending => "pending".to_owned(),
            Status::Error => "error".to_owned(),
            Status::Success => "success".to_owned(),
            Status::Failure => "failure".to_owned(),
        }
    }
}

/// Round trip over the wire: each of the four valid wire strings comes
/// back unchanged through string -> status -> string, every other string
/// maps to `Unknown`, and `Unknown` is the one status that may not be
/// sent as a wire value.
pub proof fn lemma_wire_round_trip(s: Seq<char>)
    ensures
        (s == "pending"@ || s == "error"@ || s == "success"@ || s == "failure"@) ==> {
            &&& Status::from_wire_spec(s).wire_spec() == s
            &&& Status::from_wire_spec(s).is_valid_wire()
        },
        !(s == "pending"@ || s == "error"@ || s == "success"@ || s == "failure"@) ==>
            Status::from_wire_spec(s) == Status::Unknown,
        !Status::Unknown.is_valid_wire(),
{
}

} // verus!
