//! Why an incoming notification could not be told apart.

use vstd::prelude::*;
use vstd::string::*;

verus! {

/// A notification without a usable event type.
#[derive(Debug)]
pub enum CraneError {
    /// The notification names no event type.
    MissingEventType,
    /// The notification names an event type that is not handled.
    InvalidEventType(String),
}

impl CraneError {
    /// The line shown for an error.
    pub open spec fn message_of(&self) -> Seq<char> {
        match self {
            CraneError::MissingEventType => "Missing event type."@,
            CraneError::InvalidEventType(event_type) => "Event type '"@ + event_type@
                + "' is invalid."@,
        }
    }

    /// A line for the operator.
    pub fn message(&self) -> (line: String)
        ensures
            line@ == self.message_of(),
    {
        match self {
            CraneError::MissingEventType => "Missing event type.".to_owned(),
            CraneError::InvalidEventType(event_type) => {
                let mut line = "Event type '".to_owned();
                line.append(event_type.as_str());
                line.append("' is invalid.");
                line
            },
        }
    }
}

} // verus!
