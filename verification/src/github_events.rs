//! Kinds of notification the hosting platform sends.

use vstd::prelude::*;
use crate::crane_error::CraneError;
use crate::text::same_text;

verus! {

/// Name of the header that carries the event type.
pub const EVENT_HEADER: &'static str = "X-GitHub-Event";

/// The platform's word for a change to a check suite.
pub const CHECK_SUITE: &'static str = "check_suite";

/// A kind of notification that is handled.
#[derive(Clone, Copy, Debug, PartialEq, Eq, Structural)]
pub enum EventType {
    CheckSuite,
}

impl EventType {
    /// Tells the event type from the value of a notification's event
    /// header, or from its absence.
    pub fn from_req(header_value: Option<&str>) -> (event: Result<EventType, CraneError>)
        ensures
            match header_value {
                None => event matches Err(CraneError::MissingEventType),
                Some(value) => if value@ == CHECK_SUITE@ {
                    event matches Ok(EventType::CheckSuite)
                } else {
                    event matches Err(CraneError::InvalidEventType(given)) && given@ == value@
                },
            },
    {
        match header_value {
            None => Err(CraneError::MissingEventType),
            Some(value) => {
                if same_text(value, CHECK_SUITE) {
                    Ok(EventType::CheckSuite)
                } else {
                    Err(CraneError::InvalidEventType(value.to_owned()))
                }
            },
        }
    }
}

} // verus!
