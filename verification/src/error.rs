//! The failures that the registry reports to its caller.

use vstd::prelude::*;
use vstd::string::StringExecFns;

verus! {

/// Why an operation of the registry was refused.
#[derive(Clone, Copy, Debug, PartialEq, Eq, Structural)]
pub enum Error {
    /// The operation needs a ticker that the registry does not hold.
    TickerNotFound,
    /// The ticker already holds an alert at that threshold.
    DuplicateAlert,
    /// The symbol already has a live subscription.
    AlreadySubscribed,
}

impl Error {
    /// The sentence that stands for each failure.
    pub open spec fn spec_message(self) -> Seq<char> {
        match self {
            Error::TickerNotFound => "Ticker not found"@,
            Error::DuplicateAlert => "Alert already exists"@,
            Error::AlreadySubscribed => "Already subscribed"@,
        }
    }

    /// The sentence to show to the user.
    pub fn message(&self) -> (text: String)
        ensures
            text@ == self.spec_message(),
    {
        match self {
            Error::TickerNotFound => String::from_str("Ticker not found"),
            Error::DuplicateAlert => String::from_str("Alert already exists"),
            Error::AlreadySubscribed => String::from_str("Already subscribed"),
        }
    }
}

} // verus!
