//! The errors a caller can be given.

use vstd::prelude::*;

verus! {

/// Why a request was turned away before it reached any actor.
#[derive(Clone, Copy, Debug, PartialEq, Eq, Structural)]
pub enum Error {
    /// The text given as a device address is not a MAC address.
    NotMacAddress,
    /// The text given as a service or characteristic is not a UUID.
    NotUuid,
}

impl Error {
    /// The message shown to a caller for this error.
    pub fn message(&self) -> (text: String)
        ensures
            text@ == match *self {
                Error::NotMacAddress => "Not a MAC address!"@,
                Error::NotUuid => "Not a UUID!"@,
            },
    {
        broadcast use vstd::string::group_string_axioms;

        match self {
            Error::NotMacAddress => "Not a MAC address!".to_string(),
            Error::NotUuid => "Not a UUID!".to_string(),
        }
    }
}

} // verus!
