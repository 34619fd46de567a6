//! Identifiers of services and characteristics: reading them from text and
//! holding them in canonical form.

use vstd::prelude::*;
use std::str::FromStr;
use crate::errors::Error;

verus! {

/// What `uuid::Uuid::from_str` makes of a text: the UUID it reads, as the
/// 128-bit number that `uuid::Uuid::as_u128` gives for it, or nothing where it
/// rejects the text.
pub uninterp spec fn uuid_parse(text: Seq<char>) -> Option<u128>;

/// Calls `uuid::Uuid::from_str` and, where it succeeds, `uuid::Uuid::as_u128` on
/// what it returned. The contract only names the outcome: nothing about which
/// texts are accepted is claimed here.
#[verifier::external_body]
fn parse_bits(text: &str) -> (bits: Option<u128>)
    ensures
        bits == uuid_parse(text@),
{
    match uuid::Uuid::from_str(text) {
        Ok(id) => Some(id.as_u128()),
        Err(_) => None,
    }
}

/// The identifier a text stands for, where it stands for one.
pub open spec fn uuid_of_text(text: Seq<char>) -> Option<Uuid> {
    match uuid_parse(text) {
        Some(bits) => Some(Uuid { bits }),
        None => None,
    }
}

/// The identifier of a GATT service or characteristic: a 128-bit number, so that
/// two identifiers are equal exactly when their sixteen bytes are.
#[derive(Clone, Copy, Debug, PartialEq, Eq, Hash, Structural)]
pub struct Uuid {
    pub bits: u128,
}

impl View for Uuid {
    type V = u128;

    open spec fn view(&self) -> u128 {
        self.bits
    }
}

impl Uuid {
    /// The identifier with the given value.
    pub fn from_u128(bits: u128) -> (id: Uuid)
        ensures
            id@ == bits,
    {
        Uuid { bits }
    }

    /// The identifier as one number.
    pub fn as_u128(&self) -> (bits: u128)
        ensures
            bits == self@,
    {
        self.bits
    }

    /// Reads an identifier from text. The text is an identifier exactly when
    /// `uuid` accepts it; any other text is turned away as `NotUuid`.
    pub fn from_str(us: &str) -> (parsed: Result<Uuid, Error>)
        ensures
            parsed == match uuid_of_text(us@) {
                Some(id) => Ok::<Uuid, Error>(id),
                None => Err::<Uuid, Error>(Error::NotUuid),
            },
    {
        match parse_bits(us) {
            Some(bits) => Ok(Uuid { bits }),
            None => Err(Error::NotUuid),
        }
    }
}

} // verus!
