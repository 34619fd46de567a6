//! Device addresses: reading them from text and holding them in canonical form.

use vstd::prelude::*;
use vstd::arithmetic::div_mod::lemma_fundamental_div_mod_converse;
use crate::errors::Error;

verus! {

/// What `eui48::MacAddress::parse_str` makes of a text: the six octets of the
/// address it reads, or nothing where it rejects the text.
pub uninterp spec fn eui48_parse(text: Seq<char>) -> Option<[u8; 6]>;

/// Calls `eui48::MacAddress::parse_str` and hands back the octets of the address.
/// The contract only names the outcome: nothing about which texts are accepted
/// is claimed here.
#[verifier::external_body]
fn parse_octets(text: &str) -> (octets: Option<[u8; 6]>)
    ensures
        octets == eui48_parse(text@),
{
    match eui48::MacAddress::parse_str(text) {
        Ok(address) => Some(address.to_array()),
        Err(_) => None,
    }
}

/// The 48-bit number that six octets spell, most significant octet first.
pub open spec fn pack(octets: Seq<u8>) -> int
    recommends
        octets.len() == 6,
{
    octets[0] * 0x100_0000_0000 + octets[1] * 0x1_0000_0000 + octets[2] * 0x100_0000
        + octets[3] * 0x1_0000 + octets[4] * 0x100 + octets[5]
}

/// The six octets of a 48-bit number, most significant first.
pub open spec fn unpack(bits: int) -> Seq<u8> {
    seq![
        ((bits / 0x100_0000_0000) % 0x100) as u8,
        ((bits / 0x1_0000_0000) % 0x100) as u8,
        ((bits / 0x100_0000) % 0x100) as u8,
        ((bits / 0x1_0000) % 0x100) as u8,
        ((bits / 0x100) % 0x100) as u8,
        (bits % 0x100) as u8,
    ]
}

/// The address a text stands for, where it stands for one.
pub open spec fn mac_of_text(text: Seq<char>) -> Option<BtMacAddress> {
    match eui48_parse(text) {
        Some(octets) => Some(BtMacAddress { bits: pack(octets@) as u64 }),
        None => None,
    }
}

/// The identity of a Bluetooth device: its 48-bit address, held as one number so
/// that two addresses are equal exactly when their octets are.
#[derive(Clone, Copy, Debug, PartialEq, Eq, Hash, Structural)]
pub struct BtMacAddress {
    pub bits: u64,
}

impl View for BtMacAddress {
    type V = u64;

    open spec fn view(&self) -> u64 {
        self.bits
    }
}

impl BtMacAddress {
    /// An address made by this library fits in 48 bits.
    pub open spec fn well_formed(&self) -> bool {
        self.bits < 0x1_0000_0000_0000
    }

    /// The address with the given octets, most significant first.
    pub fn from_octets(octets: [u8; 6]) -> (mac: BtMacAddress)
        ensures
            mac.bits == pack(octets@),
            mac.well_formed(),
    {
        let b0: u64 = octets[0] as u64;
        let b1: u64 = octets[1] as u64;
        let b2: u64 = octets[2] as u64;
        let b3: u64 = octets[3] as u64;
        let b4: u64 = octets[4] as u64;
        let b5: u64 = octets[5] as u64;
        BtMacAddress {
            bits: b0 * 0x100_0000_0000 + b1 * 0x1_0000_0000 + b2 * 0x100_0000 + b3 * 0x1_0000
                + b4 * 0x100 + b5,
        }
    }

    /// The octets of the address, most significant first.
    pub fn octets(&self) -> (octets: [u8; 6])
        ensures
            octets@ == unpack(self.bits as int),
    {
        let bits: u64 = self.bits;
        let octets: [u8; 6] = [
            ((bits / 0x100_0000_0000) % 0x100) as u8,
            ((bits / 0x1_0000_0000) % 0x100) as u8,
            ((bits / 0x100_0000) % 0x100) as u8,
            ((bits / 0x1_0000) % 0x100) as u8,
            ((bits / 0x100) % 0x100) as u8,
            (bits % 0x100) as u8,
        ];
        assert(octets@ =~= unpack(self.bits as int));
        octets
    }

    /// The address as one number.
    pub fn as_u64(&self) -> (bits: u64)
        ensures
            bits == self@,
    {
        self.bits
    }

    /// Reads an address from text. The text is an address exactly when
    /// `eui48` accepts it; any other text is turned away as `NotMacAddress`.
    pub fn from_str(us: &str) -> (parsed: Result<BtMacAddress, Error>)
        ensures
            parsed == match mac_of_text(us@) {
                Some(mac) => Ok::<BtMacAddress, Error>(mac),
                None => Err::<BtMacAddress, Error>(Error::NotMacAddress),
            },
            parsed matches Ok(mac) ==> mac.well_formed(),
    {
        match parse_octets(us) {
            Some(octets) => Ok(BtMacAddress::from_octets(octets)),
            None => Err(Error::NotMacAddress),
        }
    }
}

/// Packing six octets and taking the number apart again gives the octets back.
pub proof fn lemma_unpack_pack(octets: Seq<u8>)
    requires
        octets.len() == 6,
    ensures
        unpack(pack(octets)) == octets,
        0 <= pack(octets) < 0x1_0000_0000_0000,
{
    let p = pack(octets);
    let o0 = octets[0] as int;
    let o1 = octets[1] as int;
    let o2 = octets[2] as int;
    let o3 = octets[3] as int;
    let o4 = octets[4] as int;
    let o5 = octets[5] as int;
    let h1 = o0;
    let h2 = h1 * 0x100 + o1;
    let h3 = h2 * 0x100 + o2;
    let h4 = h3 * 0x100 + o3;
    let h5 = h4 * 0x100 + o4;
    lemma_fundamental_div_mod_converse(p, 0x100_0000_0000, h1, p - h1 * 0x100_0000_0000);
    lemma_fundamental_div_mod_converse(p, 0x1_0000_0000, h2, p - h2 * 0x1_0000_0000);
    lemma_fundamental_div_mod_converse(p, 0x100_0000, h3, p - h3 * 0x100_0000);
    lemma_fundamental_div_mod_converse(p, 0x1_0000, h4, p - h4 * 0x1_0000);
    lemma_fundamental_div_mod_converse(p, 0x100, h5, o5);
    lemma_fundamental_div_mod_converse(h1, 0x100, 0, o0);
    lemma_fundamental_div_mod_converse(h2, 0x100, h1, o1);
    lemma_fundamental_div_mod_converse(h3, 0x100, h2, o2);
    lemma_fundamental_div_mod_converse(h4, 0x100, h3, o3);
    lemma_fundamental_div_mod_converse(h5, 0x100, h4, o4);
    assert(unpack(p) =~= octets);
}

/// Two addresses are the same address exactly when their octets agree.
pub proof fn lemma_same_octets_same_address(a: Seq<u8>, b: Seq<u8>)
    requires
        a.len() == 6,
        b.len() == 6,
    ensures
        pack(a) == pack(b) <==> a == b,
{
    lemma_unpack_pack(a);
    lemma_unpack_pack(b);
}

} // verus!
