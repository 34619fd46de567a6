//! The whitelist: which devices, services and characteristics may be used.

use vstd::prelude::*;
use std::collections::{HashMap, HashSet};
use vstd::std_specs::iter::IteratorSpec;
use crate::errors::Error;
use crate::gatt_id::{uuid_of_text, Uuid};
use crate::mac::{mac_of_text, BtMacAddress};

verus! {

/// A characteristic that may be used.
#[derive(Clone, Copy, Debug, PartialEq, Eq, Hash, Structural)]
pub struct BtCharacteristic(pub Uuid);

/// The characteristics of one service that may be used: the set of their
/// identifiers.
#[derive(Debug)]
pub struct BtCharacteristics(pub HashSet<u128>);

/// The services of one device that may be used, each with its characteristics,
/// by the identifier of the service.
#[derive(Debug)]
pub struct BtServices(pub HashMap<u128, BtCharacteristics>);

/// A service that may be used, with its characteristics.
pub struct BtService {
    pub id: Uuid,
    pub chars: BtCharacteristics,
}

/// A device that may be used, with its services.
pub struct BtDevice {
    pub mac: BtMacAddress,
    pub svc_map: BtServices,
}

/// Which devices may be used, each with its services, by the address of the
/// device.
#[derive(Debug)]
pub struct Whitelist(pub HashMap<u64, BtServices>);

impl View for BtCharacteristics {
    type V = Set<u128>;

    open spec fn view(&self) -> Set<u128> {
        self.0@
    }
}

impl View for BtServices {
    type V = Map<u128, BtCharacteristics>;

    open spec fn view(&self) -> Map<u128, BtCharacteristics> {
        self.0@
    }
}

impl View for Whitelist {
    type V = Map<u64, BtServices>;

    open spec fn view(&self) -> Map<u64, BtServices> {
        self.0@
    }
}

impl BtCharacteristic {
    /// The characteristic with the given identifier.
    pub fn from(other: Uuid) -> (characteristic: BtCharacteristic)
        ensures
            characteristic.0 == other,
    {
        BtCharacteristic(other)
    }

    /// Reads a characteristic from the text of its identifier.
    pub fn from_str(us: &str) -> (parsed: Result<BtCharacteristic, Error>)
        ensures
            parsed == match uuid_of_text(us@) {
                Some(id) => Ok::<BtCharacteristic, Error>(BtCharacteristic(id)),
                None => Err::<BtCharacteristic, Error>(Error::NotUuid),
            },
    {
        match Uuid::from_str(us) {
            Ok(id) => Ok(BtCharacteristic(id)),
            Err(e) => Err(e),
        }
    }
}

impl BtCharacteristics {
    /// Whether the characteristic `id` may be used.
    pub fn contains_characteristic(&self, id: &Uuid) -> (found: bool)
        ensures
            found == self@.contains(id@),
    {
        broadcast use vstd::std_specs::hash::group_hash_axioms;

        self.0.contains(&id.bits)
    }

    /// The characteristics that may be used, each once, in no particular order.
    pub fn characteristics(&self) -> (all: Vec<BtCharacteristic>)
        ensures
            all@.len() == self@.len(),
            forall|i: int, j: int| 0 <= i < j < all@.len() ==> all@[i] != all@[j],
            forall|id: u128|
                self@.contains(id) <==> exists|i: int|
                    0 <= i < all@.len() && (#[trigger] all@[i]).0@ == id,
    {
        broadcast use vstd::std_specs::hash::group_hash_axioms;

        let mut all: Vec<BtCharacteristic> = Vec::new();
        let ghost keys: Seq<u128> = self.0.iter().remaining().unref();
        for key in it: self.0.iter()
            invariant
                it.seq().unref() == keys,
                keys.to_set() == self@,
                keys.no_duplicates(),
                keys.len() == self@.len(),
                all@.len() == it.index(),
                forall|i: int| 0 <= i < all@.len() ==> (#[trigger] all@[i]).0@ == keys[i],
        {
            assert(keys[it.index() as int] == *key);
            all.push(BtCharacteristic(Uuid { bits: *key }));
        }
        assert forall|id: u128| self@.contains(id) implies exists|i: int|
            0 <= i < all@.len() && (#[trigger] all@[i]).0@ == id by {
            let i = choose|i: int| 0 <= i < keys.len() && keys[i] == id;
            assert(all@[i].0@ == id);
        }
        assert forall|id: u128|
            (exists|i: int| 0 <= i < all@.len() && (#[trigger] all@[i]).0@ == id) implies self@.contains(
            id,
        ) by {
            let i = choose|i: int| 0 <= i < all@.len() && (#[trigger] all@[i]).0@ == id;
            assert(keys[i] == id);
            assert(keys.contains(id));
        }
        all
    }

    /// The characteristic `id`, where it may be used.
    pub fn get_characteristic(&self, id: &Uuid) -> (found: Option<BtCharacteristic>)
        ensures
            found == if self@.contains(id@) {
                Some(BtCharacteristic(*id))
            } else {
                None
            },
    {
        if self.contains_characteristic(id) {
            Some(BtCharacteristic(*id))
        } else {
            None
        }
    }
}

impl BtServices {
    /// Whether the service `id` may be used.
    pub fn contains_service(&self, id: &Uuid) -> (found: bool)
        ensures
            found == self@.contains_key(id@),
    {
        broadcast use vstd::std_specs::hash::group_hash_axioms;

        self.0.contains_key(&id.bits)
    }

    /// The services that may be used, each once, in no particular order.
    pub fn services(&self) -> (all: Vec<Uuid>)
        ensures
            all@.len() == self@.dom().len(),
            forall|i: int, j: int| 0 <= i < j < all@.len() ==> all@[i] != all@[j],
            forall|id: u128|
                self@.contains_key(id) <==> exists|i: int|
                    0 <= i < all@.len() && (#[trigger] all@[i])@ == id,
    {
        broadcast use vstd::std_specs::hash::group_hash_axioms;

        let mut all: Vec<Uuid> = Vec::new();
        let ghost keys: Seq<u128> = self.0.keys().remaining().unref();
        for key in it: self.0.keys()
            invariant
                it.seq().unref() == keys,
                keys.to_set() == self@.dom(),
                keys.no_duplicates(),
                keys.len() == self@.dom().len(),
                all@.len() == it.index(),
                forall|i: int| 0 <= i < all@.len() ==> (#[trigger] all@[i])@ == keys[i],
        {
            assert(keys[it.index() as int] == *key);
            all.push(Uuid { bits: *key });
        }
        assert forall|id: u128| self@.contains_key(id) implies exists|i: int|
            0 <= i < all@.len() && (#[trigger] all@[i])@ == id by {
            let i = choose|i: int| 0 <= i < keys.len() && keys[i] == id;
            assert(all@[i]@ == id);
        }
        assert forall|id: u128|
            (exists|i: int| 0 <= i < all@.len() && (#[trigger] all@[i])@ == id) implies self@.contains_key(
            id,
        ) by {
            let i = choose|i: int| 0 <= i < all@.len() && (#[trigger] all@[i])@ == id;
            assert(keys[i] == id);
            assert(keys.contains(id));
        }
        all
    }

    /// The characteristics of the service `id`, where it may be used.
    pub fn get_service(&self, id: &Uuid) -> (found: Option<&BtCharacteristics>)
        ensures
            match found {
                Some(characteristics) => self@.contains_key(id@) && *characteristics == self@[id@],
                None => !self@.contains_key(id@),
            },
    {
        broadcast use vstd::std_specs::hash::group_hash_axioms;

        self.0.get(&id.bits)
    }
}

impl BtService {
    /// The service `svc_id`, with no characteristic yet.
    pub fn new(svc_id: Uuid) -> (service: BtService)
        ensures
            service.id == svc_id,
            service.chars@ == Set::<u128>::empty(),
    {
        BtService { id: svc_id, chars: BtCharacteristics(HashSet::new()) }
    }

    /// The service with one more characteristic.
    pub fn characteristic(self, charac: BtCharacteristic) -> (service: BtService)
        ensures
            service.id == self.id,
            service.chars@ == self.chars@.insert(charac.0@),
    {
        broadcast use vstd::std_specs::hash::group_hash_axioms;

        let mut service = self;
        service.chars.0.insert(charac.0.bits);
        service
    }

    /// Reads a service from the text of its identifier; it has no
    /// characteristic yet.
    pub fn from_str(us: &str) -> (parsed: Result<BtService, Error>)
        ensures
            match uuid_of_text(us@) {
                Some(id) => parsed matches Ok(service) && service.id == id && service.chars@
                    == Set::<u128>::empty(),
                None => parsed matches Err(e) && e == Error::NotUuid,
            },
    {
        match Uuid::from_str(us) {
            Ok(id) => Ok(BtService::new(id)),
            Err(e) => Err(e),
        }
    }
}

impl BtDevice {
    /// The device `mac`, with no service yet.
    pub fn new(mac: BtMacAddress) -> (device: BtDevice)
        ensures
            device.mac == mac,
            device.svc_map@ == Map::<u128, BtCharacteristics>::empty(),
    {
        BtDevice { mac, svc_map: BtServices(HashMap::new()) }
    }

    /// The device with one more service. A service given twice counts as given
    /// the last time.
    pub fn service(self, service: BtService) -> (device: BtDevice)
        ensures
            device.mac == self.mac,
            device.svc_map@ == self.svc_map@.insert(service.id@, service.chars),
    {
        broadcast use vstd::std_specs::hash::group_hash_axioms;

        let mut device = self;
        device.svc_map.0.insert(service.id.bits, service.chars);
        device
    }

    /// Reads a device from the text of its address; it has no service yet.
    pub fn from_str(us: &str) -> (parsed: Result<BtDevice, Error>)
        ensures
            match mac_of_text(us@) {
                Some(mac) => parsed matches Ok(device) && device.mac == mac && device.svc_map@
                    == Map::<u128, BtCharacteristics>::empty(),
                None => parsed matches Err(e) && e == Error::NotMacAddress,
            },
    {
        match BtMacAddress::from_str(us) {
            Ok(mac) => Ok(BtDevice::new(mac)),
            Err(e) => Err(e),
        }
    }
}

impl Whitelist {
    /// The whitelist that allows no device.
    pub fn new() -> (whitelist: Whitelist)
        ensures
            whitelist@ == Map::<u64, BtServices>::empty(),
    {
        Whitelist(HashMap::new())
    }

    /// The whitelist with one more device. A device given twice counts as given
    /// the last time.
    pub fn device(self, device: BtDevice) -> (whitelist: Whitelist)
        ensures
            whitelist@ == self@.insert(device.mac@, device.svc_map),
    {
        broadcast use vstd::std_specs::hash::group_hash_axioms;

        let mut whitelist = self;
        whitelist.0.insert(device.mac.bits, device.svc_map);
        whitelist
    }

    /// Whether the device whose address is written `id` may be used. A text
    /// that is no address names no device.
    pub fn contains_device(&self, id: &str) -> (found: bool)
        ensures
            found == match mac_of_text(id@) {
                Some(mac) => self@.contains_key(mac@),
                None => false,
            },
    {
        broadcast use vstd::std_specs::hash::group_hash_axioms;

        match BtMacAddress::from_str(id) {
            Ok(mac) => self.0.contains_key(&mac.bits),
            Err(_) => false,
        }
    }

    /// The services of the device whose address is written `id`, where it may
    /// be used. A text that is no address names no device.
    pub fn get_device(&self, id: &str) -> (found: Option<&BtServices>)
        ensures
            match found {
                Some(services) => mac_of_text(id@) matches Some(mac) && self@.contains_key(mac@)
                    && *services == self@[mac@],
                None => mac_of_text(id@) matches Some(mac) ==> !self@.contains_key(mac@),
            },
    {
        match BtMacAddress::from_str(id) {
            Ok(mac) => self.get_device_btmac(&mac),
            Err(_) => None,
        }
    }

    /// The services of the device `id`, where it may be used.
    pub fn get_device_btmac(&self, id: &BtMacAddress) -> (found: Option<&BtServices>)
        ensures
            match found {
                Some(services) => self@.contains_key(id@) && *services == self@[id@],
                None => !self@.contains_key(id@),
            },
    {
        broadcast use vstd::std_specs::hash::group_hash_axioms;

        self.0.get(&id.bits)
    }

    /// The devices that may be used, each once, in no particular order.
    pub fn devices(&self) -> (all: Vec<BtMacAddress>)
        ensures
            all@.len() == self@.dom().len(),
            forall|i: int, j: int| 0 <= i < j < all@.len() ==> all@[i] != all@[j],
            forall|mac: u64|
                self@.contains_key(mac) <==> exists|i: int|
                    0 <= i < all@.len() && (#[trigger] all@[i])@ == mac,
    {
        broadcast use vstd::std_specs::hash::group_hash_axioms;

        let mut all: Vec<BtMacAddress> = Vec::new();
        let ghost keys: Seq<u64> = self.0.keys().remaining().unref();
        for key in it: self.0.keys()
            invariant
                it.seq().unref() == keys,
                keys.to_set() == self@.dom(),
                keys.no_duplicates(),
                keys.len() == self@.dom().len(),
                all@.len() == it.index(),
                forall|i: int| 0 <= i < all@.len() ==> (#[trigger] all@[i])@ == keys[i],
        {
            assert(keys[it.index() as int] == *key);
            all.push(BtMacAddress { bits: *key });
        }
        assert forall|mac: u64| self@.contains_key(mac) implies exists|i: int|
            0 <= i < all@.len() && (#[trigger] all@[i])@ == mac by {
            let i = choose|i: int| 0 <= i < keys.len() && keys[i] == mac;
            assert(all@[i]@ == mac);
        }
        assert forall|mac: u64|
            (exists|i: int| 0 <= i < all@.len() && (#[trigger] all@[i])@ == mac) implies self@.contains_key(
            mac,
        ) by {
            let i = choose|i: int| 0 <= i < all@.len() && (#[trigger] all@[i])@ == mac;
            assert(keys[i] == mac);
            assert(keys.contains(mac));
        }
        all
    }
}

} // verus!
