//! The five actors, each as a state and the decisions of its tick.

use vstd::prelude::*;
use crate::gatt_id::Uuid;
use crate::mac::BtMacAddress;

pub mod connection;
pub mod connection_laws;
pub mod data_poll;
pub mod data_write;
pub mod discovery;
pub mod discovery_laws;
pub mod endpoint_laws;
pub mod endpoints;

verus! {

/// How long, in milliseconds, a device may stay disconnected before it is
/// reported missing.
pub const IDLE_LIMIT_MS: u64 = 30_000;

/// What a caller asks for: one characteristic of one service on one device.
#[derive(Clone, Copy, Debug, PartialEq, Eq, Structural)]
pub struct SomethingItem {
    pub mac: BtMacAddress,
    pub svc: Uuid,
    pub chrc: Uuid,
}

/// A device whose connection is kept alive. Times are milliseconds on the
/// clock of whoever drives the actors.
#[derive(Clone, Debug)]
pub struct Connectable {
    /// The handle under which the adapter knows the device.
    pub bluez_handle: String,
    /// The address the device advertised, as text.
    pub mac_addr: String,
    /// When the device was last seen connected, or last accepted a connect.
    pub last_connected: u64,
}

impl Connectable {
    /// A device first seen at `now`. `address` is what the adapter gave as its
    /// address, or nothing where the adapter could not tell.
    pub fn new(dev: String, address: Option<String>, now: u64) -> (device: Connectable)
        ensures
            device.bluez_handle == dev,
            device.last_connected == now,
            match address {
                Some(text) => device.mac_addr == text,
                None => device.mac_addr@ == "Unknown"@,
            },
    {
        broadcast use vstd::string::group_string_axioms;

        let mac_addr = match address {
            Some(text) => text,
            None => "Unknown".to_string(),
        };
        Connectable { bluez_handle: dev, mac_addr, last_connected: now }
    }

    /// Records the outcome of a connect attempt made at `now`: an attempt that
    /// the adapter accepted counts as the device being connected then.
    pub fn connect(&mut self, accepted: bool, now: u64)
        ensures
            final(self).bluez_handle == old(self).bluez_handle,
            final(self).mac_addr == old(self).mac_addr,
            final(self).last_connected == if accepted {
                now
            } else {
                old(self).last_connected
            },
    {
        if accepted {
            self.last_connected = now;
        }
    }

    /// How long the device has been without a connection at `now`.
    pub open spec fn idle_time(&self, now: u64) -> int {
        if now >= self.last_connected {
            now - self.last_connected
        } else {
            0
        }
    }

    /// Whether the device has been without a connection for longer than the
    /// idle limit.
    pub fn too_idle(&self, now: u64) -> (idle: bool)
        ensures
            idle == (self.idle_time(now) > IDLE_LIMIT_MS),
    {
        now >= self.last_connected && now - self.last_connected > IDLE_LIMIT_MS
    }
}

} // verus!
