//! The decisions of a small fleet manager for Bluetooth Low Energy devices.
//!
//! Five actors work in a pipeline: discovery finds whitelisted devices, the
//! connection actor keeps them connected, the endpoint resolver matches the
//! callers' requests to the characteristics the devices expose, and the poll and
//! write actors read from and write to the endpoints found. This library holds
//! what each actor decides in a tick, as functions from the actor's state and
//! what was observed to the new state and what to do next. Whoever drives the
//! actors talks to the adapter, moves the messages between them and runs the
//! clock.

pub mod api;
pub mod bt_manager;
pub mod duration;
pub mod errors;
pub mod gatt_id;
pub mod mac;
pub mod whitelist;

pub use crate::api::{poll, writeable, Actors, EasyBluez, RequestKind, Submission};
pub use crate::duration::Duration;
pub use crate::errors::Error;
pub use crate::gatt_id::Uuid;
pub use crate::mac::BtMacAddress;
