//! What a caller sees: the settings of the actors, the actors in their first
//! state, and the check that every request passes before it reaches them.

use vstd::prelude::*;
use crate::bt_manager::connection::ConnectionDb;
use crate::bt_manager::data_poll::DataDb;
use crate::bt_manager::data_write::DataWDb;
use crate::bt_manager::discovery::DiscoveryData;
use crate::bt_manager::endpoints::EndpointsDb;
use crate::bt_manager::SomethingItem;
use crate::duration::Duration;
use crate::errors::Error;
use crate::gatt_id::{uuid_of_text, Uuid};
use crate::mac::{mac_of_text, BtMacAddress};

verus! {

/// The settings of the actors: how often each of them runs, and how long a scan
/// lasts.
#[derive(Clone, Copy, Debug, PartialEq, Eq, Structural)]
pub struct EasyBluez {
    pub scan_interval: Duration,
    pub scan_duration: Duration,
    pub connect_interval: Duration,
    pub endpoint_interval: Duration,
    pub poll_interval: Duration,
    pub write_interval: Duration,
}

/// The five actors in their first state. `P` is what a caller attaches to a
/// poll request and `W` what it attaches to a write request.
pub struct Actors<P, W> {
    pub discovery: DiscoveryData,
    pub connection: ConnectionDb,
    pub endpoints: EndpointsDb<P, W>,
    pub poll: DataDb<P>,
    pub write: DataWDb<W>,
}

/// What a caller wants done with an endpoint.
#[derive(Clone, Copy, Debug, PartialEq, Eq, Structural)]
pub enum RequestKind {
    /// Read it again and again.
    Poll,
    /// Write to it what the caller sends.
    Write,
}

/// A request that was found in order: what to tell the actors about it.
#[derive(Clone, Copy, Debug, PartialEq, Eq, Structural)]
pub struct Submission {
    /// Which queue of the resolver the request goes to.
    pub kind: RequestKind,
    /// The address to put on the discovery actor's whitelist.
    pub whitelist: BtMacAddress,
    /// The request for the resolver.
    pub item: SomethingItem,
}

/// What the three texts of a request stand for. The address is looked at
/// first, then the service, then the characteristic; the first one that does
/// not read decides the error.
pub open spec fn request_of_text(mac: Seq<char>, svc: Seq<char>, chrc: Seq<char>) -> Result<
    SomethingItem,
    Error,
> {
    match mac_of_text(mac) {
        None => Err(Error::NotMacAddress),
        Some(mac) => match uuid_of_text(svc) {
            None => Err(Error::NotUuid),
            Some(svc) => match uuid_of_text(chrc) {
                None => Err(Error::NotUuid),
                Some(chrc) => Ok(SomethingItem { mac, svc, chrc }),
            },
        },
    }
}

/// What a request of the given kind comes to: with texts that read, the
/// submission for the actors; else the error, and nothing for any actor.
pub open spec fn submission_of_text(
    kind: RequestKind,
    mac: Seq<char>,
    svc: Seq<char>,
    chrc: Seq<char>,
) -> Result<Submission, Error> {
    match request_of_text(mac, svc, chrc) {
        Ok(item) => Ok(Submission { kind, whitelist: item.mac, item }),
        Err(e) => Err(e),
    }
}

impl SomethingItem {
    /// Reads a request from the texts of its address and its two identifiers.
    pub fn parse(mac_s: &str, svc_s: &str, chrc_s: &str) -> (parsed: Result<SomethingItem, Error>)
        ensures
            parsed == request_of_text(mac_s@, svc_s@, chrc_s@),
    {
        let mac: BtMacAddress = match BtMacAddress::from_str(mac_s) {
            Ok(mac) => mac,
            Err(e) => {
                return Err(e);
            },
        };
        let svc: Uuid = match Uuid::from_str(svc_s) {
            Ok(svc) => svc,
            Err(e) => {
                return Err(e);
            },
        };
        let chrc: Uuid = match Uuid::from_str(chrc_s) {
            Ok(chrc) => chrc,
            Err(e) => {
                return Err(e);
            },
        };
        Ok(SomethingItem { mac, svc, chrc })
    }
}

/// Checks a request to poll an endpoint. With texts that read as an address and
/// two UUIDs, it says what to send to the actors; with any other texts it fails,
/// and there is nothing to send.
pub fn poll(mac_s: &str, svc_s: &str, chrc_s: &str) -> (checked: Result<Submission, Error>)
    ensures
        checked == submission_of_text(RequestKind::Poll, mac_s@, svc_s@, chrc_s@),
        checked is Err <==> mac_of_text(mac_s@) is None || uuid_of_text(svc_s@) is None || uuid_of_text(
            chrc_s@,
        ) is None,
{
    match SomethingItem::parse(mac_s, svc_s, chrc_s) {
        Ok(item) => Ok(Submission { kind: RequestKind::Poll, whitelist: item.mac, item }),
        Err(e) => Err(e),
    }
}

/// Checks a request to write to an endpoint, as `poll` checks a request to poll
/// one.
pub fn writeable(mac_s: &str, svc_s: &str, chrc_s: &str) -> (checked: Result<Submission, Error>)
    ensures
        checked == submission_of_text(RequestKind::Write, mac_s@, svc_s@, chrc_s@),
        checked is Err <==> mac_of_text(mac_s@) is None || uuid_of_text(svc_s@) is None || uuid_of_text(
            chrc_s@,
        ) is None,
{
    match SomethingItem::parse(mac_s, svc_s, chrc_s) {
        Ok(item) => Ok(Submission { kind: RequestKind::Write, whitelist: item.mac, item }),
        Err(e) => Err(e),
    }
}

impl EasyBluez {
    /// The settings that hold where nothing else is asked for: a scan of five
    /// seconds every ten seconds, connections and endpoints looked after every
    /// three seconds, a poll every second and a write every tenth of a second.
    pub fn new() -> (settings: EasyBluez)
        ensures
            settings.scan_interval@ == 10_000,
            settings.scan_duration@ == 5_000,
            settings.connect_interval@ == 3_000,
            settings.endpoint_interval@ == 3_000,
            settings.poll_interval@ == 1_000,
            settings.write_interval@ == 100,
    {
        EasyBluez {
            scan_interval: Duration::seconds(10),
            scan_duration: Duration::seconds(5),
            connect_interval: Duration::seconds(3),
            endpoint_interval: Duration::seconds(3),
            poll_interval: Duration::milliseconds(1000),
            write_interval: Duration::milliseconds(100),
        }
    }

    /// How often to scan for new devices.
    pub fn scan_interval(self, interval: Duration) -> (settings: EasyBluez)
        ensures
            settings == (EasyBluez { scan_interval: interval, ..self }),
    {
        let mut settings = self;
        settings.scan_interval = interval;
        settings
    }

    /// How long to scan for new devices.
    pub fn scan_duration(self, duration: Duration) -> (settings: EasyBluez)
        ensures
            settings == (EasyBluez { scan_duration: duration, ..self }),
    {
        let mut settings = self;
        settings.scan_duration = duration;
        settings
    }

    /// How often to look after the connections of discovered devices.
    pub fn connect_interval(self, interval: Duration) -> (settings: EasyBluez)
        ensures
            settings == (EasyBluez { connect_interval: interval, ..self }),
    {
        let mut settings = self;
        settings.connect_interval = interval;
        settings
    }

    /// How often to look for the endpoints of pending requests.
    pub fn endpoint_interval(self, interval: Duration) -> (settings: EasyBluez)
        ensures
            settings == (EasyBluez { endpoint_interval: interval, ..self }),
    {
        let mut settings = self;
        settings.endpoint_interval = interval;
        settings
    }

    /// How often to poll readable endpoints.
    pub fn poll_interval(self, interval: Duration) -> (settings: EasyBluez)
        ensures
            settings == (EasyBluez { poll_interval: interval, ..self }),
    {
        let mut settings = self;
        settings.poll_interval = interval;
        settings
    }

    /// How often to write what callers sent.
    pub fn write_interval(self, interval: Duration) -> (settings: EasyBluez)
        ensures
            settings == (EasyBluez { write_interval: interval, ..self }),
    {
        let mut settings = self;
        settings.write_interval = interval;
        settings
    }

    /// The five actors as they start: with these settings, and with nothing
    /// whitelisted, seen, tracked, pending, polled or written to.
    pub fn run<P, W>(&mut self) -> (actors: Actors<P, W>)
        ensures
            *final(self) == *old(self),
            Self::fresh_actors(*old(self), actors),
    {
        self.spawn_events()
    }

    /// Whether `actors` are the five actors as they start with `settings`.
    pub open spec fn fresh_actors<P, W>(settings: EasyBluez, actors: Actors<P, W>) -> bool {
        &&& actors.discovery.db@ == Set::<u64>::empty()
        &&& actors.discovery.wl@ == Set::<u64>::empty()
        &&& actors.discovery.scan_interval == settings.scan_interval
        &&& actors.discovery.scan_duration == settings.scan_duration
        &&& actors.connection.db@ == Seq::<crate::bt_manager::Connectable>::empty()
        &&& actors.connection.connect_interval == settings.connect_interval
        &&& actors.endpoints.pending_poll@ == Seq::<(SomethingItem, P)>::empty()
        &&& actors.endpoints.pending_write@ == Seq::<(SomethingItem, W)>::empty()
        &&& actors.endpoints.devices@ == Map::<u64, String>::empty()
        &&& actors.endpoints.endpoint_interval == settings.endpoint_interval
        &&& actors.poll.polls@ == Seq::<(String, P)>::empty()
        &&& actors.poll.poll_interval == settings.poll_interval
        &&& actors.write.writes@ == Seq::<(String, W)>::empty()
        &&& actors.write.write_interval == settings.write_interval
    }

    /// Builds the first state of each actor from the settings.
    pub fn spawn_events<P, W>(&mut self) -> (actors: Actors<P, W>)
        ensures
            *final(self) == *old(self),
            Self::fresh_actors(*old(self), actors),
    {
        Actors {
            discovery: DiscoveryData::new(self.scan_interval, self.scan_duration),
            connection: ConnectionDb::new(self.connect_interval),
            endpoints: EndpointsDb::new(self.endpoint_interval),
            poll: DataDb::new(self.poll_interval),
            write: DataWDb::new(self.write_interval),
        }
    }
}

} // verus!
