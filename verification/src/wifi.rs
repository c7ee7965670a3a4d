//! Plain-value data model of the wireless control endpoint: discovered
//! networks, persisted network entries, the error taxonomy, and the request
//! and event alphabet of one supplicant session.

use vstd::prelude::*;

verus! {

/// One discovered wireless network, an immutable snapshot from a scan.
/// A scan report may contain several entries with the same name (one per
/// channel); the list is returned verbatim, never deduplicated.
#[derive(Clone, Debug)]
pub struct ScanResult {
    /// Access-point MAC address, as printed by the supplicant.
    pub mac: String,
    /// Radio frequency, as printed by the supplicant.
    pub frequency: String,
    /// Signal strength.
    pub signal: isize,
    /// Security flags, as printed by the supplicant.
    pub flags: String,
    /// Network name (SSID).
    pub name: String,
}

/// A network entry persisted by the supplicant.  The id is assigned by the
/// supplicant and is only valid within its current network table.
#[derive(Clone, Debug)]
pub struct KnownNetwork {
    /// Supplicant-assigned integer handle.
    pub network_id: usize,
    /// The entry's SSID.
    pub ssid: String,
    /// Credentials / state flags, as printed by the supplicant.
    pub flags: String,
}

/// The error taxonomy of the session manager.
#[derive(Clone, Copy, Debug, PartialEq, Eq, Structural)]
pub enum WifiError {
    /// The control socket is missing or the peer refused the connection.
    ConnectionError,
    /// A request or response was malformed or rejected.
    ProtocolError,
    /// Removal of a network id that the table does not hold.
    NotFoundError,
    /// File access failed (sysfs collaborators only).
    IoError,
}

/// A request that the session machine asks the surrounding process to
/// perform against the supplicant control socket.
#[derive(Debug)]
pub enum Request {
    /// Ask for a scan; answered by [`Event::ScanResults`].
    GetScan,
    /// Ask for the known-network table; answered by [`Event::Networks`].
    GetNetworks,
    /// Create a new network entry; answered by [`Event::NetworkAdded`].
    AddNetwork,
    /// Set the SSID of the given entry; answered by [`Event::Ack`].
    SetSsid(usize, String),
    /// Set the pre-shared key of the given entry; answered by [`Event::Ack`].
    SetPsk(usize, String),
    /// Activate the given entry; answered by [`Event::Ack`].
    SelectNetwork(usize),
    /// Remove the given entry from the table; answered by [`Event::Ack`].
    RemoveNetwork(usize),
    /// Signal the session runtime to stop; answered by
    /// [`Event::ShutdownComplete`].
    Shutdown,
}

/// What the supplicant answered to the previous [`Request`], as a plain
/// value.  The surrounding process converts the control-socket response
/// into one of these.
#[derive(Debug)]
pub enum Event {
    /// The scan report, order and multiplicity as the supplicant gave it.
    ScanResults(Vec<ScanResult>),
    /// The known-network table, in table order.
    Networks(Vec<KnownNetwork>),
    /// A new entry was created under this id.
    NetworkAdded(usize),
    /// The request succeeded with no data to return.
    Ack,
    /// The request failed.
    Failed(WifiError),
    /// The session runtime has stopped.
    ShutdownComplete,
}

/// The mathematical image of a [`Request`]: string payloads become
/// character sequences.  Session traces are sequences of these.
pub enum Cmd {
    GetScan,
    GetNetworks,
    AddNetwork,
    SetSsid(usize, Seq<char>),
    SetPsk(usize, Seq<char>),
    SelectNetwork(usize),
    RemoveNetwork(usize),
    Shutdown,
}

impl View for Request {
    type V = Cmd;

    open spec fn view(&self) -> Cmd {
        match self {
            Request::GetScan => Cmd::GetScan,
            Request::GetNetworks => Cmd::GetNetworks,
            Request::AddNetwork => Cmd::AddNetwork,
            Request::SetSsid(id, s) => Cmd::SetSsid(*id, s@),
            Request::SetPsk(id, s) => Cmd::SetPsk(*id, s@),
            Request::SelectNetwork(id) => Cmd::SelectNetwork(*id),
            Request::RemoveNetwork(id) => Cmd::RemoveNetwork(*id),
            Request::Shutdown => Cmd::Shutdown,
        }
    }
}

/// The image of an optional request, for contracts over a step's output.
pub open spec fn opt_req_view(r: Option<Request>) -> Option<Cmd> {
    match r {
        Some(q) => Some(q@),
        None => None,
    }
}

/// Entry point of the wireless-network management API.  One value stands
/// for the supplicant control endpoint; each operation on it runs over its
/// own short-lived session.
pub struct WifiModule;

impl WifiModule {
    pub fn new() -> Self {
        Self
    }
}

} // verus!
