//! The records of the inventory: one per socket.

use vstd::prelude::*;
use crate::tcp_state::is_state_name;

verus! {

/// One end of a socket.
///
/// The address is absent where the socket table reported the wildcard address.
/// The port is absent only for the remote end of a UDP socket, which has no
/// peer.
#[derive(Clone, Debug, PartialEq, Eq)]
pub struct AddressPort {
    pub address: Option<String>,
    pub port: Option<u16>,
}

/// What an `AddressPort` holds, with its text as a sequence of characters.
pub struct AddressPortView {
    pub address: Option<Seq<char>>,
    pub port: Option<u16>,
}

impl AddressPortView {
    /// An address that is there is not the empty text.
    pub open spec fn is_well_formed(self) -> bool {
        self.address matches Some(text) ==> text.len() > 0
    }
}

impl View for AddressPort {
    type V = AddressPortView;

    open spec fn view(&self) -> AddressPortView {
        AddressPortView { address: self.address.deep_view(), port: self.port }
    }
}

impl DeepView for AddressPort {
    type V = AddressPortView;

    open spec fn deep_view(&self) -> AddressPortView {
        self.view()
    }
}

/// One row of the inventory: a socket and the process that owns it.
#[derive(Clone, Debug, PartialEq, Eq)]
pub struct ProcessInfo {
    /// `tcp`, `tcp6`, `udp` or `udp6`.
    pub protocol: String,
    pub local: AddressPort,
    pub remote: AddressPort,
    /// The name of the TCP state; empty for UDP.
    pub state: String,
    /// The owning process, or 0 where the socket table names none.
    pub pid: u32,
    /// The name of the owning process; empty where the process table does not
    /// hold it.
    pub process_name: String,
}

/// What a `ProcessInfo` holds, with its text as sequences of characters.
pub struct ProcessInfoView {
    pub protocol: Seq<char>,
    pub local: AddressPortView,
    pub remote: AddressPortView,
    pub state: Seq<char>,
    pub pid: u32,
    pub process_name: Seq<char>,
}

impl View for ProcessInfo {
    type V = ProcessInfoView;

    open spec fn view(&self) -> ProcessInfoView {
        ProcessInfoView {
            protocol: self.protocol@,
            local: self.local@,
            remote: self.remote@,
            state: self.state@,
            pid: self.pid,
            process_name: self.process_name@,
        }
    }
}

impl DeepView for ProcessInfo {
    type V = ProcessInfoView;

    open spec fn deep_view(&self) -> ProcessInfoView {
        self.view()
    }
}

impl ProcessInfoView {
    /// The record describes a TCP socket.
    pub open spec fn is_tcp(self) -> bool {
        self.protocol == "tcp"@ || self.protocol == "tcp6"@
    }

    /// The record describes a UDP socket.
    pub open spec fn is_udp(self) -> bool {
        self.protocol == "udp"@ || self.protocol == "udp6"@
    }

    /// The record is one that the inventory can hold: no address is the
    /// empty text; the local port is there; a TCP record has a remote port
    /// and the name of a state; a UDP record has no remote end and no state.
    pub open spec fn is_well_formed(self) -> bool {
        &&& self.is_tcp() || self.is_udp()
        &&& self.local.is_well_formed()
        &&& self.remote.is_well_formed()
        &&& self.local.port is Some
        &&& self.is_tcp() ==> self.remote.port is Some && is_state_name(self.state)
        &&& self.is_udp() ==> self.remote.address is None && self.remote.port is None
            && self.state == Seq::<char>::empty()
    }
}

} // verus!
