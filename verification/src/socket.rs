//! What the socket table and the process table report, as plain values.

use vstd::prelude::*;
use crate::address::IpAddress;
use crate::tcp_state::TcpState;

verus! {

/// A TCP socket.
#[derive(Clone, Debug, PartialEq, Eq)]
pub struct TcpSocketInfo {
    pub local_addr: IpAddress,
    pub local_port: u16,
    pub remote_addr: IpAddress,
    pub remote_port: u16,
    pub state: TcpState,
}

/// A UDP socket. It has no peer and no state.
#[derive(Clone, Debug, PartialEq, Eq)]
pub struct UdpSocketInfo {
    pub local_addr: IpAddress,
    pub local_port: u16,
}

/// What is known of a socket by its transport.
#[derive(Clone, Debug, PartialEq, Eq)]
pub enum ProtocolSocketInfo {
    Tcp(TcpSocketInfo),
    Udp(UdpSocketInfo),
}

/// One socket of the socket table.
#[derive(Clone, Debug, PartialEq, Eq)]
pub struct SocketInfo {
    pub protocol_socket_info: ProtocolSocketInfo,
    /// The processes that hold the socket; possibly none.
    pub associated_pids: Vec<u32>,
}

/// What a `SocketInfo` holds, with its processes as a sequence.
pub struct SocketInfoView {
    pub protocol_socket_info: ProtocolSocketInfo,
    pub associated_pids: Seq<u32>,
}

impl View for SocketInfo {
    type V = SocketInfoView;

    open spec fn view(&self) -> SocketInfoView {
        SocketInfoView {
            protocol_socket_info: self.protocol_socket_info,
            associated_pids: self.associated_pids@,
        }
    }
}

impl DeepView for SocketInfo {
    type V = SocketInfoView;

    open spec fn deep_view(&self) -> SocketInfoView {
        self.view()
    }
}

impl SocketInfoView {
    /// The address the socket is bound to.
    pub open spec fn local_addr(self) -> IpAddress {
        match self.protocol_socket_info {
            ProtocolSocketInfo::Tcp(tcp) => tcp.local_addr,
            ProtocolSocketInfo::Udp(udp) => udp.local_addr,
        }
    }

    /// The port the socket is bound to.
    pub open spec fn local_port(self) -> u16 {
        match self.protocol_socket_info {
            ProtocolSocketInfo::Tcp(tcp) => tcp.local_port,
            ProtocolSocketInfo::Udp(udp) => udp.local_port,
        }
    }

    /// The socket is a TCP socket.
    pub open spec fn is_tcp(self) -> bool {
        self.protocol_socket_info is Tcp
    }

    /// The socket is a UDP socket.
    pub open spec fn is_udp(self) -> bool {
        self.protocol_socket_info is Udp
    }
}

/// One process of the process table.
#[derive(Clone, Debug, PartialEq, Eq)]
pub struct ProcessEntry {
    pub pid: u32,
    pub name: String,
}

/// What a `ProcessEntry` holds, with its name as a sequence of characters.
pub struct ProcessEntryView {
    pub pid: u32,
    pub name: Seq<char>,
}

impl View for ProcessEntry {
    type V = ProcessEntryView;

    open spec fn view(&self) -> ProcessEntryView {
        ProcessEntryView { pid: self.pid, name: self.name@ }
    }
}

impl DeepView for ProcessEntry {
    type V = ProcessEntryView;

    open spec fn deep_view(&self) -> ProcessEntryView {
        self.view()
    }
}

} // verus!
