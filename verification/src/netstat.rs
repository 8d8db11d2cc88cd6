//! The join of the socket table with the process table.
//!
//! Each socket becomes one record. The record names the first process that
//! the socket table lists for the socket, looks its name up in an index of the
//! process table, and shows addresses, protocol and state in display form.

use std::collections::HashMap;
use vstd::prelude::*;
use vstd::string::*;
use crate::address::{is_ipv6, normalize_address, normalized};
use crate::laws::lemma_record_is_well_formed;
use crate::process_info::{AddressPort, AddressPortView, ProcessInfo, ProcessInfoView};
use crate::socket::{
    ProcessEntry,
    ProcessEntryView,
    ProtocolSocketInfo,
    SocketInfo,
    SocketInfoView,
};
use crate::tcp_state::{tcp_state_name, tcp_state_to_string};

verus! {

broadcast use vstd::std_specs::hash::group_hash_axioms;

/// The process that a record names: the first that the socket table lists
/// for the socket, or 0 where it lists none.
pub open spec fn owning_pid(pids: Seq<u32>) -> u32 {
    if pids.len() == 0 {
        0
    } else {
        pids[0]
    }
}

/// The name that the index holds for `pid`, or the empty text where it holds
/// none.
pub open spec fn resolved_name(index: Map<u32, Seq<char>>, pid: u32) -> Seq<char> {
    if index.contains_key(pid) {
        index[pid]
    } else {
        Seq::empty()
    }
}

/// The index of a process table: each entry is entered in turn, so that of
/// two entries with one process identifier the later one stays.
pub open spec fn process_index(entries: Seq<ProcessEntryView>) -> Map<u32, Seq<char>>
    decreases entries.len(),
{
    if entries.len() == 0 {
        Map::empty()
    } else {
        process_index(entries.drop_last()).insert(entries.last().pid, entries.last().name)
    }
}

/// The protocol label of a socket: the transport, and `6` behind it where the
/// local address is an IPv6 address.
pub open spec fn protocol_label(socket: ProtocolSocketInfo) -> Seq<char> {
    match socket {
        ProtocolSocketInfo::Tcp(tcp) => if tcp.local_addr.is_v6() {
            "tcp6"@
        } else {
            "tcp"@
        },
        ProtocolSocketInfo::Udp(udp) => if udp.local_addr.is_v6() {
            "udp6"@
        } else {
            "udp"@
        },
    }
}

/// The record of one socket, given the index of the process table.
pub open spec fn record_of(socket: SocketInfoView, index: Map<u32, Seq<char>>) -> ProcessInfoView {
    let pid = owning_pid(socket.associated_pids);
    match socket.protocol_socket_info {
        ProtocolSocketInfo::Tcp(tcp) => ProcessInfoView {
            protocol: protocol_label(socket.protocol_socket_info),
            local: AddressPortView {
                address: normalized(tcp.local_addr),
                port: Some(tcp.local_port),
            },
            remote: AddressPortView {
                address: normalized(tcp.remote_addr),
                port: Some(tcp.remote_port),
            },
            state: tcp_state_name(tcp.state),
            pid,
            process_name: resolved_name(index, pid),
        },
        ProtocolSocketInfo::Udp(udp) => ProcessInfoView {
            protocol: protocol_label(socket.protocol_socket_info),
            local: AddressPortView {
                address: normalized(udp.local_addr),
                port: Some(udp.local_port),
            },
            remote: AddressPortView { address: None, port: None },
            state: Seq::empty(),
            pid,
            process_name: resolved_name(index, pid),
        },
    }
}

/// The inventory: the record of each socket, in the order of the sockets.
pub open spec fn inventory(sockets: Seq<SocketInfoView>, index: Map<u32, Seq<char>>) -> Seq<
    ProcessInfoView,
> {
    Seq::new(sockets.len(), |i: int| record_of(sockets[i], index))
}

/// The message that reports a socket table that could not be read.
pub open spec fn enumeration_failure(reason: Seq<char>) -> Seq<char> {
    "Failed to get sockets: "@ + reason
}

/// The names of the running processes by process identifier.
pub struct ProcessIndex {
    names: HashMap<u32, String>,
}

impl View for ProcessIndex {
    type V = Map<u32, Seq<char>>;

    closed spec fn view(&self) -> Map<u32, Seq<char>> {
        self.names@.map_values(|name: String| name@)
    }
}

impl ProcessIndex {
    /// An index that holds no process.
    pub fn new() -> (index: ProcessIndex)
        ensures
            index@ == Map::<u32, Seq<char>>::empty(),
    {
        let index = ProcessIndex { names: HashMap::new() };
        assert(index@ =~= Map::<u32, Seq<char>>::empty());
        index
    }

    /// Enters a process; a name entered earlier for `pid` gives way.
    pub fn insert(&mut self, pid: u32, name: String)
        ensures
            final(self)@ == old(self)@.insert(pid, name@),
    {
        self.names.insert(pid, name);
        assert(self@ =~= old(self)@.insert(pid, name@));
    }

    /// Builds the index of a process table.
    pub fn from_entries(entries: &Vec<ProcessEntry>) -> (index: ProcessIndex)
        ensures
            index@ == process_index(entries.deep_view()),
    {
        let mut index = ProcessIndex::new();
        let mut i: usize = 0;
        while i < entries.len()
            invariant
                i <= entries.len(),
                index@ == process_index(entries.deep_view().take(i as int)),
            decreases entries.len() - i,
        {
            let entry = &entries[i];
            index.insert(entry.pid, entry.name.clone());
            proof {
                let upto = entries.deep_view().take(i + 1);
                assert(upto.drop_last() =~= entries.deep_view().take(i as int));
                assert(upto.last() == entry@);
            }
            i += 1;
        }
        assert(entries.deep_view().take(i as int) =~= entries.deep_view());
        index
    }

    /// The name of a process, or the empty text where the index does not
    /// hold the process.
    pub fn name_of(&self, pid: u32) -> (name: String)
        ensures
            name@ == resolved_name(self@, pid),
    {
        match self.names.get(&pid) {
            Some(name) => name.clone(),
            None => String::new(),
        }
    }
}

/// Builds the record of one socket.
pub fn build_record(socket: &SocketInfo, index: &ProcessIndex) -> (record: ProcessInfo)
    ensures
        record@ == record_of(socket@, index@),
        record@.is_well_formed(),
{
    proof {
        lemma_record_is_well_formed(socket@, index@);
    }
    let pid = if socket.associated_pids.len() > 0 {
        socket.associated_pids[0]
    } else {
        0
    };
    let process_name = index.name_of(pid);
    match &socket.protocol_socket_info {
        ProtocolSocketInfo::Tcp(tcp) => {
            let protocol = if is_ipv6(&tcp.local_addr) {
                "tcp6"
            } else {
                "tcp"
            };
            ProcessInfo {
                protocol: protocol.to_owned(),
                local: AddressPort {
                    address: normalize_address(&tcp.local_addr),
                    port: Some(tcp.local_port),
                },
                remote: AddressPort {
                    address: normalize_address(&tcp.remote_addr),
                    port: Some(tcp.remote_port),
                },
                state: tcp_state_to_string(&tcp.state).to_owned(),
                pid,
                process_name,
            }
        },
        ProtocolSocketInfo::Udp(udp) => {
            let protocol = if is_ipv6(&udp.local_addr) {
                "udp6"
            } else {
                "udp"
            };
            ProcessInfo {
                protocol: protocol.to_owned(),
                local: AddressPort {
                    address: normalize_address(&udp.local_addr),
                    port: Some(udp.local_port),
                },
                remote: AddressPort { address: None, port: None },
                state: String::new(),
                pid,
                process_name,
            }
        },
    }
}

/// Builds the inventory of a socket table: one record per socket, in the
/// order of the table.
pub fn build_inventory(sockets: &Vec<SocketInfo>, index: &ProcessIndex) -> (records: Vec<
    ProcessInfo,
>)
    ensures
        records.deep_view() == inventory(sockets.deep_view(), index@),
        forall|i: int| 0 <= i < records.len() ==> (#[trigger] records[i])@.is_well_formed(),
{
    let mut records: Vec<ProcessInfo> = Vec::new();
    let mut i: usize = 0;
    while i < sockets.len()
        invariant
            i <= sockets.len(),
            records.len() == i,
            forall|j: int| 0 <= j < i ==> (#[trigger] records[j])@ == record_of(sockets[j]@, index@),
            forall|j: int| 0 <= j < i ==> (#[trigger] records[j])@.is_well_formed(),
        decreases sockets.len() - i,
    {
        let record = build_record(&sockets[i], index);
        records.push(record);
        i += 1;
    }
    assert(records.deep_view() =~= inventory(sockets.deep_view(), index@));
    records
}

/// Words the failure to read the socket table.
pub fn enumeration_error(reason: &str) -> (message: String)
    ensures
        message@ == enumeration_failure(reason@),
{
    let mut message = "Failed to get sockets: ".to_owned();
    message.append(reason);
    message
}

/// Builds the inventory from what the two tables gave.
///
/// `sockets` is the socket table, or the reason why it could not be read;
/// `processes` is the process table. Where the socket table could not be
/// read, the result is the failure and no record. A process table that could
/// not be read is handed over as an empty one: every name is then empty.
pub fn fetch_process_info_list(
    sockets: Result<Vec<SocketInfo>, String>,
    processes: &Vec<ProcessEntry>,
) -> (result: Result<Vec<ProcessInfo>, String>)
    ensures
        match sockets {
            Ok(found) => result matches Ok(records) && records.deep_view() == inventory(
                found.deep_view(),
                process_index(processes.deep_view()),
            ) && forall|i: int|
                0 <= i < records.len() ==> (#[trigger] records[i])@.is_well_formed(),
            Err(reason) => result matches Err(message) && message@ == enumeration_failure(
                reason@,
            ),
        },
{
    match sockets {
        Ok(found) => {
            let index = ProcessIndex::from_entries(processes);
            Ok(build_inventory(&found, &index))
        },
        Err(reason) => Err(enumeration_error(reason.as_str())),
    }
}

} // verus!
