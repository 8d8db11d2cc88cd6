//! What holds of every inventory, whatever the two tables held.

use vstd::prelude::*;
use crate::address::{lemma_text_is_not_empty, normalized};
use crate::netstat::{inventory, process_index, record_of};
use crate::process_info::ProcessInfoView;
use crate::socket::{ProcessEntryView, ProtocolSocketInfo, SocketInfoView};
use crate::tcp_state::lemma_state_names;

verus! {

/// The inventory holds one record for each socket, in the order of the
/// sockets.
pub proof fn lemma_one_record_per_socket(sockets: Seq<SocketInfoView>, index: Map<u32, Seq<char>>)
    ensures
        inventory(sockets, index).len() == sockets.len(),
        forall|i: int|
            0 <= i < sockets.len() ==> #[trigger] inventory(sockets, index)[i] == record_of(
                sockets[i],
                index,
            ),
{
}

/// A record shows no local address where the socket is bound to the wildcard
/// address of its family, and the text of the address where it is bound to
/// any other. The same holds of the remote address of a TCP socket.
pub proof fn lemma_wildcard_is_absent(socket: SocketInfoView, index: Map<u32, Seq<char>>)
    ensures
        socket.local_addr().is_unspecified() ==> record_of(socket, index).local.address is None,
        !socket.local_addr().is_unspecified() ==> record_of(socket, index).local.address == Some(
            socket.local_addr().text(),
        ),
        socket.protocol_socket_info matches ProtocolSocketInfo::Tcp(tcp) ==> record_of(
            socket,
            index,
        ).remote.address == normalized(tcp.remote_addr),
{
}

/// The protocol label ends in `6` if and only if the local address is an IPv6
/// address.
pub proof fn lemma_protocol_follows_local_family(socket: SocketInfoView, index: Map<u32, Seq<char>>)
    ensures
        socket.local_addr().is_v6() <==> (record_of(socket, index).protocol == "tcp6"@ || record_of(
            socket,
            index,
        ).protocol == "udp6"@),
        !socket.local_addr().is_v6() <==> (record_of(socket, index).protocol == "tcp"@ || record_of(
            socket,
            index,
        ).protocol == "udp"@),
        socket.is_tcp() <==> record_of(socket, index).is_tcp(),
        socket.is_udp() <==> record_of(socket, index).is_udp(),
{
    reveal_strlit("tcp");
    reveal_strlit("tcp6");
    reveal_strlit("udp");
    reveal_strlit("udp6");
    let label = record_of(socket, index).protocol;
    assert(label.len() == 3 || label.len() == 4);
    assert(label[0] == 't' || label[0] == 'u');
}

/// The remote address plays no part in the protocol label: two sockets of one
/// transport with one local address have one label.
pub proof fn lemma_protocol_ignores_remote(
    first: SocketInfoView,
    second: SocketInfoView,
    index: Map<u32, Seq<char>>,
)
    requires
        first.is_tcp() == second.is_tcp(),
        first.local_addr() == second.local_addr(),
    ensures
        record_of(first, index).protocol == record_of(second, index).protocol,
{
}

/// The record of a UDP socket has no remote address and no remote port, and
/// its state is empty.
pub proof fn lemma_udp_has_no_remote(socket: SocketInfoView, index: Map<u32, Seq<char>>)
    requires
        socket.is_udp(),
    ensures
        record_of(socket, index).remote.address is None,
        record_of(socket, index).remote.port is None,
        record_of(socket, index).state == Seq::<char>::empty(),
{
}

/// A socket for which the socket table lists no process gets the process
/// identifier 0. Its name is empty, unless the process table itself holds a
/// process 0: the name is then looked up like any other.
pub proof fn lemma_socket_without_owner(socket: SocketInfoView, index: Map<u32, Seq<char>>)
    requires
        socket.associated_pids.len() == 0,
    ensures
        record_of(socket, index).pid == 0,
        !index.contains_key(0) ==> record_of(socket, index).process_name == Seq::<char>::empty(),
{
}

/// A socket whose first process the index does not hold gets that process
/// identifier and an empty name.
pub proof fn lemma_owner_missing_from_index(socket: SocketInfoView, index: Map<u32, Seq<char>>)
    requires
        socket.associated_pids.len() > 0,
        !index.contains_key(socket.associated_pids[0]),
    ensures
        record_of(socket, index).pid == socket.associated_pids[0],
        record_of(socket, index).process_name == Seq::<char>::empty(),
{
}

/// A socket whose first process the index holds gets that process identifier
/// and the name that the index holds for it.
pub proof fn lemma_owner_in_index(socket: SocketInfoView, index: Map<u32, Seq<char>>)
    requires
        socket.associated_pids.len() > 0,
        index.contains_key(socket.associated_pids[0]),
    ensures
        record_of(socket, index).pid == socket.associated_pids[0],
        record_of(socket, index).process_name == index[socket.associated_pids[0]],
{
}

/// Every record of an inventory is well formed.
pub proof fn lemma_record_is_well_formed(socket: SocketInfoView, index: Map<u32, Seq<char>>)
    ensures
        record_of(socket, index).is_well_formed(),
{
    lemma_protocol_follows_local_family(socket, index);
    lemma_text_is_not_empty(socket.local_addr());
    match socket.protocol_socket_info {
        ProtocolSocketInfo::Tcp(tcp) => {
            lemma_text_is_not_empty(tcp.remote_addr);
            lemma_state_names(tcp.state, tcp.state);
        },
        ProtocolSocketInfo::Udp(udp) => {},
    }
}

/// The process table holds no two entries with one process identifier and
/// different names.
pub open spec fn names_agree(entries: Seq<ProcessEntryView>) -> bool {
    forall|i: int, j: int|
        0 <= i < entries.len() && 0 <= j < entries.len() && (#[trigger] entries[i]).pid == (
        #[trigger] entries[j]).pid ==> entries[i].name == entries[j].name
}

/// The index holds exactly the processes that the table names.
pub proof fn lemma_index_holds_the_table(entries: Seq<ProcessEntryView>, pid: u32)
    ensures
        process_index(entries).contains_key(pid) <==> exists|i: int|
            0 <= i < entries.len() && (#[trigger] entries[i]).pid == pid,
    decreases entries.len(),
{
    if entries.len() > 0 {
        let earlier = entries.drop_last();
        let last = entries.len() - 1;
        lemma_index_holds_the_table(earlier, pid);
        if entries[last].pid == pid {
        } else if process_index(entries).contains_key(pid) {
            let i = choose|i: int| 0 <= i < earlier.len() && (#[trigger] earlier[i]).pid == pid;
            assert(entries[i].pid == pid);
        } else if exists|i: int| 0 <= i < entries.len() && (#[trigger] entries[i]).pid == pid {
            let i = choose|i: int| 0 <= i < entries.len() && (#[trigger] entries[i]).pid == pid;
            assert(earlier[i].pid == pid);
        }
    }
}

/// Of the entries with one process identifier the last one wins: the index
/// holds its name.
pub proof fn lemma_last_entry_wins(entries: Seq<ProcessEntryView>, i: int)
    requires
        0 <= i < entries.len(),
        forall|j: int| i < j < entries.len() ==> (#[trigger] entries[j]).pid != entries[i].pid,
    ensures
        process_index(entries).contains_key(entries[i].pid),
        process_index(entries)[entries[i].pid] == entries[i].name,
    decreases entries.len(),
{
    let earlier = entries.drop_last();
    let last = entries.len() - 1;
    if i < last {
        assert(entries[last].pid != entries[i].pid);
        assert forall|j: int| i < j < earlier.len() implies (#[trigger] earlier[j]).pid
            != earlier[i].pid by {
            assert(entries[j].pid != entries[i].pid);
        }
        lemma_last_entry_wins(earlier, i);
    }
}

/// Where no process identifier has two names, the index holds for each entry
/// of the table the name of that entry.
pub proof fn lemma_index_of_agreeing_names(entries: Seq<ProcessEntryView>, i: int)
    requires
        names_agree(entries),
        0 <= i < entries.len(),
    ensures
        process_index(entries).contains_key(entries[i].pid),
        process_index(entries)[entries[i].pid] == entries[i].name,
    decreases entries.len(),
{
    let earlier = entries.drop_last();
    let last = entries.len() - 1;
    if i < last && entries[last].pid != entries[i].pid {
        assert(names_agree(earlier)) by {
            assert forall|a: int, b: int|
                0 <= a < earlier.len() && 0 <= b < earlier.len() && (#[trigger] earlier[a]).pid == (
                #[trigger] earlier[b]).pid implies earlier[a].name == earlier[b].name by {
                assert(entries[a].pid == entries[b].pid);
            }
        }
        lemma_index_of_agreeing_names(earlier, i);
    }
}

/// Where no process identifier has two names in one table, none has in a
/// table with the same entries.
proof fn lemma_names_agree_in_equal_tables(
    first: Seq<ProcessEntryView>,
    second: Seq<ProcessEntryView>,
)
    requires
        first.to_set() == second.to_set(),
        names_agree(first),
    ensures
        names_agree(second),
{
    assert forall|i: int, j: int|
        0 <= i < second.len() && 0 <= j < second.len() && (#[trigger] second[i]).pid == (
        #[trigger] second[j]).pid implies second[i].name == second[j].name by {
        assert(second.to_set().contains(second[i]));
        assert(second.to_set().contains(second[j]));
        assert(first.contains(second[i]));
        assert(first.contains(second[j]));
    }
}

/// What the index of one table holds for a process, the index of a table with
/// the same entries holds too.
proof fn lemma_index_of_contained_table(
    first: Seq<ProcessEntryView>,
    second: Seq<ProcessEntryView>,
    pid: u32,
)
    requires
        first.to_set() == second.to_set(),
        names_agree(first),
        process_index(first).contains_key(pid),
    ensures
        process_index(second).contains_key(pid),
        process_index(second)[pid] == process_index(first)[pid],
{
    lemma_names_agree_in_equal_tables(first, second);
    lemma_index_holds_the_table(first, pid);
    let i = choose|i: int| 0 <= i < first.len() && (#[trigger] first[i]).pid == pid;
    lemma_index_of_agreeing_names(first, i);
    assert(first.to_set().contains(first[i]));
    assert(second.contains(first[i]));
    let j = choose|j: int| 0 <= j < second.len() && second[j] == first[i];
    lemma_index_of_agreeing_names(second, j);
}

/// The order of the process table does not matter where no process
/// identifier has two names: two tables with the same entries have the same
/// index.
pub proof fn lemma_index_ignores_order(first: Seq<ProcessEntryView>, second: Seq<ProcessEntryView>)
    requires
        first.to_set() == second.to_set(),
        names_agree(first),
    ensures
        process_index(first) == process_index(second),
{
    lemma_names_agree_in_equal_tables(first, second);
    let one = process_index(first);
    let other = process_index(second);
    assert forall|pid: u32| #[trigger] one.dom().contains(pid) == other.dom().contains(pid) by {
        if one.contains_key(pid) {
            lemma_index_of_contained_table(first, second, pid);
        }
        if other.contains_key(pid) {
            lemma_index_of_contained_table(second, first, pid);
        }
    }
    assert forall|pid: u32| one.dom().contains(pid) implies #[trigger] one[pid] == other[pid] by {
        lemma_index_of_contained_table(first, second, pid);
    }
    assert(one.dom() =~= other.dom());
    assert(one =~= other);
}

/// The order of the socket table does not matter: two tables with the same
/// sockets give the same records.
pub proof fn lemma_inventory_ignores_order(
    first: Seq<SocketInfoView>,
    second: Seq<SocketInfoView>,
    index: Map<u32, Seq<char>>,
)
    requires
        first.to_set() == second.to_set(),
    ensures
        inventory(first, index).to_set() == inventory(second, index).to_set(),
{
    lemma_records_of_contained_sockets(first, second, index);
    lemma_records_of_contained_sockets(second, first, index);
    assert(inventory(first, index).to_set() =~= inventory(second, index).to_set());
}

/// Where every socket of one table is in another, every record of the one
/// inventory is in the other.
proof fn lemma_records_of_contained_sockets(
    first: Seq<SocketInfoView>,
    second: Seq<SocketInfoView>,
    index: Map<u32, Seq<char>>,
)
    requires
        first.to_set().subset_of(second.to_set()),
    ensures
        inventory(first, index).to_set().subset_of(inventory(second, index).to_set()),
{
    assert forall|record: ProcessInfoView|
        inventory(first, index).to_set().contains(record) implies inventory(
        second,
        index,
    ).to_set().contains(record) by {
        let i = choose|i: int|
            0 <= i < inventory(first, index).len() && inventory(first, index)[i] == record;
        assert(first.to_set().contains(first[i]));
        assert(second.contains(first[i]));
        let j = choose|j: int| 0 <= j < second.len() && second[j] == first[i];
        assert(inventory(second, index)[j] == record);
    }
}

/// Two readings of unchanged tables give the same records, in whatever order
/// each table came, as long as no process identifier has two names.
pub proof fn lemma_unchanged_tables_give_the_same_records(
    first_sockets: Seq<SocketInfoView>,
    first_processes: Seq<ProcessEntryView>,
    second_sockets: Seq<SocketInfoView>,
    second_processes: Seq<ProcessEntryView>,
)
    requires
        first_sockets.to_set() == second_sockets.to_set(),
        first_processes.to_set() == second_processes.to_set(),
        names_agree(first_processes),
    ensures
        inventory(first_sockets, process_index(first_processes)).to_set() == inventory(
            second_sockets,
            process_index(second_processes),
        ).to_set(),
        first_sockets == second_sockets ==> inventory(
            first_sockets,
            process_index(first_processes),
        ) == inventory(second_sockets, process_index(second_processes)),
{
    lemma_index_ignores_order(first_processes, second_processes);
    lemma_inventory_ignores_order(first_sockets, second_sockets, process_index(first_processes));
}

} // verus!
