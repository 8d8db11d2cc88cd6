use socket_inventory::address::IpAddress;
use socket_inventory::netstat::{
    build_inventory, build_record, enumeration_error, fetch_process_info_list, ProcessIndex,
};
use socket_inventory::process_info::{AddressPort, ProcessInfo};
use socket_inventory::socket::{
    ProcessEntry, ProtocolSocketInfo, SocketInfo, TcpSocketInfo, UdpSocketInfo,
};
use socket_inventory::tcp_state::{tcp_state_to_string, TcpState};

fn tcp(
    local: IpAddress,
    local_port: u16,
    remote: IpAddress,
    remote_port: u16,
    state: TcpState,
    pids: Vec<u32>,
) -> SocketInfo {
    SocketInfo {
        protocol_socket_info: ProtocolSocketInfo::Tcp(TcpSocketInfo {
            local_addr: local,
            local_port,
            remote_addr: remote,
            remote_port,
            state,
        }),
        associated_pids: pids,
    }
}

fn udp(local: IpAddress, local_port: u16, pids: Vec<u32>) -> SocketInfo {
    SocketInfo {
        protocol_socket_info: ProtocolSocketInfo::Udp(UdpSocketInfo {
            local_addr: local,
            local_port,
        }),
        associated_pids: pids,
    }
}

fn entry(pid: u32, name: &str) -> ProcessEntry {
    ProcessEntry { pid, name: name.to_string() }
}

fn index_of(entries: &[(u32, &str)]) -> ProcessIndex {
    let table: Vec<ProcessEntry> = entries.iter().map(|(pid, name)| entry(*pid, name)).collect();
    ProcessIndex::from_entries(&table)
}

const ALL_STATES: [TcpState; 13] = [
    TcpState::Closed,
    TcpState::Listen,
    TcpState::SynSent,
    TcpState::SynReceived,
    TcpState::Established,
    TcpState::FinWait1,
    TcpState::FinWait2,
    TcpState::CloseWait,
    TcpState::Closing,
    TcpState::LastAck,
    TcpState::TimeWait,
    TcpState::DeleteTcb,
    TcpState::Unknown,
];

#[test]
fn every_tcp_state_has_its_display_name() {
    assert_eq!(tcp_state_to_string(&TcpState::Closed), "CLOSED");
    assert_eq!(tcp_state_to_string(&TcpState::Listen), "LISTEN");
    assert_eq!(tcp_state_to_string(&TcpState::SynSent), "SYN_SENT");
    assert_eq!(tcp_state_to_string(&TcpState::SynReceived), "SYN_RECEIVED");
    assert_eq!(tcp_state_to_string(&TcpState::Established), "ESTABLISHED");
    assert_eq!(tcp_state_to_string(&TcpState::FinWait1), "FIN_WAIT_1");
    assert_eq!(tcp_state_to_string(&TcpState::FinWait2), "FIN_WAIT_2");
    assert_eq!(tcp_state_to_string(&TcpState::CloseWait), "CLOSE_WAIT");
    assert_eq!(tcp_state_to_string(&TcpState::Closing), "CLOSING");
    assert_eq!(tcp_state_to_string(&TcpState::LastAck), "LAST_ACK");
    assert_eq!(tcp_state_to_string(&TcpState::TimeWait), "TIME_WAIT");
    assert_eq!(tcp_state_to_string(&TcpState::DeleteTcb), "DELETE_TCB");
    assert_eq!(tcp_state_to_string(&TcpState::Unknown), "UNKNOWN");
}

#[test]
fn no_two_tcp_states_share_a_display_name() {
    for (i, a) in ALL_STATES.iter().enumerate() {
        for (j, b) in ALL_STATES.iter().enumerate() {
            assert_eq!(tcp_state_to_string(a) == tcp_state_to_string(b), i == j);
        }
    }
}

#[test]
fn record_shows_the_state_of_a_tcp_socket() {
    let index = ProcessIndex::new();
    for state in ALL_STATES {
        let socket = tcp(
            IpAddress::V4([10, 1, 2, 3]),
            443,
            IpAddress::V4([10, 1, 2, 4]),
            50000,
            state,
            vec![1],
        );
        let record = build_record(&socket, &index);
        assert_eq!(record.state, tcp_state_to_string(&state));
    }
}

#[test]
fn local_wildcard_address_is_absent_from_the_record() {
    let index = ProcessIndex::new();
    let listening = tcp(
        IpAddress::V4([0, 0, 0, 0]),
        22,
        IpAddress::V4([0, 0, 0, 0]),
        0,
        TcpState::Listen,
        vec![900],
    );
    let record = build_record(&listening, &index);
    assert_eq!(record.local, AddressPort { address: None, port: Some(22) });
    assert_eq!(record.remote, AddressPort { address: None, port: Some(0) });
    assert_eq!(record.state, "LISTEN");

    let listening6 = tcp(
        IpAddress::V6([0; 8]),
        22,
        IpAddress::V6([0; 8]),
        0,
        TcpState::Listen,
        vec![900],
    );
    let record = build_record(&listening6, &index);
    assert_eq!(record.protocol, "tcp6");
    assert_eq!(record.local, AddressPort { address: None, port: Some(22) });
    assert_eq!(record.remote, AddressPort { address: None, port: Some(0) });

    let bound = udp(IpAddress::V6([0; 8]), 5353, vec![]);
    let record = build_record(&bound, &index);
    assert_eq!(record.local, AddressPort { address: None, port: Some(5353) });
}

#[test]
fn concrete_address_is_shown_as_text_in_the_record() {
    let index = ProcessIndex::new();
    let socket = tcp(
        IpAddress::V6([0xfe80, 0, 0, 0, 0, 0, 0, 1]),
        8443,
        IpAddress::V6([0x2001, 0xdb8, 0, 0, 0, 0, 0, 0x99]),
        65535,
        TcpState::Established,
        vec![5],
    );
    let record = build_record(&socket, &index);
    assert_eq!(record.local, AddressPort { address: Some("fe80::1".to_string()), port: Some(8443) });
    assert_eq!(
        record.remote,
        AddressPort { address: Some("2001:db8::99".to_string()), port: Some(65535) }
    );

    let socket = udp(IpAddress::V4([192, 168, 0, 17]), 68, vec![5]);
    let record = build_record(&socket, &index);
    assert_eq!(
        record.local,
        AddressPort { address: Some("192.168.0.17".to_string()), port: Some(68) }
    );
}

#[test]
fn protocol_label_follows_the_family_of_the_local_address() {
    let index = ProcessIndex::new();
    let v4 = IpAddress::V4([127, 0, 0, 1]);
    let v6 = IpAddress::V6([0, 0, 0, 0, 0, 0, 0, 1]);
    for (local, remote, expected) in
        [(v4, v4, "tcp"), (v4, v6, "tcp"), (v6, v4, "tcp6"), (v6, v6, "tcp6")]
    {
        let record = build_record(&tcp(local, 1, remote, 2, TcpState::Established, vec![]), &index);
        assert_eq!(record.protocol, expected);
    }
    assert_eq!(build_record(&udp(v4, 1, vec![]), &index).protocol, "udp");
    assert_eq!(build_record(&udp(v6, 1, vec![]), &index).protocol, "udp6");
    let mapped = IpAddress::V6([0, 0, 0, 0, 0, 0xffff, 0x7f00, 1]);
    assert_eq!(build_record(&udp(mapped, 1, vec![]), &index).protocol, "udp6");
}

#[test]
fn udp_record_has_no_remote_end_and_no_state() {
    let index = index_of(&[(7, "resolver")]);
    for local in [
        IpAddress::V4([0, 0, 0, 0]),
        IpAddress::V4([127, 0, 0, 53]),
        IpAddress::V6([0; 8]),
        IpAddress::V6([0xfe80, 0, 0, 0, 0, 0, 0, 2]),
    ] {
        let record = build_record(&udp(local, 53, vec![7]), &index);
        assert_eq!(record.remote, AddressPort { address: None, port: None });
        assert_eq!(record.state, "");
        assert_eq!(record.local.port, Some(53));
        assert_eq!(record.process_name, "resolver");
    }
}

#[test]
fn socket_without_owner_gets_pid_zero_and_no_name() {
    let index = index_of(&[(1, "init"), (42, "server")]);
    let record = build_record(&udp(IpAddress::V4([0, 0, 0, 0]), 53, vec![]), &index);
    assert_eq!(record.pid, 0);
    assert_eq!(record.process_name, "");
    let record = build_record(
        &tcp(
            IpAddress::V4([127, 0, 0, 1]),
            80,
            IpAddress::V4([127, 0, 0, 1]),
            4000,
            TcpState::TimeWait,
            vec![],
        ),
        &index,
    );
    assert_eq!(record.pid, 0);
    assert_eq!(record.process_name, "");
}

#[test]
fn socket_without_owner_is_named_after_process_zero_where_the_table_holds_one() {
    let index = index_of(&[(0, "kernel_task"), (42, "server")]);
    let record = build_record(&udp(IpAddress::V4([0, 0, 0, 0]), 53, vec![]), &index);
    assert_eq!(record.pid, 0);
    assert_eq!(record.process_name, "kernel_task");
}

#[test]
fn owner_missing_from_the_process_table_keeps_its_pid_and_gets_no_name() {
    let index = index_of(&[(1, "init"), (42, "server")]);
    let record = build_record(&udp(IpAddress::V4([10, 0, 0, 1]), 123, vec![4242]), &index);
    assert_eq!(record.pid, 4242);
    assert_eq!(record.process_name, "");
    let record = build_record(&udp(IpAddress::V4([10, 0, 0, 1]), 123, vec![u32::MAX]), &index);
    assert_eq!(record.pid, u32::MAX);
    assert_eq!(record.process_name, "");
}

#[test]
fn first_listed_process_is_the_owner() {
    let index = index_of(&[(10, "parent"), (11, "child")]);
    let record = build_record(&udp(IpAddress::V4([10, 0, 0, 1]), 123, vec![11, 10]), &index);
    assert_eq!(record.pid, 11);
    assert_eq!(record.process_name, "child");
    let record = build_record(&udp(IpAddress::V4([10, 0, 0, 1]), 123, vec![10, 11]), &index);
    assert_eq!(record.pid, 10);
    assert_eq!(record.process_name, "parent");
    let record = build_record(&udp(IpAddress::V4([10, 0, 0, 1]), 123, vec![99, 10]), &index);
    assert_eq!(record.pid, 99);
    assert_eq!(record.process_name, "");
}

#[test]
fn later_entry_of_a_repeated_pid_wins() {
    let index = index_of(&[(5, "old"), (6, "other"), (5, "new")]);
    assert_eq!(index.name_of(5), "new");
    assert_eq!(index.name_of(6), "other");
    assert_eq!(index.name_of(7), "");
}

#[test]
fn index_gives_way_to_a_later_insert() {
    let mut index = ProcessIndex::new();
    assert_eq!(index.name_of(1), "");
    index.insert(1, "first".to_string());
    assert_eq!(index.name_of(1), "first");
    index.insert(1, "second".to_string());
    index.insert(2, "third".to_string());
    assert_eq!(index.name_of(1), "second");
    assert_eq!(index.name_of(2), "third");
    assert_eq!(index.name_of(0), "");
}

#[test]
fn empty_socket_table_gives_an_empty_inventory() {
    let processes = vec![entry(1, "init")];
    assert_eq!(fetch_process_info_list(Ok(Vec::new()), &processes), Ok(Vec::new()));
    assert_eq!(fetch_process_info_list(Ok(Vec::new()), &Vec::new()), Ok(Vec::new()));
}

#[test]
fn empty_process_table_leaves_every_name_empty() {
    let sockets = vec![
        udp(IpAddress::V4([0, 0, 0, 0]), 53, vec![7]),
        tcp(
            IpAddress::V4([127, 0, 0, 1]),
            80,
            IpAddress::V4([127, 0, 0, 1]),
            4000,
            TcpState::CloseWait,
            vec![8, 9],
        ),
    ];
    let records = fetch_process_info_list(Ok(sockets), &Vec::new()).unwrap();
    assert_eq!(records.len(), 2);
    assert_eq!(records[0].pid, 7);
    assert_eq!(records[0].process_name, "");
    assert_eq!(records[1].pid, 8);
    assert_eq!(records[1].process_name, "");
    assert_eq!(records[1].state, "CLOSE_WAIT");
}

#[test]
fn inventory_keeps_the_order_of_the_socket_table() {
    let sockets = vec![
        udp(IpAddress::V4([0, 0, 0, 0]), 1, vec![1]),
        udp(IpAddress::V4([0, 0, 0, 0]), 2, vec![2]),
        tcp(
            IpAddress::V6([0; 8]),
            3,
            IpAddress::V6([0; 8]),
            0,
            TcpState::Listen,
            vec![3],
        ),
        udp(IpAddress::V4([0, 0, 0, 0]), 4, vec![1]),
    ];
    let index = index_of(&[(1, "one"), (2, "two"), (3, "three")]);
    let records = build_inventory(&sockets, &index);
    let ports: Vec<Option<u16>> = records.iter().map(|record| record.local.port).collect();
    assert_eq!(ports, vec![Some(1), Some(2), Some(3), Some(4)]);
    let names: Vec<&str> = records.iter().map(|record| record.process_name.as_str()).collect();
    assert_eq!(names, vec!["one", "two", "three", "one"]);
    for (socket, record) in sockets.iter().zip(records.iter()) {
        assert_eq!(&build_record(socket, &index), record);
    }
}

fn sorted(mut records: Vec<ProcessInfo>) -> Vec<String> {
    let mut lines: Vec<String> = records.drain(..).map(|record| format!("{:?}", record)).collect();
    lines.sort();
    lines.dedup();
    lines
}

#[test]
fn unchanged_tables_give_the_same_records_in_any_order() {
    let a = tcp(
        IpAddress::V4([127, 0, 0, 1]),
        8080,
        IpAddress::V4([10, 0, 0, 5]),
        54321,
        TcpState::Established,
        vec![42],
    );
    let b = udp(IpAddress::V4([0, 0, 0, 0]), 53, vec![]);
    let c = tcp(
        IpAddress::V6([0; 8]),
        22,
        IpAddress::V6([0; 8]),
        0,
        TcpState::Listen,
        vec![7, 42],
    );
    let processes = vec![entry(42, "server"), entry(7, "sshd"), entry(1, "init")];
    let shuffled = vec![entry(1, "init"), entry(42, "server"), entry(7, "sshd")];

    let first = fetch_process_info_list(Ok(vec![a.clone(), b.clone(), c.clone()]), &processes);
    let again = fetch_process_info_list(Ok(vec![a.clone(), b.clone(), c.clone()]), &processes);
    assert_eq!(first, again);

    let reordered = fetch_process_info_list(Ok(vec![c, a, b]), &shuffled);
    assert_ne!(first, reordered);
    assert_eq!(sorted(first.unwrap()), sorted(reordered.unwrap()));
}

#[test]
fn enumeration_failure_is_reported_with_its_reason() {
    assert_eq!(enumeration_error("Failed to call ffi"), "Failed to get sockets: Failed to call ffi");
    assert_eq!(enumeration_error(""), "Failed to get sockets: ");
    let sockets: Result<Vec<SocketInfo>, String> = Err("NetLink Error".to_string());
    assert_eq!(
        fetch_process_info_list(sockets, &Vec::new()),
        Err("Failed to get sockets: NetLink Error".to_string())
    );
}
