use socket_inventory::address::IpAddress;
use socket_inventory::netstat::fetch_process_info_list;
use socket_inventory::process_info::{AddressPort, ProcessInfo};
use socket_inventory::socket::{
    ProcessEntry, ProtocolSocketInfo, SocketInfo, TcpSocketInfo, UdpSocketInfo,
};
use socket_inventory::tcp_state::TcpState;

#[test]
fn established_tcp_socket_with_known_owner() {
    let sockets = vec![SocketInfo {
        protocol_socket_info: ProtocolSocketInfo::Tcp(TcpSocketInfo {
            local_addr: IpAddress::V4([127, 0, 0, 1]),
            local_port: 8080,
            remote_addr: IpAddress::V4([10, 0, 0, 5]),
            remote_port: 54321,
            state: TcpState::Established,
        }),
        associated_pids: vec![42],
    }];
    let processes = vec![ProcessEntry { pid: 42, name: "server".to_string() }];
    let records = fetch_process_info_list(Ok(sockets), &processes).unwrap();
    assert_eq!(
        records,
        vec![ProcessInfo {
            protocol: "tcp".to_string(),
            local: AddressPort { address: Some("127.0.0.1".to_string()), port: Some(8080) },
            remote: AddressPort { address: Some("10.0.0.5".to_string()), port: Some(54321) },
            state: "ESTABLISHED".to_string(),
            pid: 42,
            process_name: "server".to_string(),
        }]
    );
}

#[test]
fn wildcard_udp_socket_without_owner() {
    let sockets = vec![SocketInfo {
        protocol_socket_info: ProtocolSocketInfo::Udp(UdpSocketInfo {
            local_addr: IpAddress::V4([0, 0, 0, 0]),
            local_port: 53,
        }),
        associated_pids: vec![],
    }];
    let processes = vec![ProcessEntry { pid: 42, name: "server".to_string() }];
    let records = fetch_process_info_list(Ok(sockets), &processes).unwrap();
    assert_eq!(
        records,
        vec![ProcessInfo {
            protocol: "udp".to_string(),
            local: AddressPort { address: None, port: Some(53) },
            remote: AddressPort { address: None, port: None },
            state: String::new(),
            pid: 0,
            process_name: String::new(),
        }]
    );
}

#[test]
fn failed_enumeration_gives_the_error_and_no_records() {
    let processes = vec![ProcessEntry { pid: 42, name: "server".to_string() }];
    let result = fetch_process_info_list(Err("permission denied".to_string()), &processes);
    assert_eq!(result, Err("Failed to get sockets: permission denied".to_string()));
}
