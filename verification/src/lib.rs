//! A point-in-time inventory of the machine's TCP and UDP sockets, each joined
//! with the process that owns it.

pub mod address;
pub mod laws;
pub mod netstat;
pub mod process_control;
pub mod process_info;
pub mod socket;
pub mod tcp_state;
pub mod text;
