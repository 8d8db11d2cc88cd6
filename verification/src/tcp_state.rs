//! The connection states of a TCP socket and their display names.

use vstd::prelude::*;

verus! {

/// The state of a TCP connection, as the socket table reports it.
#[derive(Clone, Copy, Debug, PartialEq, Eq, Structural)]
pub enum TcpState {
    Closed,
    Listen,
    SynSent,
    SynReceived,
    Established,
    FinWait1,
    FinWait2,
    CloseWait,
    Closing,
    LastAck,
    TimeWait,
    DeleteTcb,
    Unknown,
}

/// The display name of a state, as a sequence of characters.
pub open spec fn tcp_state_name(state: TcpState) -> Seq<char> {
    match state {
        TcpState::Closed => "CLOSED"@,
        TcpState::Listen => "LISTEN"@,
        TcpState::SynSent => "SYN_SENT"@,
        TcpState::SynReceived => "SYN_RECEIVED"@,
        TcpState::Established => "ESTABLISHED"@,
        TcpState::FinWait1 => "FIN_WAIT_1"@,
        TcpState::FinWait2 => "FIN_WAIT_2"@,
        TcpState::CloseWait => "CLOSE_WAIT"@,
        TcpState::Closing => "CLOSING"@,
        TcpState::LastAck => "LAST_ACK"@,
        TcpState::TimeWait => "TIME_WAIT"@,
        TcpState::DeleteTcb => "DELETE_TCB"@,
        TcpState::Unknown => "UNKNOWN"@,
    }
}

/// The display names of the states: a fixed vocabulary of thirteen words.
pub open spec fn state_vocabulary() -> Seq<Seq<char>> {
    seq![
        "CLOSED"@,
        "LISTEN"@,
        "SYN_SENT"@,
        "SYN_RECEIVED"@,
        "ESTABLISHED"@,
        "FIN_WAIT_1"@,
        "FIN_WAIT_2"@,
        "CLOSE_WAIT"@,
        "CLOSING"@,
        "LAST_ACK"@,
        "TIME_WAIT"@,
        "DELETE_TCB"@,
        "UNKNOWN"@,
    ]
}

/// `text` is the display name of one of the states.
pub open spec fn is_state_name(text: Seq<char>) -> bool {
    state_vocabulary().contains(text)
}

/// Every state has a display name of the vocabulary, no two states share one,
/// and a state that the socket table could not tell is shown as `UNKNOWN`.
pub proof fn lemma_state_names(state: TcpState, other: TcpState)
    ensures
        state_vocabulary().len() == 13,
        is_state_name(tcp_state_name(state)),
        tcp_state_name(state) == tcp_state_name(other) ==> state == other,
        tcp_state_name(TcpState::Unknown) == "UNKNOWN"@,
{
    reveal_strlit("CLOSED");
    reveal_strlit("LISTEN");
    reveal_strlit("SYN_SENT");
    reveal_strlit("SYN_RECEIVED");
    reveal_strlit("ESTABLISHED");
    reveal_strlit("FIN_WAIT_1");
    reveal_strlit("FIN_WAIT_2");
    reveal_strlit("CLOSE_WAIT");
    reveal_strlit("CLOSING");
    reveal_strlit("LAST_ACK");
    reveal_strlit("TIME_WAIT");
    reveal_strlit("DELETE_TCB");
    reveal_strlit("UNKNOWN");
    let words = state_vocabulary();
    match state {
        TcpState::Closed => assert(words[0] == tcp_state_name(state)),
        TcpState::Listen => assert(words[1] == tcp_state_name(state)),
        TcpState::SynSent => assert(words[2] == tcp_state_name(state)),
        TcpState::SynReceived => assert(words[3] == tcp_state_name(state)),
        TcpState::Established => assert(words[4] == tcp_state_name(state)),
        TcpState::FinWait1 => assert(words[5] == tcp_state_name(state)),
        TcpState::FinWait2 => assert(words[6] == tcp_state_name(state)),
        TcpState::CloseWait => assert(words[7] == tcp_state_name(state)),
        TcpState::Closing => assert(words[8] == tcp_state_name(state)),
        TcpState::LastAck => assert(words[9] == tcp_state_name(state)),
        TcpState::TimeWait => assert(words[10] == tcp_state_name(state)),
        TcpState::DeleteTcb => assert(words[11] == tcp_state_name(state)),
        TcpState::Unknown => assert(words[12] == tcp_state_name(state)),
    }
    if tcp_state_name(state) == tcp_state_name(other) {
        let a = tcp_state_name(state);
        let b = tcp_state_name(other);
        assert(a.len() == b.len());
        assert(a[0] == b[0]);
        assert(a[1] == b[1]);
        assert(a[2] == b[2]);
        assert(a[5] == b[5]);
        assert(a[a.len() - 1] == b[b.len() - 1]);
    }
}

/// Gives the display name of a TCP state.
pub fn tcp_state_to_string(state: &TcpState) -> (name: &'static str)
    ensures
        name@ == tcp_state_name(*state),
{
    match state {
        TcpState::Closed => "CLOSED",
        TcpState::Listen => "LISTEN",
        TcpState::SynSent => "SYN_SENT",
        TcpState::SynReceived => "SYN_RECEIVED",
        TcpState::Established => "ESTABLISHED",
        TcpState::FinWait1 => "FIN_WAIT_1",
        TcpState::FinWait2 => "FIN_WAIT_2",
        TcpState::CloseWait => "CLOSE_WAIT",
        TcpState::Closing => "CLOSING",
        TcpState::LastAck => "LAST_ACK",
        TcpState::TimeWait => "TIME_WAIT",
        TcpState::DeleteTcb => "DELETE_TCB",
        TcpState::Unknown => "UNKNOWN",
    }
}

} // verus!
