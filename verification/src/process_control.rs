//! What the commands on a single process answer.

use vstd::prelude::*;
use vstd::string::*;
use crate::text::{append_decimal, decimal_text};

verus! {

/// The message for a process that the process table does not hold.
pub open spec fn not_found_message(pid: u32) -> Seq<char> {
    "Process with PID "@ + decimal_text(pid as nat) + " not found"@
}

/// The message for a process that could not be ended.
pub open spec fn kill_failed_message(pid: u32) -> Seq<char> {
    "Failed to kill process with PID "@ + decimal_text(pid as nat)
}

/// The answer to a request to end the process `pid`.
///
/// `attempt` is `None` where the process table does not hold the process, and
/// otherwise says whether the process could be ended. The answer is `Ok` only
/// where it could.
pub fn kill_process_result(pid: u32, attempt: Option<bool>) -> (result: Result<(), String>)
    ensures
        match attempt {
            Some(true) => result is Ok,
            Some(false) => result matches Err(message) && message@ == kill_failed_message(pid),
            None => result matches Err(message) && message@ == not_found_message(pid),
        },
{
    match attempt {
        Some(true) => Ok(()),
        Some(false) => {
            let mut message = "Failed to kill process with PID ".to_owned();
            append_decimal(&mut message, pid);
            Err(message)
        },
        None => {
            let mut message = "Process with PID ".to_owned();
            append_decimal(&mut message, pid);
            message.append(" not found");
            Err(message)
        },
    }
}

/// The path of the program that a process runs. No path is known for any
/// process, so the answer is always empty.
pub fn get_process_path(_pid: u32) -> (path: String)
    ensures
        path@ == Seq::<char>::empty(),
{
    String::new()
}

} // verus!
