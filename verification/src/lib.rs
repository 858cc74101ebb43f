//! The core of an asynchronous runtime for a guest module that lives inside
//! a host: no threads, no clock and no I/O of its own.
//!
//! The crate holds the rules of that runtime and none of its effects. Every
//! function takes the state it works on and returns what is to be done: the
//! bytes to hand to the host, the timeout to ask for, the computation to
//! poll next. Whoever embeds the crate owns the state, talks to the host and
//! polls.
//!
//! - [`wasm`]: the table of response buffers, and the layout of calls to the
//!   host and of their answers.
//! - [`timer`]: the listeners of pending timers, and the timer that a
//!   computation waits on.
//! - [`wasync`]: reference-counted wake capabilities, and the executor that
//!   drives one computation at a time.
//! - [`error_hook`]: the report of a failure to the host's error channel.
//! - [`entry`]: the rewriting of `async fn main` into an entry point that
//!   starts the executor.

pub mod entry;
pub mod error_hook;
pub mod timer;
pub mod wasm;
pub mod wasync;

pub use timer::TimerFuture;
pub use wasm::delete_buffer;
pub use wasm::get_buffer;
pub use wasm::get_buffer_slice;
pub use wasm::get_buffer_slice_as_string;
pub use wasm::get_bytes;
pub use wasm::get_string;
pub use wasm::request_bytes;
pub use wasm::request_string;
pub use wasm::send_bytes;
pub use wasm::BufferTable;
pub use wasm::ChannelError;
pub use wasm::PendingCall;
pub use wasm::PendingTextCall;
pub use wasm::BUFFER_SIZE;

use vstd::prelude::*;
use vstd::string::StringSliceAdditionalSpecFns;

verus! {

/// Lays out a line for the host's log as a call to its log channel.
pub fn log(msg: &str) -> (data: Vec<u8>)
    ensures
        data@ == wasm::message("console_log".spec_bytes(), msg.spec_bytes()),
{
    wasm::send_bytes("console_log", msg.as_bytes())
}

} // verus!
