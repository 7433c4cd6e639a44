//! The calls that the native queue library offers, written as plain values.
//!
//! This crate decides which call is to be made and with which arguments; the
//! program around it makes the call and hands the answer back.

use vstd::prelude::*;

verus! {

/// One call into the native queue library.
///
/// A handle is the address that the native library gave out; zero is its
/// null handle.
#[derive(Clone, Copy, Debug, PartialEq, Eq)]
pub enum NativeCall {
    /// Release the connection `handle`.
    Close { handle: usize },
    /// Bind the connection `handle` to the protocol family `family`.
    BindPf { handle: usize, family: u16 },
    /// Unbind the connection `handle` from the protocol family `family`.
    UnbindPf { handle: usize, family: u16 },
    /// Ask for the file descriptor of the connection `handle`.
    Fd { handle: usize },
    /// Create the queue `number` on the connection `handle`.
    CreateQueue { handle: usize, number: u16 },
    /// Tear down the queue `queue`.
    DestroyQueue { queue: usize },
    /// Have the kernel copy up to `range` bytes of each packet of `queue`,
    /// as the mode with code `mode` says.
    SetMode { queue: usize, mode: u8, range: u32 },
    /// Let the kernel hold at most `maxlen` packets of `queue`.
    SetQueueMaxlen { queue: usize, maxlen: u32 },
    /// Parse the first `length` bytes of the receive buffer for the
    /// connection `handle`.
    HandlePacket { handle: usize, length: i32 },
    /// Submit the verdict with code `verdict` for the packet `id` of `queue`.
    SetVerdict { queue: usize, id: u32, verdict: u32 },
}

} // verus!
