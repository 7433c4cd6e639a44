//! What the kernel is told to do with a queued packet.

use vstd::prelude::*;

verus! {

/// The kernel's number for the verdict `Drop`.
pub const NF_DROP: u32 = 0x0000;

/// The kernel's number for the verdict `Accept`.
pub const NF_ACCEPT: u32 = 0x0001;

/// The kernel's number for the verdict `Queue`.
pub const NF_QUEUE: u32 = 0x0003;

/// The kernel's number for the verdict `Repeat`.
pub const NF_REPEAT: u32 = 0x0004;

/// The kernel's number for the verdict `Stop`.
pub const NF_STOP: u32 = 0x0005;

/// Decision on a packet
#[derive(Clone, Copy, Debug, PartialEq, Eq)]
pub enum Verdict {
    /// Let the packet continue its way
    Accept,
    /// Discard the packet
    Drop,
    /// Hand the packet to a queue once more
    Queue,
    /// Accept, and skip the hooks that would follow
    Stop,
    /// Run the same hook once more
    Repeat,
}

impl Verdict {
    /// The code by which the kernel knows this verdict.
    pub open spec fn spec_code(self) -> u32 {
        match self {
            Verdict::Accept => NF_ACCEPT,
            Verdict::Drop => NF_DROP,
            Verdict::Queue => NF_QUEUE,
            Verdict::Stop => NF_STOP,
            Verdict::Repeat => NF_REPEAT,
        }
    }

    /// The code by which the kernel knows this verdict.
    pub fn code(self) -> (c: u32)
        ensures
            c == self.spec_code(),
    {
        match self {
            Verdict::Accept => NF_ACCEPT,
            Verdict::Drop => NF_DROP,
            Verdict::Queue => NF_QUEUE,
            Verdict::Stop => NF_STOP,
            Verdict::Repeat => NF_REPEAT,
        }
    }
}

} // verus!
