//! How much of each queued packet the kernel copies to userspace.

use vstd::prelude::*;

verus! {

/// Kernel code for [`CopyMode::CopyNone`].
pub const NFQNL_COPY_NONE: u8 = 0x00;

/// Kernel code for [`CopyMode::CopyMeta`].
pub const NFQNL_COPY_META: u8 = 0x01;

/// Kernel code for [`CopyMode::CopyPacket`].
pub const NFQNL_COPY_PACKET: u8 = 0x02;

/// Copy modes
#[derive(Clone, Copy, Debug, PartialEq, Eq)]
pub enum CopyMode {
    /// Do not copy packet contents nor metadata
    CopyNone,
    /// Copy only packet metadata, not payload
    CopyMeta,
    /// Copy packet metadata and payload
    CopyPacket,
}

impl CopyMode {
    /// The code by which the kernel knows this mode.
    pub open spec fn spec_code(self) -> u8 {
        match self {
            CopyMode::CopyNone => NFQNL_COPY_NONE,
            CopyMode::CopyMeta => NFQNL_COPY_META,
            CopyMode::CopyPacket => NFQNL_COPY_PACKET,
        }
    }

    /// Whether the kernel copies packet data under this mode.
    pub open spec fn spec_copies_payload(self) -> bool {
        self is CopyPacket
    }

    /// The code by which the kernel knows this mode.
    pub fn code(self) -> (c: u8)
        ensures
            c == self.spec_code(),
    {
        match self {
            CopyMode::CopyNone => NFQNL_COPY_NONE,
            CopyMode::CopyMeta => NFQNL_COPY_META,
            CopyMode::CopyPacket => NFQNL_COPY_PACKET,
        }
    }

    /// Whether the kernel copies packet data under this mode.
    pub fn copies_payload(self) -> (b: bool)
        ensures
            b == self.spec_copies_payload(),
    {
        match self {
            CopyMode::CopyPacket => true,
            _ => false,
        }
    }
}

} // verus!
