//! Hardware (link-layer) addresses of queued packets.

use vstd::prelude::*;

verus! {

/// The number of bytes that the kernel reserves for a hardware address.
pub const HW_ADDR_CAPACITY: usize = 8;

/// A hardware address: a buffer of fixed size and the number of bytes of it
/// that the address really has.
#[derive(Clone, Copy, Debug)]
pub struct HwAddr {
    len: u16,
    bytes: [u8; 8],
}

impl View for HwAddr {
    type V = Seq<u8>;

    /// The bytes of the address, without the unused rest of the buffer.
    closed spec fn view(&self) -> Seq<u8> {
        self.bytes@.take(self.len as int)
    }
}

impl HwAddr {
    #[verifier::type_invariant]
    spec fn fits(self) -> bool {
        self.len <= HW_ADDR_CAPACITY
    }

    /// The bytes that an address of declared length `len` has in `buffer`.
    pub open spec fn spec_address(len: u16, buffer: [u8; 8]) -> Seq<u8> {
        buffer@.take(len as int)
    }

    /// Makes an address from the buffer and the declared length that the kernel
    /// delivered. There is none where the declared length exceeds the buffer.
    pub fn new(len: u16, buffer: [u8; 8]) -> (addr: Option<HwAddr>)
        ensures
            addr is Some <==> len <= HW_ADDR_CAPACITY,
            addr matches Some(a) ==> a@ == Self::spec_address(len, buffer),
    {
        if len <= 8 {
            Some(HwAddr { len, bytes: buffer })
        } else {
            None
        }
    }

    /// The number of bytes of the address.
    pub fn len(&self) -> (n: usize)
        ensures
            n == self@.len(),
            n <= HW_ADDR_CAPACITY,
    {
        proof {
            use_type_invariant(self);
        }
        self.len as usize
    }

    /// The bytes of the address.
    pub fn as_bytes(&self) -> (bytes: &[u8])
        ensures
            bytes@ == self@,
    {
        proof {
            use_type_invariant(self);
        }
        vstd::slice::slice_subrange(self.bytes.as_slice(), 0, self.len as usize)
    }
}

} // verus!
