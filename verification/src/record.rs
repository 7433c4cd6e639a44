//! One packet record, as plain values.
//!
//! The kernel delivers a record of attributes for each queued packet. Which
//! attributes it holds is not fixed: all but the first three may be missing.
//! A missing mark is a mark of zero; of the others a record says outright
//! whether it has them.

use vstd::prelude::*;
use crate::hwaddr::HwAddr;

verus! {

/// The time at which a packet arrived.
#[derive(Clone, Copy, Debug, PartialEq, Eq)]
pub struct Timestamp {
    /// Whole seconds
    pub sec: i64,
    /// Microseconds within the second
    pub usec: i64,
}

/// The attributes of one queued packet.
///
/// The record does not own the packet data: it borrows them from the buffer
/// that the kernel filled.
#[derive(Clone, Copy, Debug)]
pub struct PacketRecord<'a> {
    /// The token by which the kernel knows the packet
    pub id: u32,
    /// The link-layer protocol of the packet
    pub hw_protocol: u16,
    /// The netfilter hook that queued the packet
    pub hook: u8,
    /// The packet mark; zero where the packet has none
    pub mark: u32,
    /// The arrival time, where the kernel recorded it
    pub timestamp: Option<Timestamp>,
    /// The hardware address of the sender, where the link layer has one
    pub hw_addr: Option<HwAddr>,
    /// The packet data, where the kernel copied it
    pub payload: Option<&'a [u8]>,
}

impl<'a> PacketRecord<'a> {
    /// A record with the attributes that every packet has, and no others.
    pub fn new(id: u32, hw_protocol: u16, hook: u8) -> (record: PacketRecord<'a>)
        ensures
            record.id == id,
            record.hw_protocol == hw_protocol,
            record.hook == hook,
            record.mark == 0,
            record.timestamp is None,
            record.hw_addr is None,
            record.payload is None,
    {
        PacketRecord {
            id,
            hw_protocol,
            hook,
            mark: 0,
            timestamp: None,
            hw_addr: None,
            payload: None,
        }
    }
}

} // verus!
