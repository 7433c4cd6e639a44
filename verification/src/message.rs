//! The view of one packet record that a callback reads.

use vstd::prelude::*;
use crate::copy_mode::CopyMode;
use crate::hwaddr::HwAddr;
use crate::native::NativeCall;
use crate::record::{PacketRecord, Timestamp};
use crate::text::{
    decimal, hex_colon, push_decimal, push_hex_colon, push_signed_decimal, signed_decimal,
};
use crate::verdict::Verdict;
use vstd::string::StringExecFns;

verus! {

/// What a [`Message`] stands for: a record, the queue that delivered it, and
/// the copy mode that the queue was set to.
pub struct MessageView<'a> {
    /// The handle of the queue that delivered the record
    pub queue: usize,
    /// The copy mode of that queue
    pub copy_mode: CopyMode,
    /// The record
    pub record: PacketRecord<'a>,
}

impl<'a> MessageView<'a> {
    /// The packet data that the view hands out: what the record holds, and
    /// nothing unless the copy mode asks for packet data.
    pub open spec fn payload(self) -> Option<Seq<u8>> {
        if self.copy_mode.spec_copies_payload() {
            match self.record.payload {
                Some(bytes) => Some(bytes@),
                None => None,
            }
        } else {
            None
        }
    }

    /// The packet mark that the view hands out: the mark of the record,
    /// unless it is zero, which is the kernel's way to say that the packet has
    /// no mark.
    pub open spec fn mark(self) -> Option<u32> {
        if self.record.mark != 0 {
            Some(self.record.mark)
        } else {
            None
        }
    }

    /// The mark as text; nothing where the packet has none.
    pub open spec fn mark_text(self) -> Seq<char> {
        match self.mark() {
            Some(mark) => " mark="@ + decimal(mark as nat),
            None => Seq::empty(),
        }
    }

    /// The arrival time as text; nothing where the record has none.
    pub open spec fn time_text(self) -> Seq<char> {
        match self.record.timestamp {
            Some(time) => " sec="@ + signed_decimal(time.sec as int) + " usec="@ + signed_decimal(
                time.usec as int,
            ),
            None => Seq::empty(),
        }
    }

    /// The hardware address as text; nothing where the record has none.
    pub open spec fn hw_text(self) -> Seq<char> {
        match self.record.hw_addr {
            Some(addr) => " hw_addr="@ + hex_colon(addr@),
            None => Seq::empty(),
        }
    }

    /// The length of the packet data as text; nothing where the view hands
    /// out no packet data.
    pub open spec fn payload_text(self) -> Seq<char> {
        match self.payload() {
            Some(bytes) => " payload_len="@ + decimal(bytes.len()),
            None => Seq::empty(),
        }
    }

    /// All that the view hands out, as one line of text: the fields by name,
    /// numbers in base ten, the hardware address in base sixteen, and the
    /// fields that the record lacks left out.
    pub open spec fn text(self) -> Seq<char> {
        "id="@ + decimal(self.record.id as nat) + " hw_protocol="@ + decimal(
            self.record.hw_protocol as nat,
        ) + " hook="@ + decimal(self.record.hook as nat) + self.mark_text() + self.time_text()
            + self.hw_text() + self.payload_text()
    }

    /// The native call that submits `verdict` for the packet of this view.
    pub open spec fn verdict_call(self, verdict: Verdict) -> NativeCall {
        NativeCall::SetVerdict {
            queue: self.queue,
            id: self.record.id,
            verdict: verdict.spec_code(),
        }
    }
}

/// A read-only view of one packet record.
///
/// The view borrows the record and lives no longer than the dispatch of that
/// record. Each accessor reads one attribute and says whether the record has
/// it; none reads more than it is asked for.
pub struct Message<'a> {
    queue: usize,
    copy_mode: CopyMode,
    record: &'a PacketRecord<'a>,
}

impl<'a> View for Message<'a> {
    type V = MessageView<'a>;

    closed spec fn view(&self) -> MessageView<'a> {
        MessageView { queue: self.queue, copy_mode: self.copy_mode, record: *self.record }
    }
}

impl<'a> Message<'a> {
    /// A view of `record`, which the queue `queue` delivered while it was set
    /// to `copy_mode`.
    pub fn new(queue: usize, copy_mode: CopyMode, record: &'a PacketRecord<'a>) -> (msg: Message<'a>)
        ensures
            msg@ == (MessageView { queue, copy_mode, record: *record }),
    {
        Message { queue, copy_mode, record }
    }

    /// The token by which the kernel knows the packet. A verdict names the
    /// packet by it.
    pub fn get_id(&self) -> (id: u32)
        ensures
            id == self@.record.id,
    {
        self.record.id
    }

    /// The link-layer protocol of the packet.
    pub fn get_hw_protocol(&self) -> (protocol: u16)
        ensures
            protocol == self@.record.hw_protocol,
    {
        self.record.hw_protocol
    }

    /// The netfilter hook that queued the packet.
    pub fn get_hook(&self) -> (hook: u8)
        ensures
            hook == self@.record.hook,
    {
        self.record.hook
    }

    /// The packet mark, if the packet has one.
    pub fn get_nfmark(&self) -> (mark: Option<u32>)
        ensures
            mark == self@.mark(),
    {
        if self.record.mark != 0 {
            Some(self.record.mark)
        } else {
            None
        }
    }

    /// The arrival time, if the record has one.
    pub fn get_timestamp(&self) -> (time: Option<Timestamp>)
        ensures
            time == self@.record.timestamp,
    {
        self.record.timestamp
    }

    /// The hardware address of the sender, if the record has one.
    pub fn get_packet_hw(&self) -> (addr: Option<HwAddr>)
        ensures
            addr == self@.record.hw_addr,
    {
        self.record.hw_addr
    }

    /// The packet data. There is none where the copy mode of the queue does
    /// not ask for packet data, or where the record holds none.
    pub fn get_payload(&self) -> (payload: Option<&'a [u8]>)
        ensures
            match payload {
                Some(bytes) => self@.payload() == Some(bytes@),
                None => self@.payload() is None,
            },
    {
        if !self.copy_mode.copies_payload() {
            return None;
        }
        self.record.payload
    }

    /// Appends the mark as text to `out`.
    fn push_mark(&self, out: &mut String)
        ensures
            final(out)@ == old(out)@ + self@.mark_text(),
    {
        match self.get_nfmark() {
            Some(mark) => {
                out.append(" mark=");
                push_decimal(out, mark as u64);
            },
            None => {},
        }
    }

    /// Appends the arrival time as text to `out`.
    fn push_time(&self, out: &mut String)
        ensures
            final(out)@ == old(out)@ + self@.time_text(),
    {
        match self.record.timestamp {
            Some(time) => {
                out.append(" sec=");
                push_signed_decimal(out, time.sec);
                out.append(" usec=");
                push_signed_decimal(out, time.usec);
            },
            None => {},
        }
    }

    /// Appends the hardware address as text to `out`.
    fn push_hw(&self, out: &mut String)
        ensures
            final(out)@ == old(out)@ + self@.hw_text(),
    {
        match &self.record.hw_addr {
            Some(addr) => {
                out.append(" hw_addr=");
                push_hex_colon(out, addr.as_bytes());
            },
            None => {},
        }
    }

    /// Appends the length of the packet data as text to `out`.
    fn push_payload(&self, out: &mut String)
        ensures
            final(out)@ == old(out)@ + self@.payload_text(),
    {
        match self.get_payload() {
            Some(bytes) => {
                out.append(" payload_len=");
                push_decimal(out, bytes.len() as u64);
            },
            None => {},
        }
    }

    /// All that the view hands out, as one line of text, for the eyes of
    /// someone who looks for a fault. It is made when it is asked for.
    pub fn describe(&self) -> (text: String)
        ensures
            text@ == self@.text(),
    {
        let mut out = String::new();
        out.append("id=");
        push_decimal(&mut out, self.record.id as u64);
        out.append(" hw_protocol=");
        push_decimal(&mut out, self.record.hw_protocol as u64);
        out.append(" hook=");
        push_decimal(&mut out, self.record.hook as u64);
        self.push_mark(&mut out);
        self.push_time(&mut out);
        self.push_hw(&mut out);
        self.push_payload(&mut out);
        out
    }

    /// The native call that submits `verdict` for this packet: it names the
    /// queue that delivered the record, the packet's token and the verdict's
    /// code.
    pub fn set_verdict(&self, verdict: Verdict) -> (call: NativeCall)
        ensures
            call == self@.verdict_call(verdict),
    {
        NativeCall::SetVerdict { queue: self.queue, id: self.record.id, verdict: verdict.code() }
    }
}

/// What a view hands out as packet data goes by the copy mode of the queue:
/// under a mode that copies no packet data it hands out none, whatever the
/// record holds; under [`CopyMode::CopyPacket`] it hands out the data that the
/// record holds, so that a record with data gives a byte range that is not
/// empty.
pub proof fn lemma_payload_follows_copy_mode(msg: MessageView)
    ensures
        msg.copy_mode is CopyNone ==> msg.payload() is None,
        msg.copy_mode is CopyMeta ==> msg.payload() is None,
        msg.copy_mode is CopyPacket ==> (msg.payload() is None <==> msg.record.payload is None),
        msg.copy_mode is CopyPacket ==> (msg.record.payload matches Some(bytes) ==> msg.payload()
            == Some(bytes@)),
        msg.copy_mode is CopyPacket && msg.record.payload is Some && msg.record.payload->0@.len() > 0
            ==> msg.payload() is Some && msg.payload()->0.len() > 0,
{
}

} // verus!
