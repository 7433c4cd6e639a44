//! Netfilter NFQUEUE packet-queue engine.
//!
//! The kernel packet filter can divert packets into a queue and wait for a
//! verdict from userspace. This crate holds the rules of that exchange: the
//! life cycle of the connection and queue handles, the receive loop, the
//! dispatch of one packet record to the registered callback, and the view of a
//! record that the callback reads. It makes no system call itself: every call
//! into the native queue library is handed out as a [`NativeCall`], and every
//! answer is taken as a plain value.

pub mod copy_mode;
pub mod hwaddr;
pub mod lifecycle;
pub mod message;
pub mod native;
pub mod queue;
pub mod receive;
pub mod record;
pub mod text;
pub mod verdict;

pub use copy_mode::CopyMode;
pub use hwaddr::HwAddr;
pub use lifecycle::QueueOp;
pub use message::{Message, MessageView};
pub use native::NativeCall;
pub use queue::{OpenError, Queue, QueueView};
pub use receive::{LoopAction, LoopEvent, LoopPhase, ReceiveLoop, RECV_BUFFER_SIZE};
pub use record::{PacketRecord, Timestamp};
pub use verdict::Verdict;
