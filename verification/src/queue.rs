//! The queue: its two handles, the registered callback and the caller's state.

use vstd::prelude::*;
use crate::copy_mode::CopyMode;
use crate::message::{Message, MessageView};
use crate::native::NativeCall;
use crate::receive::ReceiveLoop;
use crate::record::PacketRecord;

verus! {

/// Why a connection could not be opened.
#[derive(Clone, Copy, Debug, PartialEq, Eq)]
pub enum OpenError {
    /// The native library gave no handle. Most often the process lacks the
    /// right to administer the network.
    NullHandle,
}

/// What a [`Queue`] stands for.
///
/// A handle is zero while the queue does not hold it.
pub struct QueueView<T, F> {
    /// The handle of the connection
    pub connection: usize,
    /// The handle of the kernel-side queue
    pub queue: usize,
    /// The callback that serves the kernel-side queue, from the request for
    /// the queue until the queue is gone
    pub callback: Option<F>,
    /// The copy mode that the kernel-side queue is set to
    pub copy_mode: CopyMode,
    /// The caller's state
    pub state: T,
}

impl<T, F> QueueView<T, F> {
    /// A queue that holds no handle and no callback.
    pub open spec fn fresh(state: T) -> Self {
        QueueView {
            connection: 0,
            queue: 0,
            callback: None,
            copy_mode: CopyMode::CopyNone,
            state,
        }
    }

    /// Whether a connection is open.
    pub open spec fn is_open(self) -> bool {
        self.connection != 0
    }

    /// Whether a kernel-side queue exists.
    pub open spec fn has_queue(self) -> bool {
        self.queue != 0
    }

    /// Whether a callback is registered.
    pub open spec fn has_callback(self) -> bool {
        self.callback is Some
    }

    /// Whether the native library has been asked for a kernel-side queue and
    /// has not answered yet, or has refused.
    pub open spec fn awaits_queue(self) -> bool {
        self.is_open() && !self.has_queue() && self.has_callback()
    }

    /// After the native library answered a request for a connection with
    /// `handle`: the queue holds the handle, unless it is null.
    pub open spec fn opened(self, handle: usize) -> Self {
        if handle != 0 {
            QueueView { connection: handle, ..self }
        } else {
            self
        }
    }

    /// After the connection was closed: the queue holds no handle, and no
    /// callback.
    pub open spec fn closed(self) -> Self {
        QueueView { connection: 0, queue: 0, callback: None, ..self }
    }

    /// After a kernel-side queue was asked for, with `callback` to serve it:
    /// the callback is registered, unless no connection is open.
    pub open spec fn registered(self, callback: F) -> Self {
        if self.is_open() {
            QueueView { callback: Some(callback), ..self }
        } else {
            self
        }
    }

    /// After the native library answered a request for a kernel-side queue
    /// with `handle`: the queue holds the handle, unless it is null. A new
    /// kernel-side queue copies nothing until it is told to.
    pub open spec fn attached(self, handle: usize) -> Self {
        if handle != 0 {
            QueueView { queue: handle, copy_mode: CopyMode::CopyNone, ..self }
        } else {
            self
        }
    }

    /// After the kernel-side queue was destroyed: the callback that served it
    /// goes with it.
    pub open spec fn detached(self) -> Self {
        QueueView { queue: 0, callback: None, ..self }
    }

    /// After the kernel-side queue was set to `mode`.
    pub open spec fn configured(self, mode: CopyMode) -> Self {
        QueueView { copy_mode: mode, ..self }
    }

    /// After a callback left `state` behind.
    pub open spec fn with_state(self, state: T) -> Self {
        QueueView { state, ..self }
    }

    /// The view that the callback gets of `record`, which the kernel-side
    /// queue `queue` delivered.
    pub open spec fn message<'a>(self, queue: usize, record: PacketRecord<'a>) -> MessageView<'a> {
        MessageView { queue, copy_mode: self.copy_mode, record }
    }
}

impl<T, F: Fn(Message, &mut T) -> i32> QueueView<T, F> {
    /// What holds of every queue: a kernel-side queue exists only on an open
    /// connection and only with a callback to serve it, a callback is
    /// registered only on an open connection, and a registered callback takes
    /// every message and every state.
    pub open spec fn wf(self) -> bool {
        &&& self.has_queue() ==> self.is_open() && self.has_callback()
        &&& self.has_callback() ==> self.is_open()
        &&& self.callback matches Some(callback) ==> forall|msg: Message, state: &mut T| #[trigger]
            call_requires(callback, (msg, state))
    }
}

/// A netfilter queue: the connection to the native library, the kernel-side
/// queue on it, the callback that serves the queue, and the state that the
/// callback works on.
pub struct Queue<T, F> {
    qh: usize,
    qqh: usize,
    cb: Option<F>,
    mode: CopyMode,
    data: T,
}

impl<T, F> View for Queue<T, F> {
    type V = QueueView<T, F>;

    closed spec fn view(&self) -> QueueView<T, F> {
        QueueView {
            connection: self.qh,
            queue: self.qqh,
            callback: self.cb,
            copy_mode: self.mode,
            state: self.data,
        }
    }
}

impl<T: Send, F: Fn(Message, &mut T) -> i32> Queue<T, F> {
    /// What holds of every queue that this module made.
    pub open spec fn wf(&self) -> bool {
        self@.wf()
    }

    /// Creates a new `Queue`, which holds no handle yet.
    pub fn new(data: T) -> (queue: Queue<T, F>)
        ensures
            queue.wf(),
            queue@ == QueueView::<T, F>::fresh(data),
    {
        Queue { qh: 0, qqh: 0, cb: None, mode: CopyMode::CopyNone, data }
    }

    /// Whether a connection is open.
    pub fn is_open(&self) -> (open: bool)
        ensures
            open == self@.is_open(),
    {
        self.qh != 0
    }

    /// Whether a kernel-side queue exists.
    pub fn has_queue(&self) -> (exists: bool)
        ensures
            exists == self@.has_queue(),
    {
        self.qqh != 0
    }

    /// Whether a callback is registered.
    pub fn has_callback(&self) -> (registered: bool)
        ensures
            registered == self@.has_callback(),
    {
        self.cb.is_some()
    }

    /// Whether a kernel-side queue has been asked for and is still to come.
    pub fn awaits_queue(&self) -> (waiting: bool)
        ensures
            waiting == self@.awaits_queue(),
    {
        self.qh != 0 && self.qqh == 0 && self.cb.is_some()
    }

    /// The handle of the connection; zero while none is open.
    pub fn connection_handle(&self) -> (handle: usize)
        ensures
            handle == self@.connection,
    {
        self.qh
    }

    /// The handle of the kernel-side queue; zero while there is none.
    pub fn queue_handle(&self) -> (handle: usize)
        ensures
            handle == self@.queue,
    {
        self.qqh
    }

    /// The copy mode that the kernel-side queue is set to.
    pub fn copy_mode(&self) -> (mode: CopyMode)
        ensures
            mode == self@.copy_mode,
    {
        self.mode
    }

    /// The caller's state.
    pub fn state(&self) -> (state: &T)
        ensures
            *state == self@.state,
    {
        &self.data
    }

    /// Takes the answer of the native library to a request for a connection.
    ///
    /// The queue holds `handle` from now on, until `close`. A null handle is
    /// the native library's way to refuse: the queue is left as it was, and
    /// the refusal is returned. A connection that is open already is not
    /// released by this: it is to be closed before another is opened.
    pub fn open(&mut self, handle: usize) -> (result: Result<(), OpenError>)
        requires
            old(self).wf(),
        ensures
            final(self).wf(),
            final(self)@ == old(self)@.opened(handle),
            handle != 0 ==> result == Ok::<(), OpenError>(()),
            handle == 0 ==> result == Err::<(), OpenError>(OpenError::NullHandle),
    {
        if handle == 0 {
            Err(OpenError::NullHandle)
        } else {
            self.qh = handle;
            Ok(())
        }
    }

    /// Closes the connection.
    ///
    /// Returns the call that releases the connection and what belongs to it.
    /// The queue holds no handle and no callback afterwards, and can be opened
    /// again.
    pub fn close(&mut self) -> (call: NativeCall)
        requires
            old(self).wf(),
            old(self)@.is_open(),
        ensures
            final(self).wf(),
            final(self)@ == old(self)@.closed(),
            !final(self)@.is_open(),
            !final(self)@.has_queue(),
            call == (NativeCall::Close { handle: old(self)@.connection }),
    {
        let handle = self.qh;
        self.cb = None;
        self.qqh = 0;
        self.qh = 0;
        NativeCall::Close { handle }
    }

    /// Binds the connection to a protocol family.
    ///
    /// Returns the call that makes the connection take the packets of the
    /// protocol family `pf` (`AF_INET`, `AF_INET6`, ...). The native library
    /// answers the call with zero where it succeeds.
    pub fn bind(&self, pf: libc::c_ushort) -> (call: NativeCall)
        requires
            self@.is_open(),
        ensures
            call == (NativeCall::BindPf { handle: self@.connection, family: pf }),
    {
        NativeCall::BindPf { handle: self.qh, family: pf }
    }

    /// Unbinds the connection from a protocol family.
    ///
    /// Returns the call that makes the connection give up the packets of the
    /// protocol family `pf`. The native library answers the call with zero
    /// where it succeeds.
    pub fn unbind(&self, pf: libc::c_ushort) -> (call: NativeCall)
        requires
            self@.is_open(),
        ensures
            call == (NativeCall::UnbindPf { handle: self@.connection, family: pf }),
    {
        NativeCall::UnbindPf { handle: self.qh, family: pf }
    }

    /// Returns the call that asks for the file descriptor of the connection:
    /// the descriptor that the receive loop reads from.
    pub fn fd(&self) -> (call: NativeCall)
        requires
            self@.is_open(),
        ensures
            call == (NativeCall::Fd { handle: self@.connection }),
    {
        NativeCall::Fd { handle: self.qh }
    }

    /// Asks for the kernel-side queue `num`, with `cb` to be called for each
    /// packet that the kernel puts into it.
    ///
    /// On an open connection the callback is registered, and the call that
    /// creates the kernel-side queue is returned; `attach_queue` takes its
    /// answer. Without an open connection nothing is registered and nothing is
    /// returned.
    pub fn create_queue(&mut self, num: u16, cb: F) -> (call: Option<NativeCall>)
        requires
            old(self).wf(),
            !old(self)@.has_queue(),
            forall|msg: Message, state: &mut T| #[trigger] call_requires(cb, (msg, state)),
        ensures
            final(self).wf(),
            final(self)@ == old(self)@.registered(cb),
            old(self)@.is_open() ==> call == Some(
                NativeCall::CreateQueue { handle: old(self)@.connection, number: num },
            ),
            !old(self)@.is_open() ==> call is None,
    {
        if self.qh == 0 {
            return None;
        }
        self.cb = Some(cb);
        Some(NativeCall::CreateQueue { handle: self.qh, number: num })
    }

    /// Takes the answer of the native library to the call that `create_queue`
    /// returned, and says whether the kernel-side queue exists now.
    ///
    /// The queue holds `handle` from now on, until `destroy_queue` or `close`.
    /// A null handle is the native library's way to refuse: no kernel-side
    /// queue exists then.
    pub fn attach_queue(&mut self, handle: usize) -> (created: bool)
        requires
            old(self).wf(),
            old(self)@.awaits_queue(),
        ensures
            final(self).wf(),
            final(self)@ == old(self)@.attached(handle),
            created == (handle != 0),
            created == final(self)@.has_queue(),
    {
        if handle == 0 {
            return false;
        }
        self.qqh = handle;
        self.mode = CopyMode::CopyNone;
        true
    }

    /// Destroys the kernel-side queue.
    ///
    /// Returns the call that tears the kernel-side queue down; no unbinding is
    /// needed besides. The queue holds no queue handle afterwards, and the
    /// callback is forgotten.
    pub fn destroy_queue(&mut self) -> (call: NativeCall)
        requires
            old(self).wf(),
            old(self)@.has_queue(),
        ensures
            final(self).wf(),
            final(self)@ == old(self)@.detached(),
            !final(self)@.has_queue(),
            call == (NativeCall::DestroyQueue { queue: old(self)@.queue }),
    {
        let queue = self.qqh;
        self.cb = None;
        self.qqh = 0;
        NativeCall::DestroyQueue { queue }
    }

    /// Sets the amount of packet data that the kernel copies to userspace.
    ///
    /// Returns the call that sets the kernel-side queue to `mode`, with at
    /// most `range` bytes of each packet. The queue remembers the mode: the
    /// messages that it dispatches hand out packet data only under
    /// [`CopyMode::CopyPacket`].
    pub fn set_mode(&mut self, mode: CopyMode, range: u32) -> (call: NativeCall)
        requires
            old(self).wf(),
            old(self)@.has_queue(),
        ensures
            final(self).wf(),
            final(self)@ == old(self)@.configured(mode),
            call == (NativeCall::SetMode {
                queue: old(self)@.queue,
                mode: mode.spec_code(),
                range,
            }),
    {
        self.mode = mode;
        NativeCall::SetMode { queue: self.qqh, mode: mode.code(), range }
    }

    /// Sets the kernel queue maximum length parameter.
    ///
    /// Returns the call that lets the kernel hold at most `queuelen` packets
    /// for this queue. The kernel drops what arrives beyond that while
    /// userspace does not keep up.
    pub fn set_queue_maxlen(&self, queuelen: u32) -> (call: NativeCall)
        requires
            self@.has_queue(),
        ensures
            call == (NativeCall::SetQueueMaxlen { queue: self@.queue, maxlen: queuelen }),
    {
        NativeCall::SetQueueMaxlen { queue: self.qqh, maxlen: queuelen }
    }

    /// Starts the receive loop on the descriptor `fd` of the connection.
    ///
    /// Returns the loop in its first state, in which it asks for a read. The
    /// loop then goes by [`ReceiveLoop::step`].
    pub fn run_loop(&self, fd: i32) -> (state: ReceiveLoop)
        requires
            self@.is_open(),
            self@.has_queue(),
            self@.has_callback(),
        ensures
            state == ReceiveLoop::start(self@.connection, fd),
            state.spec_action() == (crate::receive::LoopAction::Receive {
                fd,
                capacity: crate::receive::RECV_BUFFER_SIZE,
            }),
    {
        ReceiveLoop::new(self.qh, fd)
    }

    /// Hands one packet record to the registered callback.
    ///
    /// This is what the native library's call for a packet comes to: `queue`
    /// is the handle of the kernel-side queue that it names, `record` holds
    /// the attributes of the packet. The callback gets a view of the record
    /// and the caller's state, and what it returns is returned. Nothing of the
    /// queue changes but the state, and that only as the callback changes it.
    pub fn dispatch(&mut self, queue: usize, record: &PacketRecord) -> (code: i32)
        requires
            old(self).wf(),
            old(self)@.has_callback(),
        ensures
            final(self).wf(),
            final(self)@ == old(self)@.with_state(final(self)@.state),
            exists|msg: Message, state: &mut T|
                msg@ == old(self)@.message(queue, *record) && *state == old(self)@.state && *final(state)
                    == final(self)@.state && #[trigger] call_ensures(
                    old(self)@.callback->0,
                    (msg, state),
                    code,
                ),
    {
        let msg = Message::new(queue, self.mode, record);
        match &self.cb {
            Some(callback) => callback(msg, &mut self.data),
            None => 0,
        }
    }
}

} // verus!
