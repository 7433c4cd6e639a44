//! The life cycle of a queue, over whole histories.
//!
//! Each operation of [`Queue`](crate::queue::Queue) says in its contract what
//! it does to the queue's view. Here a history is a sequence of operations,
//! and the laws say what holds after any history that the contracts permit.

use vstd::prelude::*;
use crate::copy_mode::CopyMode;
use crate::message::Message;
use crate::queue::QueueView;

verus! {

/// One operation on a queue, with what the outside world answered to it.
pub enum QueueOp<T, F> {
    /// `open`, answered with `handle`
    Open { handle: usize },
    /// `close`
    Close,
    /// `bind`
    Bind { family: u16 },
    /// `unbind`
    Unbind { family: u16 },
    /// `create_queue` with `callback`
    CreateQueue { callback: F },
    /// `attach_queue`, answered with `handle`
    AttachQueue { handle: usize },
    /// `destroy_queue`
    DestroyQueue,
    /// `set_mode` with `mode`
    SetMode { mode: CopyMode },
    /// `set_queue_maxlen`
    SetQueueMaxlen { length: u32 },
    /// `dispatch`, in which the callback left `state` behind
    Dispatch { state: T },
}

impl<T, F: Fn(Message, &mut T) -> i32> QueueOp<T, F> {
    /// Whether the operation may be made on a queue with the view `queue`:
    /// what its contract requires, besides that the queue is well-formed.
    pub open spec fn permitted(self, queue: QueueView<T, F>) -> bool {
        match self {
            QueueOp::Open { .. } => true,
            QueueOp::Close => queue.is_open(),
            QueueOp::Bind { .. } => queue.is_open(),
            QueueOp::Unbind { .. } => queue.is_open(),
            QueueOp::CreateQueue { callback } => !queue.has_queue() && forall|
                msg: Message,
                state: &mut T,
            | #[trigger] call_requires(callback, (msg, state)),
            QueueOp::AttachQueue { .. } => queue.awaits_queue(),
            QueueOp::DestroyQueue => queue.has_queue(),
            QueueOp::SetMode { .. } => queue.has_queue(),
            QueueOp::SetQueueMaxlen { .. } => queue.has_queue(),
            QueueOp::Dispatch { .. } => queue.has_callback(),
        }
    }

    /// The view of the queue after the operation.
    pub open spec fn apply(self, queue: QueueView<T, F>) -> QueueView<T, F> {
        match self {
            QueueOp::Open { handle } => queue.opened(handle),
            QueueOp::Close => queue.closed(),
            QueueOp::Bind { .. } => queue,
            QueueOp::Unbind { .. } => queue,
            QueueOp::CreateQueue { callback } => queue.registered(callback),
            QueueOp::AttachQueue { handle } => queue.attached(handle),
            QueueOp::DestroyQueue => queue.detached(),
            QueueOp::SetMode { mode } => queue.configured(mode),
            QueueOp::SetQueueMaxlen { .. } => queue,
            QueueOp::Dispatch { state } => queue.with_state(state),
        }
    }

    /// Whether the operation gives the queue a connection handle.
    pub open spec fn acquires_connection(self) -> bool {
        self matches QueueOp::Open { handle } && handle != 0
    }

    /// Whether the operation takes the connection handle away.
    pub open spec fn releases_connection(self) -> bool {
        self is Close
    }

    /// Whether the operation gives the queue a queue handle.
    pub open spec fn acquires_queue(self) -> bool {
        self matches QueueOp::AttachQueue { handle } && handle != 0
    }

    /// Whether the operation takes the queue handle away.
    pub open spec fn releases_queue(self) -> bool {
        self is DestroyQueue || self is Close
    }
}

/// The view of a queue after the operations `ops`, one after the other.
pub open spec fn run<T, F: Fn(Message, &mut T) -> i32>(
    queue: QueueView<T, F>,
    ops: Seq<QueueOp<T, F>>,
) -> QueueView<T, F>
    decreases ops.len(),
{
    if ops.len() == 0 {
        queue
    } else {
        ops.last().apply(run(queue, ops.drop_last()))
    }
}

/// Whether each of the operations `ops` is permitted at its turn.
pub open spec fn permits<T, F: Fn(Message, &mut T) -> i32>(
    queue: QueueView<T, F>,
    ops: Seq<QueueOp<T, F>>,
) -> bool
    decreases ops.len(),
{
    ops.len() == 0 || (permits(queue, ops.drop_last()) && ops.last().permitted(
        run(queue, ops.drop_last()),
    ))
}

/// Whether the connection handle that `ops[i]` gave is still held after `ops`:
/// no later operation took it away.
pub open spec fn connection_held_since<T, F: Fn(Message, &mut T) -> i32>(
    ops: Seq<QueueOp<T, F>>,
    i: int,
) -> bool {
    &&& 0 <= i < ops.len()
    &&& ops[i].acquires_connection()
    &&& forall|j: int| i < j < ops.len() ==> !(#[trigger] ops[j]).releases_connection()
}

/// Whether the queue handle that `ops[i]` gave is still held after `ops`: no
/// later operation took it away.
pub open spec fn queue_held_since<T, F: Fn(Message, &mut T) -> i32>(
    ops: Seq<QueueOp<T, F>>,
    i: int,
) -> bool {
    &&& 0 <= i < ops.len()
    &&& ops[i].acquires_queue()
    &&& forall|j: int| i < j < ops.len() ==> !(#[trigger] ops[j]).releases_queue()
}

/// A permitted operation leaves a well-formed queue well-formed.
pub proof fn lemma_operation_keeps_wf<T, F: Fn(Message, &mut T) -> i32>(
    queue: QueueView<T, F>,
    op: QueueOp<T, F>,
)
    requires
        queue.wf(),
        op.permitted(queue),
    ensures
        op.apply(queue).wf(),
{
}

/// After any permitted history of a new queue, the queue is well-formed, and
/// each handle is held exactly between the operation that gave it and the
/// next operation that takes it away: the connection handle from a successful
/// `open` to `close`, the queue handle from a successful `attach_queue` to
/// `destroy_queue` or `close`. At all other times the handle is null.
pub proof fn lemma_handles_follow_history<T, F: Fn(Message, &mut T) -> i32>(
    state: T,
    ops: Seq<QueueOp<T, F>>,
)
    requires
        permits(QueueView::<T, F>::fresh(state), ops),
    ensures
        run(QueueView::<T, F>::fresh(state), ops).wf(),
        run(QueueView::<T, F>::fresh(state), ops).is_open() <==> exists|i: int|
            connection_held_since(ops, i),
        run(QueueView::<T, F>::fresh(state), ops).has_queue() <==> exists|i: int|
            queue_held_since(ops, i),
    decreases ops.len(),
{
    let fresh = QueueView::<T, F>::fresh(state);
    if ops.len() > 0 {
        let before = ops.drop_last();
        let last = ops.last();
        let n = before.len() as int;
        lemma_handles_follow_history(state, before);
        lemma_operation_keeps_wf(run(fresh, before), last);
        assert forall|i: int| 0 <= i < n implies (connection_held_since(ops, i)
            <==> connection_held_since(before, i) && !last.releases_connection()) by {
            assert(forall|j: int| 0 <= j < n ==> before[j] == ops[j]);
            assert(ops[n] == last);
        }
        assert forall|i: int| 0 <= i < n implies (queue_held_since(ops, i) <==> queue_held_since(
            before,
            i,
        ) && !last.releases_queue()) by {
            assert(forall|j: int| 0 <= j < n ==> before[j] == ops[j]);
            assert(ops[n] == last);
        }
        assert(connection_held_since(ops, n) <==> last.acquires_connection());
        assert(queue_held_since(ops, n) <==> last.acquires_queue());
        if run(fresh, ops).is_open() {
            if last.acquires_connection() {
                assert(connection_held_since(ops, n));
            } else {
                let i = choose|i: int| connection_held_since(before, i);
                assert(connection_held_since(ops, i));
            }
        }
        if run(fresh, ops).has_queue() {
            if last.acquires_queue() {
                assert(queue_held_since(ops, n));
            } else {
                let i = choose|i: int| queue_held_since(before, i);
                assert(queue_held_since(ops, i));
            }
        }
    }
}

/// A connection that was opened and closed at once leaves both handles null,
/// and a connection that was closed cannot be closed once more: `close` is not
/// permitted again before another `open` succeeds.
pub proof fn lemma_open_close<T, F: Fn(Message, &mut T) -> i32>(
    queue: QueueView<T, F>,
    handle: usize,
)
    requires
        queue.wf(),
        handle != 0,
    ensures
        QueueOp::<T, F>::Close.permitted(queue.opened(handle)),
        queue.opened(handle).closed().connection == 0,
        queue.opened(handle).closed().queue == 0,
        queue.opened(handle).closed().wf(),
        !QueueOp::<T, F>::Close.permitted(queue.opened(handle).closed()),
        !QueueOp::<T, F>::Close.permitted(queue.opened(handle).closed().opened(0)),
{
}

} // verus!
