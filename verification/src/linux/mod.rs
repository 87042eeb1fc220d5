//! SysV message queues.
//!
//! Every queue operation is split in two steps around its system call.
//! The first step (`init`, `delete`, `send`, `peek`, `recv`) decides,
//! from the queue's state, whether the call is to be made and with which
//! arguments, and hands them out as a request. The second step
//! (`init_done`, `delete_done`, `send_done`, `recv_done`) takes what the
//! call returned, together with the `errno` value it left, and turns it
//! into the operation's result and the queue's next state.
use vstd::bytes::*;
use vstd::prelude::*;
use vstd::slice::*;

use std::marker::PhantomData;

pub mod raw;

use crate::linux::raw::{errno_kind, errno_kind_of, ControlCommands, ErrnoKind, IpcFlags};
use crate::{IpcError, Mode};

verus! {

/// Length of the message type field that leads every message frame.
pub const MSG_TYPE_FIELD_LEN: usize = 8;

/// The system limit on the length of a message text: the 8 KB that
/// `MSGMAX` defaults to on Linux.
pub const MSG_MAX_TEXT: usize = 8192;

impl IpcError {
    /// The error that an `errno` value of the given kind, left by
    /// `msgget`, `msgsnd` or `msgrcv`, stands for.
    pub open spec fn spec_from_errno_kind(kind: ErrnoKind, code: i32) -> IpcError {
        match kind {
            ErrnoKind::EFAULT => IpcError::CouldntReadMessage,
            ErrnoKind::EIDRM => IpcError::QueueWasRemoved,
            ErrnoKind::EINTR => IpcError::SignalReceived,
            ErrnoKind::EINVAL => IpcError::InvalidMessage,
            ErrnoKind::E2BIG => IpcError::MessageTooBig,
            ErrnoKind::EPERM => IpcError::AccessDenied,
            ErrnoKind::EACCES => IpcError::AccessDenied,
            ErrnoKind::ENOMSG => IpcError::NoMessage,
            ErrnoKind::EAGAIN => IpcError::QueueFull,
            ErrnoKind::ENOMEM => IpcError::NoMemory,
            ErrnoKind::EEXIST => IpcError::QueueAlreadyExists,
            ErrnoKind::ENOENT => IpcError::QueueDoesntExist,
            ErrnoKind::ENOSPC => IpcError::TooManyQueues,
            ErrnoKind::Other => IpcError::UnknownErrorValue(code),
        }
    }

    /// The error that an `errno` value of the given kind, left by
    /// `msgctl` removing a queue, stands for: a bad `msqid_ds` pointer, a
    /// bad command or a queue that is already gone have their own errors,
    /// the rest are read as for the other calls.
    pub open spec fn spec_from_removal_errno_kind(kind: ErrnoKind, code: i32) -> IpcError {
        match kind {
            ErrnoKind::EFAULT => IpcError::InvalidStruct,
            ErrnoKind::EINVAL => IpcError::InvalidCommand,
            ErrnoKind::EIDRM => IpcError::QueueDoesntExist,
            _ => IpcError::spec_from_errno_kind(kind, code),
        }
    }

    /// The error that the `errno` value `code` left by `msgget`, `msgsnd`
    /// or `msgrcv` stands for.
    pub open spec fn spec_from_errno(code: i32) -> IpcError {
        IpcError::spec_from_errno_kind(errno_kind_of(code), code)
    }

    /// The error that the `errno` value `code` left by `msgctl` removing
    /// a queue stands for.
    pub open spec fn spec_from_removal_errno(code: i32) -> IpcError {
        IpcError::spec_from_removal_errno_kind(errno_kind_of(code), code)
    }

    /// Maps an `errno` value of the given kind (the number itself being
    /// `code`), left by a failed `msgget`, `msgsnd` or `msgrcv`, to the
    /// error it stands for.
    pub fn from_errno_kind(kind: ErrnoKind, code: i32) -> (err: IpcError)
        ensures
            err == IpcError::spec_from_errno_kind(kind, code),
    {
        match kind {
            ErrnoKind::EFAULT => IpcError::CouldntReadMessage,
            ErrnoKind::EIDRM => IpcError::QueueWasRemoved,
            ErrnoKind::EINTR => IpcError::SignalReceived,
            ErrnoKind::EINVAL => IpcError::InvalidMessage,
            ErrnoKind::E2BIG => IpcError::MessageTooBig,
            ErrnoKind::EPERM => IpcError::AccessDenied,
            ErrnoKind::EACCES => IpcError::AccessDenied,
            ErrnoKind::ENOMSG => IpcError::NoMessage,
            ErrnoKind::EAGAIN => IpcError::QueueFull,
            ErrnoKind::ENOMEM => IpcError::NoMemory,
            ErrnoKind::EEXIST => IpcError::QueueAlreadyExists,
            ErrnoKind::ENOENT => IpcError::QueueDoesntExist,
            ErrnoKind::ENOSPC => IpcError::TooManyQueues,
            ErrnoKind::Other => IpcError::UnknownErrorValue(code),
        }
    }

    /// Maps an `errno` value of the given kind (the number itself being
    /// `code`), left by `msgctl` failing to remove a queue, to the error
    /// it stands for.
    pub fn from_removal_errno_kind(kind: ErrnoKind, code: i32) -> (err: IpcError)
        ensures
            err == IpcError::spec_from_removal_errno_kind(kind, code),
    {
        match kind {
            ErrnoKind::EFAULT => IpcError::InvalidStruct,
            ErrnoKind::EINVAL => IpcError::InvalidCommand,
            ErrnoKind::EIDRM => IpcError::QueueDoesntExist,
            _ => IpcError::from_errno_kind(kind, code),
        }
    }

    /// Maps an `errno` value left by a failed `msgget`, `msgsnd` or
    /// `msgrcv` to the error it stands for.
    pub fn from_errno(code: i32) -> (err: IpcError)
        ensures
            err == IpcError::spec_from_errno(code),
    {
        IpcError::from_errno_kind(errno_kind(code), code)
    }

    /// Maps an `errno` value left by `msgctl` failing to remove a queue
    /// to the error it stands for.
    pub fn from_removal_errno(code: i32) -> (err: IpcError)
        ensures
            err == IpcError::spec_from_removal_errno(code),
    {
        IpcError::from_removal_errno_kind(errno_kind(code), code)
    }
}

/// The state of a [`MessageQueue`] as plain values.
pub struct QueueView {
    pub id: i32,
    pub key: i32,
    pub mask: i32,
    pub message_mask: i32,
    pub mode: i32,
    pub auto_kill: bool,
    pub initialized: bool,
    pub max_size: nat,
}

impl QueueView {
    /// A queue's frame buffer always has room for the message type field.
    pub open spec fn wf(self) -> bool {
        self.max_size >= MSG_TYPE_FIELD_LEN
    }

    /// The state with `bits` added to the flags handed to `msgget`.
    pub open spec fn with_mask_bits(self, bits: i32) -> QueueView {
        QueueView { mask: self.mask | bits, ..self }
    }

    /// The state with `bits` added to the flags handed to `msgsnd` and `msgrcv`.
    pub open spec fn with_message_mask_bits(self, bits: i32) -> QueueView {
        QueueView { message_mask: self.message_mask | bits, ..self }
    }

    /// The flags handed to `msgget`: the mask together with the mode bits.
    pub open spec fn get_flags(self) -> i32 {
        self.mask | self.mode
    }

    /// The flags handed to `msgrcv`: the message mask, with `MSG_COPY`
    /// added when the message is only peeked at. The kernel takes
    /// `MSG_COPY` only together with `IPC_NOWAIT`, so a peek always carries
    /// both.
    pub open spec fn receive_flags(self, peek: bool) -> i32 {
        if peek {
            IpcFlags::MsgCopy.spec_bits() | IpcFlags::NoWait.spec_bits() | self.message_mask
        } else {
            self.message_mask
        }
    }

    /// The decision of `send` on the serialized payload `encoded` (`None`
    /// where serialization failed): the identifier, frame, text length and
    /// flags handed to `msgsnd`, or the error that stops the sending.
    pub open spec fn send_request(self, encoded: Option<Seq<u8>>, mtype: i64) -> Result<
        (i32, Seq<u8>, nat, i32),
        IpcError,
    > {
        if !self.initialized {
            Err(IpcError::QueueIsUninitialized)
        } else {
            match encoded {
                None => Err(IpcError::FailedToSerialize),
                Some(p) => if p.len() > MSG_MAX_TEXT {
                    Err(IpcError::MessageTooBig)
                } else {
                    Ok((self.id, message_frame(mtype, p), p.len(), self.message_mask))
                },
            }
        }
    }

    /// The decision of `peek` (`peek` true) or `recv`: the identifier,
    /// buffer capacity, text length, message type (0: the first message
    /// in the queue) and flags handed to `msgrcv`, or the error that stops
    /// the receiving.
    pub open spec fn receive_request(self, peek: bool) -> Result<(i32, nat, nat, i64, i32), IpcError> {
        if !self.initialized {
            Err(IpcError::QueueIsUninitialized)
        } else {
            Ok(
                (
                    self.id,
                    self.max_size,
                    (self.max_size - MSG_TYPE_FIELD_LEN) as nat,
                    0i64,
                    self.receive_flags(peek),
                ),
            )
        }
    }

    /// The outcome of `msgget` returning `ret` and leaving `errno`: the
    /// initialized queue with identifier `ret`, unless `ret` is `-1`.
    pub open spec fn opened(self, ret: i32, errno: i32) -> Result<QueueView, IpcError> {
        if ret == -1 {
            Err(IpcError::spec_from_errno(errno))
        } else {
            Ok(QueueView { id: ret, initialized: true, ..self })
        }
    }

    /// Whether a removal may be asked of the kernel: only for an
    /// initialized queue.
    pub open spec fn removal(self) -> Result<(i32, i32), IpcError> {
        if self.initialized {
            Ok((self.id, ControlCommands::DeleteQueue.spec_code()))
        } else {
            Err(IpcError::QueueIsUninitialized)
        }
    }

    /// The state and result after `msgctl` removing the queue returned
    /// `ret` and left `errno`.
    pub open spec fn removed(self, ret: i32, errno: i32) -> (QueueView, Result<(), IpcError>) {
        if !self.initialized {
            (self, Err(IpcError::QueueIsUninitialized))
        } else if ret == -1 {
            (self, Err(IpcError::spec_from_removal_errno(errno)))
        } else {
            (QueueView { initialized: false, ..self }, Ok(()))
        }
    }
}

/// The serialized payload as a sequence of bytes.
pub open spec fn encoded_view(encoded: Option<Vec<u8>>) -> Option<Seq<u8>> {
    match encoded {
        Some(p) => Some(p@),
        None => None,
    }
}

/// The frame of a message: the message type, eight bytes little-endian,
/// followed by the payload.
pub open spec fn message_frame(mtype: i64, payload: Seq<u8>) -> Seq<u8> {
    spec_u64_to_le_bytes(mtype as u64) + payload
}

/// The result of `msgsnd` returning `ret` and leaving `errno`.
pub open spec fn send_outcome(ret: i32, errno: i32) -> Result<(), IpcError> {
    if ret == -1 {
        Err(IpcError::spec_from_errno(errno))
    } else if ret == 0 {
        Ok(())
    } else {
        Err(IpcError::UnknownReturnValue(ret))
    }
}

/// The payload that `msgrcv` delivered into `frame`, having returned `ret`
/// (the length of the message text) and left `errno`.
pub open spec fn received_payload(frame: Seq<u8>, ret: i64, errno: i32) -> Result<
    Seq<u8>,
    IpcError,
> {
    if ret < 0 {
        Err(IpcError::spec_from_errno(errno))
    } else if frame.len() < MSG_TYPE_FIELD_LEN + ret {
        Err(IpcError::UnknownReturnValue(ret as i32))
    } else {
        Ok(frame.subrange(MSG_TYPE_FIELD_LEN as int, MSG_TYPE_FIELD_LEN + ret))
    }
}


/// What `recv()` or `peek()` gives back of a message that `send()` framed:
/// when `msgrcv` delivers the frame of a message into a buffer (which may
/// be longer) and reports the length of its text, the payload that comes
/// out is the payload that went in, and the type field of the frame reads
/// back as the message type.
pub proof fn law_sent_payload_is_received(mtype: i64, payload: Seq<u8>, buffer: Seq<u8>, errno: i32)
    requires
        payload.len() <= i64::MAX,
        message_frame(mtype, payload).len() <= buffer.len(),
        buffer.subrange(0, message_frame(mtype, payload).len() as int) == message_frame(
            mtype,
            payload,
        ),
    ensures
        received_payload(buffer, payload.len() as i64, errno) == Ok::<Seq<u8>, IpcError>(payload),
        spec_u64_from_le_bytes(buffer.subrange(0, MSG_TYPE_FIELD_LEN as int)) as i64 == mtype,
{
    lemma_auto_spec_u64_to_from_le_bytes();
    let header = spec_u64_to_le_bytes(mtype as u64);
    let frame = message_frame(mtype, payload);
    assert(header.len() == 8);
    assert(buffer.subrange(MSG_TYPE_FIELD_LEN as int, MSG_TYPE_FIELD_LEN + payload.len()) =~= payload)
        by {
        assert forall|i: int| 0 <= i < payload.len() implies buffer[8 + i] == payload[i] by {
            assert(buffer.subrange(0, frame.len() as int)[8 + i] == frame[8 + i]);
        }
    }
    assert(buffer.subrange(0, MSG_TYPE_FIELD_LEN as int) =~= header) by {
        assert forall|i: int| 0 <= i < 8 implies buffer[i] == header[i] by {
            assert(buffer.subrange(0, frame.len() as int)[i] == frame[i]);
        }
    }
    let x = mtype;
    assert((x as u64) as i64 == x) by (bit_vector);
}

/// `to_async()` makes the calls to `send()`, `recv()` and `peek()`
/// non-blocking: the flags they hand to `msgsnd` and `msgrcv` carry
/// `IPC_NOWAIT`, and keep every flag that was there before.
pub proof fn law_async_transfers_do_not_wait(q: QueueView, peek: bool)
    ensures
        ({
            let a = q.with_message_mask_bits(IpcFlags::NoWait.spec_bits());
            &&& a.message_mask & IpcFlags::NoWait.spec_bits() == IpcFlags::NoWait.spec_bits()
            &&& a.receive_flags(peek) & IpcFlags::NoWait.spec_bits()
                == IpcFlags::NoWait.spec_bits()
            &&& a.message_mask & q.message_mask == q.message_mask
        }),
{
    let m = q.message_mask;
    assert((m | 0o4000i32) & 0o4000i32 == 0o4000i32) by (bit_vector);
    assert((0o40000i32 | 0o4000i32 | (m | 0o4000i32)) & 0o4000i32 == 0o4000i32) by (bit_vector);
    assert((m | 0o4000i32) & m == m) by (bit_vector);
}

/// `peek()` returns the message without removing it and `recv()`
/// consumes it: the flags handed to `msgrcv` by `peek()` are those of
/// `recv()` with `MSG_COPY` added, together with the `IPC_NOWAIT` that the
/// kernel asks of every `MSG_COPY` (whether or not the queue is async);
/// those of `recv()` are the queue's message mask alone.
pub proof fn law_peek_copies_recv_consumes(q: QueueView)
    ensures
        q.receive_flags(true) & IpcFlags::MsgCopy.spec_bits() == IpcFlags::MsgCopy.spec_bits(),
        q.receive_flags(true) & IpcFlags::NoWait.spec_bits() == IpcFlags::NoWait.spec_bits(),
        q.receive_flags(true) == q.receive_flags(false) | IpcFlags::MsgCopy.spec_bits()
            | IpcFlags::NoWait.spec_bits(),
        q.receive_flags(false) == q.message_mask,
{
    let m = q.message_mask;
    assert((0o40000i32 | 0o4000i32 | m) & 0o40000i32 == 0o40000i32) by (bit_vector);
    assert((0o40000i32 | 0o4000i32 | m) & 0o4000i32 == 0o4000i32) by (bit_vector);
    assert(0o40000i32 | 0o4000i32 | m == m | 0o40000i32 | 0o4000i32) by (bit_vector);
}

/// A message passes between two queues opened on the same identifier
/// (the same key names the same kernel queue): whatever payload `send()`
/// on one queue accepts reaches `msgsnd` on that identifier and fits the
/// buffer that `recv()` or `peek()` on the other queue hands to `msgrcv`,
/// provided the payload also fits the receiver's size; and when the kernel
/// delivers that frame, the payload that comes out is the one that went in.
pub proof fn law_message_passes_between_queues(
    sender: QueueView,
    receiver: QueueView,
    payload: Seq<u8>,
    mtype: i64,
    peek: bool,
    buffer: Seq<u8>,
    errno: i32,
)
    requires
        sender.wf(),
        receiver.wf(),
        sender.initialized,
        receiver.initialized,
        sender.id == receiver.id,
        payload.len() <= MSG_MAX_TEXT,
        payload.len() <= receiver.max_size - MSG_TYPE_FIELD_LEN,
        buffer.len() == receiver.max_size,
        buffer.subrange(0, message_frame(mtype, payload).len() as int) == message_frame(
            mtype,
            payload,
        ),
    ensures
        ({
            let sent = sender.send_request(Some(payload), mtype);
            let asked = receiver.receive_request(peek);
            &&& sent matches Ok((id, frame, text_len, _flags))
            &&& asked matches Ok((rid, capacity, limit, _msgtyp, _rflags))
            &&& id == rid
            &&& frame == message_frame(mtype, payload)
            &&& text_len == payload.len()
            &&& text_len <= limit
            &&& frame.len() <= capacity
            &&& received_payload(buffer, text_len as i64, errno) == Ok::<Seq<u8>, IpcError>(payload)
        }),
{
    lemma_auto_spec_u64_to_from_le_bytes();
    law_sent_payload_is_received(mtype, payload, buffer, errno);
}

/// `create()` and `exclusive()` together make `msgget` fail on an
/// existing queue: after both, in either order and any number of times,
/// the flags handed to `msgget` carry `IPC_CREAT` and `IPC_EXCL`, and the
/// queue's state does not depend on the order or the repetition.
pub proof fn law_create_exclusive_reach_msgget(q: QueueView)
    ensures
        ({
            let c = IpcFlags::CreateKey.spec_bits();
            let e = IpcFlags::Exclusive.spec_bits();
            let ce = q.with_mask_bits(c).with_mask_bits(e);
            &&& ce == q.with_mask_bits(e).with_mask_bits(c)
            &&& ce.with_mask_bits(c) == ce
            &&& ce.with_mask_bits(e) == ce
            &&& ce.get_flags() & c == c
            &&& ce.get_flags() & e == e
        }),
{
    let m = q.mask;
    let d = q.mode;
    assert((m | 0o1000i32) | 0o2000i32 == (m | 0o2000i32) | 0o1000i32) by (bit_vector);
    assert(((m | 0o1000i32) | 0o2000i32) | 0o1000i32 == (m | 0o1000i32) | 0o2000i32)
        by (bit_vector);
    assert(((m | 0o1000i32) | 0o2000i32) | 0o2000i32 == (m | 0o1000i32) | 0o2000i32)
        by (bit_vector);
    assert((((m | 0o1000i32) | 0o2000i32) | d) & 0o1000i32 == 0o1000i32) by (bit_vector);
    assert((((m | 0o1000i32) | 0o2000i32) | d) & 0o2000i32 == 0o2000i32) by (bit_vector);
}

/// The life of a queue: once `msgget` has given an identifier the queue
/// works on it (a deletion targets that identifier), and once a deletion
/// succeeded the queue refuses to work until it is initialized again.
pub proof fn law_queue_lifecycle(q: QueueView, get_ret: i32, get_errno: i32, ctl_ret: i32, ctl_errno: i32)
    requires
        get_ret != -1,
        ctl_ret != -1,
    ensures
        ({
            let opened = q.opened(get_ret, get_errno);
            &&& opened matches Ok(o)
            &&& o.removal() == Ok::<(i32, i32), IpcError>(
                (get_ret, ControlCommands::DeleteQueue.spec_code()),
            )
            &&& o.removed(ctl_ret, ctl_errno).1 == Ok::<(), IpcError>(())
            &&& !o.removed(ctl_ret, ctl_errno).0.initialized
            &&& o.removed(ctl_ret, ctl_errno).0.removal() == Err::<(i32, i32), IpcError>(
                IpcError::QueueIsUninitialized,
            )
            &&& o.removed(ctl_ret, ctl_errno).0.removed(ctl_ret, ctl_errno).1
                == Err::<(), IpcError>(IpcError::QueueIsUninitialized)
        }),
{
}

/// The state of a queue as `MessageQueue::new(key, max_size)` makes it:
/// no flags, mode `rw-rw-rw-`, not initialized, identifier -1.
pub open spec fn fresh_queue(key: i32, max_size: nat) -> QueueView {
    QueueView {
        id: -1i32,
        key,
        mask: 0,
        message_mask: 0,
        mode: 0o666,
        auto_kill: false,
        initialized: false,
        max_size: (max_size + MSG_TYPE_FIELD_LEN) as nat,
    }
}

/// `create()` allows the creation of the queue and nothing more: it adds
/// `IPC_CREAT` (0o1000) to the flags for `msgget`, keeps every flag that
/// was there, adds no other (in particular no `IPC_EXCL`, 0o2000, which
/// only `exclusive()` adds) and leaves the rest of the queue alone. From a
/// fresh queue the flags are `IPC_CREAT` alone.
pub proof fn law_create_adds_only_ipc_creat(q: QueueView, key: i32, max_size: nat)
    ensures
        ({
            let c = q.with_mask_bits(IpcFlags::CreateKey.spec_bits());
            &&& c.mask & 0o1000i32 == 0o1000i32
            &&& c.mask & q.mask == q.mask
            &&& c.mask & !(q.mask | 0o1000i32) == 0
            &&& (q.mask & 0o2000i32 == 0 ==> c.mask & 0o2000i32 == 0)
            &&& c.id == q.id && c.key == q.key && c.message_mask == q.message_mask
            &&& c.mode == q.mode && c.auto_kill == q.auto_kill
            &&& c.initialized == q.initialized && c.max_size == q.max_size
        }),
        fresh_queue(key, max_size).with_mask_bits(IpcFlags::CreateKey.spec_bits()).mask == 0o1000i32,
{
    let m = q.mask;
    assert((m | 0o1000i32) & 0o1000i32 == 0o1000i32) by (bit_vector);
    assert((m | 0o1000i32) & m == m) by (bit_vector);
    assert((m | 0o1000i32) & !(m | 0o1000i32) == 0) by (bit_vector);
    assert(m & 0o2000i32 == 0 ==> (m | 0o1000i32) & 0o2000i32 == 0) by (bit_vector);
    assert(0i32 | 0o1000i32 == 0o1000i32) by (bit_vector);
}

/// `exclusive()` adds `IPC_EXCL` (0o2000) to the flags for `msgget` and
/// nothing more: every flag that was there stays, no other is added (in
/// particular no `IPC_CREAT`, 0o1000), and the rest of the queue is left
/// alone.
pub proof fn law_exclusive_adds_only_ipc_excl(q: QueueView)
    ensures
        ({
            let e = q.with_mask_bits(IpcFlags::Exclusive.spec_bits());
            &&& e.mask & 0o2000i32 == 0o2000i32
            &&& e.mask & q.mask == q.mask
            &&& e.mask & !(q.mask | 0o2000i32) == 0
            &&& (q.mask & 0o1000i32 == 0 ==> e.mask & 0o1000i32 == 0)
            &&& e.id == q.id && e.key == q.key && e.message_mask == q.message_mask
            &&& e.mode == q.mode && e.auto_kill == q.auto_kill
            &&& e.initialized == q.initialized && e.max_size == q.max_size
        }),
{
    let m = q.mask;
    assert((m | 0o2000i32) & 0o2000i32 == 0o2000i32) by (bit_vector);
    assert((m | 0o2000i32) & m == m) by (bit_vector);
    assert((m | 0o2000i32) & !(m | 0o2000i32) == 0) by (bit_vector);
    assert(m & 0o1000i32 == 0 ==> (m | 0o2000i32) & 0o1000i32 == 0) by (bit_vector);
}

/// `to_async()` adds `IPC_NOWAIT` (0o4000) to the flags for `msgsnd` and
/// `msgrcv` and nothing more: every flag that was there stays, no other is
/// added, and the flags for `msgget` and the rest of the queue are left
/// alone.
pub proof fn law_to_async_adds_only_ipc_nowait(q: QueueView)
    ensures
        ({
            let a = q.with_message_mask_bits(IpcFlags::NoWait.spec_bits());
            &&& a.message_mask & 0o4000i32 == 0o4000i32
            &&& a.message_mask & q.message_mask == q.message_mask
            &&& a.message_mask & !(q.message_mask | 0o4000i32) == 0
            &&& a.id == q.id && a.key == q.key && a.mask == q.mask
            &&& a.mode == q.mode && a.auto_kill == q.auto_kill
            &&& a.initialized == q.initialized && a.max_size == q.max_size
        }),
{
    let m = q.message_mask;
    assert((m | 0o4000i32) & 0o4000i32 == 0o4000i32) by (bit_vector);
    assert((m | 0o4000i32) & m == m) by (bit_vector);
    assert((m | 0o4000i32) & !(m | 0o4000i32) == 0) by (bit_vector);
}

/// `init()` asks `msgget` for the queue's key with the mask together with
/// the mode bits: the flags carry every bit of the mask and of the mode
/// and no other bit. So a queue built without `create()` (and whose mode
/// has no such bit) never asks for `IPC_CREAT` (0o1000): a fresh queue
/// asks for its mode `0o666` alone, and one made with `create()` for
/// `0o1666`.
pub proof fn law_msgget_flags_are_mask_and_mode(q: QueueView, key: i32, max_size: nat)
    ensures
        q.get_flags() & q.mask == q.mask,
        q.get_flags() & q.mode == q.mode,
        q.get_flags() & !(q.mask | q.mode) == 0,
        q.mask & 0o1000i32 == 0 && q.mode & 0o1000i32 == 0 ==> q.get_flags() & 0o1000i32 == 0,
        fresh_queue(key, max_size).get_flags() == 0o666i32,
        fresh_queue(key, max_size).with_mask_bits(IpcFlags::CreateKey.spec_bits()).get_flags()
            == 0o1666i32,
{
    let m = q.mask;
    let d = q.mode;
    let f = q.get_flags();
    assert(f == m | d);
    assert((m | d) & m == m) by (bit_vector);
    assert((m | d) & d == d) by (bit_vector);
    assert((m | d) & !(m | d) == 0) by (bit_vector);
    assert(m & 0o1000i32 == 0 && d & 0o1000i32 == 0 ==> (m | d) & 0o1000i32 == 0) by (bit_vector);
    assert(0i32 | 0o666i32 == 0o666i32) by (bit_vector);
    assert((0i32 | 0o1000i32) | 0o666i32 == 0o1666i32) by (bit_vector);
}

/// `send()` waits on a full queue unless the queue was made async: the
/// flags it hands to `msgsnd` are the queue's message mask, no more and
/// no less, so without `to_async()` they carry no `IPC_NOWAIT` (0o4000)
/// (a fresh queue sends with flags 0) and after `to_async()` they do.
/// The request targets the queue's identifier with the whole payload as
/// message text.
pub proof fn law_send_waits_unless_async(q: QueueView, payload: Seq<u8>, mtype: i64, key: i32, max_size: nat)
    requires
        q.initialized,
        payload.len() <= MSG_MAX_TEXT,
    ensures
        q.send_request(Some(payload), mtype) matches Ok((id, _frame, text_len, flags)) && id
            == q.id && text_len == payload.len() && flags == q.message_mask,
        q.message_mask & 0o4000i32 == 0 ==> (q.send_request(Some(payload), mtype) matches Ok(
            (_id, _frame, _len, flags),
        ) && flags & 0o4000i32 == 0),
        ({
            let f = QueueView { initialized: true, ..fresh_queue(key, max_size) };
            &&& f.send_request(Some(payload), mtype) matches Ok((_id, _frame, _len, flags))
                && flags == 0
            &&& f.with_message_mask_bits(IpcFlags::NoWait.spec_bits()).send_request(
                Some(payload),
                mtype,
            ) matches Ok((_id, _frame, _len, flags)) && flags & 0o4000i32 == 0o4000i32
        }),
{
    assert((0i32 | 0o4000i32) & 0o4000i32 == 0o4000i32) by (bit_vector);
}

/// `recv()` and `peek()` ask `msgrcv` for the first message in the queue,
/// whatever its type: the message type they hand over is 0, whatever the
/// queue's flags. `recv()` consumes it, with the queue's message mask as
/// flags; `peek()` copies it, adding `MSG_COPY` (0o40000) and the
/// `IPC_NOWAIT` (0o4000) that `MSG_COPY` needs. Both target the queue's
/// identifier, with a buffer of the queue's size.
pub proof fn law_receive_asks_for_first_message(q: QueueView, peek: bool)
    requires
        q.initialized,
        q.wf(),
    ensures
        q.receive_request(peek) matches Ok((id, capacity, text_len, msgtyp, flags)) && msgtyp
            == 0 && id == q.id && capacity == q.max_size && text_len + 8 == q.max_size && (peek
            ==> flags == q.message_mask | 0o40000i32 | 0o4000i32) && (!peek ==> flags
            == q.message_mask),
{
    let m = q.message_mask;
    assert(0o40000i32 | 0o4000i32 | m == m | 0o40000i32 | 0o4000i32) by (bit_vector);
}

/// A message frame is the message type, eight bytes little-endian,
/// followed by the payload: the frame is eight bytes longer than the
/// payload, its first eight bytes read back as the message type and the
/// rest is the payload.
pub proof fn law_frame_is_type_then_payload(mtype: i64, payload: Seq<u8>)
    ensures
        message_frame(mtype, payload).len() == payload.len() + 8,
        message_frame(mtype, payload).subrange(8, payload.len() + 8int) == payload,
        spec_u64_from_le_bytes(message_frame(mtype, payload).subrange(0, 8)) as i64 == mtype,
{
    lemma_auto_spec_u64_to_from_le_bytes();
    let frame = message_frame(mtype, payload);
    let header = spec_u64_to_le_bytes(mtype as u64);
    assert(frame.subrange(8, payload.len() + 8int) =~= payload);
    assert(frame.subrange(0, 8) =~= header);
    let x = mtype;
    assert((x as u64) as i64 == x) by (bit_vector);
}

/// What a receive gives out of the buffer that `msgrcv` filled: for a
/// text of `ret` bytes that fits the buffer behind the eight byte type
/// field, exactly those `ret` bytes; for a text that does not fit, the
/// unexpected return value; for a failed call (`ret < 0`), the error of
/// its `errno`, so that an empty non-blocking queue (`ENOMSG`) gives
/// `NoMessage`.
pub proof fn law_received_text_follows_type_field(buffer: Seq<u8>, ret: i64, errno: i32)
    ensures
        ret >= 0 && buffer.len() >= ret + 8 ==> (received_payload(buffer, ret, errno) matches Ok(
            text,
        ) && text.len() == ret && forall|i: int| 0 <= i < ret ==> text[i] == buffer[i + 8]),
        ret >= 0 && buffer.len() < ret + 8 ==> received_payload(buffer, ret, errno) == Err::<
            Seq<u8>,
            IpcError,
        >(IpcError::UnknownReturnValue(ret as i32)),
        ret < 0 ==> received_payload(buffer, ret, errno) == Err::<Seq<u8>, IpcError>(
            IpcError::spec_from_errno(errno),
        ),
        ret < 0 && errno_kind_of(errno) == ErrnoKind::ENOMSG ==> received_payload(
            buffer,
            ret,
            errno,
        ) == Err::<Seq<u8>, IpcError>(IpcError::NoMessage),
{
}

/// What a send reports from `msgsnd`: 0 is success; -1 is the error of
/// its `errno`, so that a full non-blocking queue (`EAGAIN`) gives
/// `QueueFull` and a text over the system limit (`E2BIG`) gives
/// `MessageTooBig`; any other value is an unexpected return value.
pub proof fn law_send_outcome_reports_msgsnd(ret: i32, errno: i32)
    ensures
        ret == 0 ==> send_outcome(ret, errno) == Ok::<(), IpcError>(()),
        ret == -1 ==> send_outcome(ret, errno) == Err::<(), IpcError>(
            IpcError::spec_from_errno(errno),
        ),
        ret == -1 && errno_kind_of(errno) == ErrnoKind::EAGAIN ==> send_outcome(ret, errno)
            == Err::<(), IpcError>(IpcError::QueueFull),
        ret == -1 && errno_kind_of(errno) == ErrnoKind::E2BIG ==> send_outcome(ret, errno)
            == Err::<(), IpcError>(IpcError::MessageTooBig),
        ret != 0 && ret != -1 ==> send_outcome(ret, errno) == Err::<(), IpcError>(
            IpcError::UnknownReturnValue(ret),
        ),
{
}

/// A new queue is not initialized, has identifier -1, no flags for any
/// call, mode `rw-rw-rw-` (0o666), no deletion on drop, and a frame
/// buffer of the given text size plus the eight byte type field.
pub proof fn law_new_queue_is_fresh(key: i32, max_size: nat)
    ensures
        ({
            let f = fresh_queue(key, max_size);
            &&& f.id == -1 && f.key == key && f.mask == 0 && f.message_mask == 0
            &&& f.mode == 0o666 && !f.auto_kill && !f.initialized
            &&& f.max_size == max_size + 8
            &&& f.wf()
            &&& f.removal() == Err::<(i32, i32), IpcError>(IpcError::QueueIsUninitialized)
            &&& f.receive_request(false) is Err && f.receive_request(true) is Err
            &&& forall|p: Option<Seq<u8>>, t: i64| #[trigger] f.send_request(p, t) == Err::<
                (i32, Seq<u8>, nat, i32),
                IpcError,
            >(IpcError::QueueIsUninitialized)
        }),
{
}

/// The mode bits of each access mode: `rw-rw-rw-` (0o666) for `Public`,
/// `rw-rw----` (0o660) for `Group`, `rw-------` (0o600) for `Private`, and
/// the given number for `Custom`; `mode()` sets exactly those bits as the
/// queue's mode and changes nothing else.
pub proof fn law_mode_bits(q: QueueView, x: i32)
    ensures
        Mode::Public.permission_bits() == 0o666,
        Mode::Group.permission_bits() == 0o660,
        Mode::Private.permission_bits() == 0o600,
        Mode::Custom(x).permission_bits() == x,
{
}

/// `init()` succeeds exactly when `msgget` gives an identifier (not -1):
/// the queue is then initialized on that identifier with everything else
/// kept; otherwise the error is the one of `msgget`'s `errno`, so that a
/// missing queue (`ENOENT`) gives `QueueDoesntExist` and an existing one
/// under `create().exclusive()` (`EEXIST`) gives `QueueAlreadyExists`.
pub proof fn law_init_outcome(q: QueueView, ret: i32, errno: i32)
    ensures
        ret != -1 ==> (q.opened(ret, errno) matches Ok(o) && o.id == ret && o.initialized
            && o.key == q.key && o.mask == q.mask && o.message_mask == q.message_mask && o.mode
            == q.mode && o.auto_kill == q.auto_kill && o.max_size == q.max_size),
        ret == -1 ==> q.opened(ret, errno) == Err::<QueueView, IpcError>(
            IpcError::spec_from_errno(errno),
        ),
        ret == -1 && errno_kind_of(errno) == ErrnoKind::ENOENT ==> q.opened(ret, errno) == Err::<
            QueueView,
            IpcError,
        >(IpcError::QueueDoesntExist),
        ret == -1 && errno_kind_of(errno) == ErrnoKind::EEXIST ==> q.opened(ret, errno) == Err::<
            QueueView,
            IpcError,
        >(IpcError::QueueAlreadyExists),
{
}

/// `delete()` asks `msgctl` to remove (`IPC_RMID`, command 0) the queue's
/// identifier, and only for an initialized queue; a successful removal
/// leaves the queue uninitialized with everything else kept, a failed one
/// leaves it as it was with the error of `msgctl`'s `errno` (a bad pointer,
/// `EFAULT`, is `InvalidStruct`; a bad command, `EINVAL`, `InvalidCommand`;
/// a removed queue, `EIDRM`, `QueueDoesntExist`).
pub proof fn law_delete_removes_queue(q: QueueView, ret: i32, errno: i32)
    ensures
        q.initialized ==> q.removal() == Ok::<(i32, i32), IpcError>((q.id, 0)),
        !q.initialized ==> q.removal() == Err::<(i32, i32), IpcError>(
            IpcError::QueueIsUninitialized,
        ),
        !q.initialized ==> q.removed(ret, errno) == (
        q,
        Err::<(), IpcError>(IpcError::QueueIsUninitialized),
        ),
        q.initialized && ret != -1 ==> ({
            let (r, res) = q.removed(ret, errno);
            &&& res == Ok::<(), IpcError>(())
            &&& !r.initialized && r.id == q.id && r.key == q.key && r.mask == q.mask
            &&& r.message_mask == q.message_mask && r.mode == q.mode
            &&& r.auto_kill == q.auto_kill && r.max_size == q.max_size
        }),
        q.initialized && ret == -1 ==> q.removed(ret, errno) == (
        q,
        Err::<(), IpcError>(IpcError::spec_from_removal_errno(errno)),
        ),
        q.initialized && ret == -1 && errno_kind_of(errno) == ErrnoKind::EFAULT ==> q.removed(
            ret,
            errno,
        ).1 == Err::<(), IpcError>(IpcError::InvalidStruct),
        q.initialized && ret == -1 && errno_kind_of(errno) == ErrnoKind::EINVAL ==> q.removed(
            ret,
            errno,
        ).1 == Err::<(), IpcError>(IpcError::InvalidCommand),
        q.initialized && ret == -1 && errno_kind_of(errno) == ErrnoKind::EIDRM ==> q.removed(
            ret,
            errno,
        ).1 == Err::<(), IpcError>(IpcError::QueueDoesntExist),
{
}

/// What `send()` refuses before any call: an uninitialized queue refuses
/// with `QueueIsUninitialized`, a payload that failed to serialize gives
/// `FailedToSerialize`, and a payload longer than the 8 KB system limit
/// (8192 bytes) gives `MessageTooBig`; every other payload is handed on.
pub proof fn law_send_refusals(q: QueueView, payload: Seq<u8>, mtype: i64)
    ensures
        !q.initialized ==> q.send_request(Some(payload), mtype) == Err::<
            (i32, Seq<u8>, nat, i32),
            IpcError,
        >(IpcError::QueueIsUninitialized),
        !q.initialized ==> q.send_request(None, mtype) == Err::<
            (i32, Seq<u8>, nat, i32),
            IpcError,
        >(IpcError::QueueIsUninitialized),
        q.initialized ==> q.send_request(None, mtype) == Err::<(i32, Seq<u8>, nat, i32), IpcError>(
            IpcError::FailedToSerialize,
        ),
        q.initialized && payload.len() > 8192 ==> q.send_request(Some(payload), mtype) == Err::<
            (i32, Seq<u8>, nat, i32),
            IpcError,
        >(IpcError::MessageTooBig),
        q.initialized && payload.len() <= 8192 ==> q.send_request(Some(payload), mtype) is Ok,
        !q.initialized ==> q.receive_request(true) == Err::<(i32, nat, nat, i64, i32), IpcError>(
            IpcError::QueueIsUninitialized,
        ) && q.receive_request(false) == Err::<(i32, nat, nat, i64, i32), IpcError>(
            IpcError::QueueIsUninitialized,
        ),
{
}

/// What each `errno` value means: `ENOMSG` is `NoMessage`, `EAGAIN`
/// `QueueFull`, `E2BIG` `MessageTooBig`, `EPERM` and `EACCES` both
/// `AccessDenied`, `EEXIST` `QueueAlreadyExists`, `ENOENT`
/// `QueueDoesntExist`, `ENOSPC` `TooManyQueues`, `EIDRM` `QueueWasRemoved`,
/// `EINTR` `SignalReceived`, `EINVAL` `InvalidMessage`, `EFAULT`
/// `CouldntReadMessage`, `ENOMEM` `NoMemory`; any other value is an
/// unknown error that carries the value itself.
pub proof fn law_errno_meanings(code: i32)
    ensures
        IpcError::spec_from_errno_kind(ErrnoKind::ENOMSG, code) == IpcError::NoMessage,
        IpcError::spec_from_errno_kind(ErrnoKind::EAGAIN, code) == IpcError::QueueFull,
        IpcError::spec_from_errno_kind(ErrnoKind::E2BIG, code) == IpcError::MessageTooBig,
        IpcError::spec_from_errno_kind(ErrnoKind::EPERM, code) == IpcError::AccessDenied,
        IpcError::spec_from_errno_kind(ErrnoKind::EACCES, code) == IpcError::AccessDenied,
        IpcError::spec_from_errno_kind(ErrnoKind::EEXIST, code) == IpcError::QueueAlreadyExists,
        IpcError::spec_from_errno_kind(ErrnoKind::ENOENT, code) == IpcError::QueueDoesntExist,
        IpcError::spec_from_errno_kind(ErrnoKind::ENOSPC, code) == IpcError::TooManyQueues,
        IpcError::spec_from_errno_kind(ErrnoKind::EIDRM, code) == IpcError::QueueWasRemoved,
        IpcError::spec_from_errno_kind(ErrnoKind::EINTR, code) == IpcError::SignalReceived,
        IpcError::spec_from_errno_kind(ErrnoKind::EINVAL, code) == IpcError::InvalidMessage,
        IpcError::spec_from_errno_kind(ErrnoKind::EFAULT, code) == IpcError::CouldntReadMessage,
        IpcError::spec_from_errno_kind(ErrnoKind::ENOMEM, code) == IpcError::NoMemory,
        IpcError::spec_from_errno_kind(ErrnoKind::Other, code) == IpcError::UnknownErrorValue(code),
        IpcError::spec_from_errno(code) == IpcError::spec_from_errno_kind(errno_kind_of(code), code),
        IpcError::spec_from_removal_errno(code) == IpcError::spec_from_removal_errno_kind(
            errno_kind_of(code),
            code,
        ),
{
}

/// Arguments of `msgget(key, flags)`.
pub struct GetRequest {
    pub key: i32,
    pub flags: i32,
}

/// Arguments of `msgctl(id, command, NULL)`.
pub struct RemoveRequest {
    pub id: i32,
    pub command: i32,
}

/// Arguments of `msgsnd(id, frame, text_len, flags)`: `frame` is the
/// whole message (type and text), `text_len` the length of its text.
pub struct SendRequest {
    pub id: i32,
    pub frame: Vec<u8>,
    pub text_len: usize,
    pub flags: i32,
}

/// Arguments of `msgrcv(id, buffer, text_len, msgtyp, flags)`, where
/// `buffer` holds `capacity` bytes: room for the type field and `text_len`
/// bytes of text.
pub struct ReceiveRequest {
    pub id: i32,
    pub capacity: usize,
    pub text_len: usize,
    pub msgtyp: i64,
    pub flags: i32,
}

/// The main message queue type.
/// It holds basic information about a given message queue
/// as well as type data about the content that passes
/// through it.
///
/// The `PhantomData` marker ensures that the queue
/// is locked to (de)serializing a single type.
///
/// Before usage a `MessageQueue` needs to be initialized
/// through the use of [`MessageQueue::init()`] and
/// [`MessageQueue::init_done()`]. Failure to do so results
/// in the queue refusing to work.
pub struct MessageQueue<T> {
    /// The actual ID of the underlying SysV message
    /// queue. This value is 'unassigned' until
    /// the queue is initialized.
    pub id: i32,
    /// This is the key that was given when the
    /// `MessageQueue` was created, make sure to use
    /// the same key on both sides of the barricade
    /// to ensure proper 'connection' is established
    pub key: i32,
    /// The bit flags used to create a new queue,
    /// see [`IpcFlags`] for more info.
    pub mask: i32,
    /// The bit flags used when sending/receiving a
    /// message, they for example affect whether data
    /// gets truncated or whether the calls to `send()`
    /// and `recv()` are blocking or not.
    pub message_mask: i32,
    /// Mode bits, these are an equivalent to those
    /// one encounters when working with files in Unix
    /// systems, therefore, the 9 least significant bits
    /// follow this pattern:
    ///
    /// ```text
    /// rwxrwxrwx
    /// |_||_||_|
    ///  │  │  │
    ///  │  │  └── others
    ///  │  └── owner's user group
    ///  └── owner
    /// ```
    ///
    /// Currently, the execute bits are ignored. To allow
    /// full access to anyone, mode should be set to
    /// `0666` aka `0b110_110_110`; to make the queue
    /// `private` one would use `0600` aka `0b110_000_000`.
    pub mode: i32,
    auto_kill: bool,
    initialized: bool,
    max_size: usize,
    types: PhantomData<T>,
}

impl<T> View for MessageQueue<T> {
    type V = QueueView;

    closed spec fn view(&self) -> QueueView {
        QueueView {
            id: self.id,
            key: self.key,
            mask: self.mask,
            message_mask: self.message_mask,
            mode: self.mode,
            auto_kill: self.auto_kill,
            initialized: self.initialized,
            max_size: self.max_size as nat,
        }
    }
}

impl<T> MessageQueue<T> {
    /// Defines a new `MessageQueue` with the given key, whose messages
    /// carry at most `max_size` bytes of text.
    pub fn new(key: i32, max_size: usize) -> (queue: Self)
        requires
            max_size + MSG_TYPE_FIELD_LEN <= usize::MAX,
        ensures
            queue@ == (QueueView {
                id: -1i32,
                key,
                mask: 0,
                message_mask: 0,
                mode: 0o666,
                auto_kill: false,
                initialized: false,
                max_size: (max_size + MSG_TYPE_FIELD_LEN) as nat,
            }),
            queue@ == fresh_queue(key, max_size as nat),
            queue@.wf(),
    {
        MessageQueue {
            id: -1,
            key,
            mask: 0,
            message_mask: 0,
            mode: 0o666,
            initialized: false,
            auto_kill: false,
            types: PhantomData,
            max_size: max_size + MSG_TYPE_FIELD_LEN,
        }
    }

    /// Allow the creation of a new message queue
    pub fn create(self) -> (queue: Self)
        ensures
            queue@ == self@.with_mask_bits(IpcFlags::CreateKey.spec_bits()),
    {
        let mut q = self;
        q.mask = q.mask | IpcFlags::CreateKey.bits();
        q
    }

    /// Enforce the operation at hand. If `create()`
    /// is also used, initialization will fail if the queue
    /// already exists.
    pub fn exclusive(self) -> (queue: Self)
        ensures
            queue@ == self@.with_mask_bits(IpcFlags::Exclusive.spec_bits()),
    {
        let mut q = self;
        q.mask = q.mask | IpcFlags::Exclusive.bits();
        q
    }

    /// Adds the NoWait flag to message_mask to make
    /// the calls to `send()` and `recv()` non-blocking.
    /// When there is no message to be received, `recv()`
    /// ends in [`IpcError::NoMessage`] and similarly,
    /// when a message can't be sent because the queue is
    /// full, a nonblocking `send()` ends in [`IpcError::QueueFull`]
    pub fn to_async(self) -> (queue: Self)
        ensures
            queue@ == self@.with_message_mask_bits(IpcFlags::NoWait.spec_bits()),
    {
        let mut q = self;
        q.message_mask = q.message_mask | IpcFlags::NoWait.bits();
        q
    }

    /// Sets the mode of a given message queue.
    /// See [`Mode`] for more information
    pub fn mode(self, mode: Mode) -> (queue: Self)
        ensures
            queue@ == (QueueView { mode: mode.permission_bits(), ..self@ }),
    {
        let mut q = self;
        q.mode = i32::from(mode);
        q
    }

    /// Automatically deletes a queue when it
    /// goes out of scope.
    pub fn auto_kill(self, kill: bool) -> (queue: Self)
        ensures
            queue@ == (QueueView { auto_kill: kill, ..self@ }),
    {
        let mut q = self;
        q.auto_kill = kill;
        q
    }

    /// Whether the queue has been initialized (and not deleted since).
    pub fn is_initialized(&self) -> (b: bool)
        ensures
            b == self@.initialized,
    {
        self.initialized
    }

    /// Whether the queue is to be deleted when it goes out of scope.
    pub fn kills_on_drop(&self) -> (b: bool)
        ensures
            b == self@.auto_kill,
    {
        self.auto_kill
    }

    /// The size of the frame buffer: the message type field and
    /// the largest message text.
    pub fn max_size(&self) -> (n: usize)
        ensures
            n == self@.max_size,
    {
        self.max_size
    }

    /// Initializes a MessageQueue with the key `self.key`, proper
    /// modes and mask: the arguments of the `msgget` call to make.
    pub fn init(&self) -> (req: GetRequest)
        ensures
            req.key == self@.key,
            req.flags == self@.get_flags(),
    {
        GetRequest { key: self.key, flags: self.mask | self.mode }
    }

    /// Completes the initialization with what `msgget` returned and the
    /// `errno` value it left.
    pub fn init_done(self, ret: i32, errno: i32) -> (res: Result<Self, IpcError>)
        ensures
            match res {
                Ok(q) => self@.opened(ret, errno) == Ok::<QueueView, IpcError>(q@),
                Err(e) => self@.opened(ret, errno) == Err::<QueueView, IpcError>(e),
            },
    {
        let mut q = self;
        q.initialized = true;
        q.id = ret;
        if ret == -1 {
            Err(IpcError::from_errno(errno))
        } else {
            Ok(q)
        }
    }

    /// Deletes a queue through `msgctl()`: the arguments of the call to
    /// make, or the error that stops the deletion.
    pub fn delete(&self) -> (res: Result<RemoveRequest, IpcError>)
        ensures
            match res {
                Ok(req) => self@.removal() == Ok::<(i32, i32), IpcError>((req.id, req.command)),
                Err(e) => self@.removal() == Err::<(i32, i32), IpcError>(e),
            },
    {
        if !self.initialized {
            return Err(IpcError::QueueIsUninitialized);
        }
        Ok(RemoveRequest { id: self.id, command: ControlCommands::DeleteQueue.code() })
    }

    /// Completes the deletion with what `msgctl` returned and the `errno`
    /// value it left.
    pub fn delete_done(&mut self, ret: i32, errno: i32) -> (res: Result<(), IpcError>)
        ensures
            (final(self)@, res) == old(self)@.removed(ret, errno),
    {
        if !self.initialized {
            return Err(IpcError::QueueIsUninitialized);
        }
        if ret == -1 {
            Err(IpcError::from_removal_errno(errno))
        } else {
            self.initialized = false;
            Ok(())
        }
    }

    /// Sends a new message, or tries to (in case of non-blocking calls):
    /// frames the serialized payload (`None` where serialization failed)
    /// behind the message type and gives the arguments of the `msgsnd`
    /// call to make, or the error that stops the sending. A payload longer
    /// than the 8 KB system limit is refused with `IpcError::MessageTooBig`.
    pub fn send(&self, encoded: Option<Vec<u8>>, mtype: i64) -> (res: Result<SendRequest, IpcError>)
        ensures
            match res {
                Ok(req) => self@.send_request(encoded_view(encoded), mtype) == Ok::<
                    (i32, Seq<u8>, nat, i32),
                    IpcError,
                >((req.id, req.frame@, req.text_len as nat, req.flags)),
                Err(e) => self@.send_request(encoded_view(encoded), mtype) == Err::<
                    (i32, Seq<u8>, nat, i32),
                    IpcError,
                >(e),
            },
    {
        if !self.initialized {
            return Err(IpcError::QueueIsUninitialized);
        }
        match encoded {
            None => Err(IpcError::FailedToSerialize),
            Some(payload) => {
                if payload.len() > MSG_MAX_TEXT {
                    return Err(IpcError::MessageTooBig);
                }
                let mut payload = payload;
                let text_len = payload.len();
                let mut frame = u64_to_le_bytes(mtype as u64);
                frame.append(&mut payload);
                Ok(SendRequest { id: self.id, frame, text_len, flags: self.message_mask })
            },
        }
    }

    /// Completes the sending with what `msgsnd` returned and the `errno`
    /// value it left. If the queue is full, `IpcError::QueueFull` is returned.
    pub fn send_done(&self, ret: i32, errno: i32) -> (res: Result<(), IpcError>)
        ensures
            res == send_outcome(ret, errno),
    {
        if ret == -1 {
            Err(IpcError::from_errno(errno))
        } else if ret == 0 {
            Ok(())
        } else {
            Err(IpcError::UnknownReturnValue(ret))
        }
    }

    /// Returns a message without removing it from the message
    /// queue: the arguments of the `msgrcv` call to make, which copies the
    /// first message without waiting. Use `recv()` if you want to consume
    /// the message.
    pub fn peek(&self) -> (res: Result<ReceiveRequest, IpcError>)
        requires
            self@.wf(),
        ensures
            !self@.initialized ==> res == Err::<ReceiveRequest, IpcError>(
                IpcError::QueueIsUninitialized,
            ),
            self@.initialized ==> (res matches Ok(req) && req.id == self@.id && req.capacity
                == self@.max_size && req.text_len == self@.max_size - MSG_TYPE_FIELD_LEN
                && req.flags == self@.receive_flags(true)),
            res matches Ok(req) ==> self@.receive_request(true) == Ok::<
                (i32, nat, nat, i64, i32),
                IpcError,
            >((req.id, req.capacity as nat, req.text_len as nat, req.msgtyp, req.flags)),
    {
        self.inner_recv(IpcFlags::MsgCopy.bits() | IpcFlags::NoWait.bits() | self.message_mask)
    }

    /// Receives a message, consuming it: the arguments of the `msgrcv`
    /// call to make. If no message is to be received, `recv()` either
    /// blocks or ends in [`IpcError::NoMessage`]
    pub fn recv(&self) -> (res: Result<ReceiveRequest, IpcError>)
        requires
            self@.wf(),
        ensures
            !self@.initialized ==> res == Err::<ReceiveRequest, IpcError>(
                IpcError::QueueIsUninitialized,
            ),
            self@.initialized ==> (res matches Ok(req) && req.id == self@.id && req.capacity
                == self@.max_size && req.text_len == self@.max_size - MSG_TYPE_FIELD_LEN
                && req.flags == self@.receive_flags(false)),
            res matches Ok(req) ==> self@.receive_request(false) == Ok::<
                (i32, nat, nat, i64, i32),
                IpcError,
            >((req.id, req.capacity as nat, req.text_len as nat, req.msgtyp, req.flags)),
    {
        self.inner_recv(self.message_mask)
    }

    fn inner_recv(&self, msg_flag: i32) -> (res: Result<ReceiveRequest, IpcError>)
        requires
            self@.wf(),
        ensures
            !self@.initialized ==> res == Err::<ReceiveRequest, IpcError>(
                IpcError::QueueIsUninitialized,
            ),
            self@.initialized ==> (res matches Ok(req) && req.id == self@.id && req.capacity
                == self@.max_size && req.text_len == self@.max_size - MSG_TYPE_FIELD_LEN
                && req.msgtyp == 0 && req.flags == msg_flag),
    {
        if !self.initialized {
            return Err(IpcError::QueueIsUninitialized);
        }
        Ok(
            ReceiveRequest {
                id: self.id,
                capacity: self.max_size,
                text_len: self.max_size - MSG_TYPE_FIELD_LEN,
                msgtyp: 0,
                flags: msg_flag,
            },
        )
    }

    /// Completes a `recv()` or `peek()` with the buffer that `msgrcv`
    /// filled, what it returned and the `errno` value it left: the
    /// payload of the message, to be deserialized.
    pub fn recv_done(&self, frame: &[u8], ret: i64, errno: i32) -> (res: Result<Vec<u8>, IpcError>)
        ensures
            match res {
                Ok(p) => received_payload(frame@, ret, errno) == Ok::<Seq<u8>, IpcError>(p@),
                Err(e) => received_payload(frame@, ret, errno) == Err::<Seq<u8>, IpcError>(e),
            },
    {
        if ret < 0 {
            return Err(IpcError::from_errno(errno));
        }
        let len = frame.len();
        if len < MSG_TYPE_FIELD_LEN || (ret as u64) > ((len - MSG_TYPE_FIELD_LEN) as u64) {
            return Err(IpcError::UnknownReturnValue(ret as i32));
        }
        let text_len = ret as usize;
        let text = slice_subrange(frame, MSG_TYPE_FIELD_LEN, MSG_TYPE_FIELD_LEN + text_len);
        Ok(slice_to_vec(text))
    }

    /// The value that deserializing a payload gave (`None` where it
    /// failed) as the result of a `recv()` or `peek()`.
    pub fn deserialized(parsed: Option<T>) -> (res: Result<T, IpcError>)
        ensures
            match parsed {
                Some(v) => res == Ok::<T, IpcError>(v),
                None => res == Err::<T, IpcError>(IpcError::FailedToDeserialize),
            },
    {
        match parsed {
            Some(v) => Ok(v),
            None => Err(IpcError::FailedToDeserialize),
        }
    }
}

} // verus!
