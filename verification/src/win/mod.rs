//! Message queues on systems without SysV IPC.
//!
//! The queue keeps the same builder interface as on Linux, but its
//! operations touch no kernel object: initialization always succeeds,
//! sending is accepted once the queue is initialized, and receiving
//! yields an empty message text.
use vstd::prelude::*;

use std::marker::PhantomData;

use crate::{IpcError, Mode};

verus! {

/// Bit flags for `msgget`
#[derive(Debug, Clone, Copy, PartialEq, Eq, Structural)]
pub enum IpcFlags {
    /// Create the queue if it doesn't exist
    CreateKey,
    /// Fail if not creating and queue doesn't
    /// exist and fail if creating and queue
    /// already exists
    Exclusive,
    /// Make `send()` and `recv()` async
    NoWait,
    /// Allow truncation of message data
    MsgNoError,
    /// Used with `msgtyp` greater than 0
    /// to read the first message in the
    /// queue with a different type than
    /// `msgtyp`
    MsgExcept,
    /// Copy the message instead of removing
    /// it from the queue. Used for `peek()`
    MsgCopy,
}

impl IpcFlags {
    /// The number of the flag: its position in the declaration.
    pub open spec fn spec_bits(self) -> i32 {
        match self {
            IpcFlags::CreateKey => 0,
            IpcFlags::Exclusive => 1,
            IpcFlags::NoWait => 2,
            IpcFlags::MsgNoError => 3,
            IpcFlags::MsgExcept => 4,
            IpcFlags::MsgCopy => 5,
        }
    }

    /// The number of the flag: its position in the declaration.
    pub fn bits(self) -> (bits: i32)
        ensures
            bits == self.spec_bits(),
    {
        match self {
            IpcFlags::CreateKey => 0,
            IpcFlags::Exclusive => 1,
            IpcFlags::NoWait => 2,
            IpcFlags::MsgNoError => 3,
            IpcFlags::MsgExcept => 4,
            IpcFlags::MsgCopy => 5,
        }
    }
}

/// A message: its type and its text.
pub struct Message {
    /// This should be a positive integer.
    /// For normal usage, it is inconsequential,
    /// but you may want to use it for filtering.
    pub mtype: i64,
    /// This is a simple byte array holding the
    /// message text, stored as CBOR.
    pub mtext: [u8; 65536],
}

/// The state of a [`MessageQueue`] as plain values.
pub struct QueueView {
    pub id: i32,
    pub key: i32,
    pub mask: i32,
    pub message_mask: i32,
    pub mode: i32,
    pub auto_kill: bool,
    pub initialized: bool,
}

/// The main message queue type, locked to a single message type.
pub struct MessageQueue<T> {
    /// The actual ID of the underlying message
    /// queue. This value is 'unassigned' until a call
    /// to the `init()` method is made.
    pub id: i32,
    /// This is the key that was given when the
    /// `MessageQueue` was created
    pub key: i32,
    /// The bit flags used to create a new queue,
    /// see [`IpcFlags`] for more info.
    pub mask: i32,
    /// The bit flags used when sending/receiving a
    /// message
    pub message_mask: i32,
    /// Mode bits, as with files in Unix systems
    /// (`rwxrwxrwx` for owner, group and others).
    pub mode: i32,
    auto_kill: bool,
    initialized: bool,
    types: PhantomData<T>,
}

impl<T> View for MessageQueue<T> {
    type V = QueueView;

    closed spec fn view(&self) -> QueueView {
        QueueView {
            id: self.id,
            key: self.key,
            mask: self.mask,
            message_mask: self.message_mask,
            mode: self.mode,
            auto_kill: self.auto_kill,
            initialized: self.initialized,
        }
    }
}

impl<T> MessageQueue<T> {
    /// Allow the creation of a new message queue
    pub fn create(self) -> (queue: Self)
        ensures
            queue@ == (QueueView { mask: self@.mask | IpcFlags::CreateKey.spec_bits(), ..self@ }),
    {
        let mut q = self;
        q.mask = q.mask | IpcFlags::CreateKey.bits();
        q
    }

    /// Enforce the operation at hand.
    pub fn exclusive(self) -> (queue: Self)
        ensures
            queue@ == (QueueView { mask: self@.mask | IpcFlags::Exclusive.spec_bits(), ..self@ }),
    {
        let mut q = self;
        q.mask = q.mask | IpcFlags::Exclusive.bits();
        q
    }

    /// Adds the NoWait flag to message_mask.
    pub fn to_async(self) -> (queue: Self)
        ensures
            queue@ == (QueueView {
                message_mask: self@.message_mask | IpcFlags::NoWait.spec_bits(),
                ..self@
            }),
    {
        let mut q = self;
        q.message_mask = q.message_mask | IpcFlags::NoWait.bits();
        q
    }

    /// Sets the mode of a given message queue.
    /// See [`Mode`] for more information
    pub fn mode(self, mode: Mode) -> (queue: Self)
        ensures
            queue@ == (QueueView { mode: mode.permission_bits(), ..self@ }),
    {
        let mut q = self;
        q.mode = i32::from(mode);
        q
    }

    /// Marks the queue for deletion when it goes out of scope.
    pub fn auto_kill(self, kill: bool) -> (queue: Self)
        ensures
            queue@ == (QueueView { auto_kill: kill, ..self@ }),
    {
        let mut q = self;
        q.auto_kill = kill;
        q
    }

    /// Deletes a queue: an initialized queue becomes uninitialized.
    pub fn delete(&mut self) -> (res: Result<(), IpcError>)
        ensures
            !old(self)@.initialized ==> res == Err::<(), IpcError>(IpcError::QueueIsUninitialized)
                && final(self)@ == old(self)@,
            old(self)@.initialized ==> res == Ok::<(), IpcError>(()) && final(self)@ == (
            QueueView { initialized: false, ..old(self)@ }),
    {
        if !self.initialized {
            return Err(IpcError::QueueIsUninitialized);
        }
        self.initialized = false;
        Ok(())
    }

    /// Initializes a MessageQueue: it always succeeds, with identifier 1.
    pub fn init(self) -> (res: Result<Self, IpcError>)
        ensures
            res matches Ok(q) && q@ == (QueueView { initialized: true, id: 1, ..self@ }),
    {
        let mut q = self;
        q.initialized = true;
        q.id = 1;
        Ok(q)
    }

    /// Defines a new `MessageQueue`
    pub fn new(key: i32) -> (queue: Self)
        ensures
            queue@ == (QueueView {
                id: -1i32,
                key,
                mask: 0,
                message_mask: 0,
                mode: 0o666,
                auto_kill: false,
                initialized: false,
            }),
    {
        MessageQueue {
            id: -1,
            key,
            mask: 0,
            message_mask: 0,
            mode: 0o666,
            initialized: false,
            auto_kill: false,
            types: PhantomData,
        }
    }

    /// Sends a new message: accepted once the queue is initialized.
    #[allow(unused_variables)]
    pub fn send<I>(&self, src: T, mtype: I) -> (res: Result<(), IpcError>)
        where
            I: Into<i64>,
        ensures
            self@.initialized ==> res == Ok::<(), IpcError>(()),
            !self@.initialized ==> res == Err::<(), IpcError>(IpcError::QueueIsUninitialized),
    {
        if !self.initialized {
            return Err(IpcError::QueueIsUninitialized);
        }
        Ok(())
    }

    /// Returns a message without removing it from the message queue:
    /// the message text, to be deserialized, which is empty.
    pub fn peek(&self) -> (res: Result<Vec<u8>, IpcError>)
        ensures
            self@.initialized ==> (res matches Ok(text) && text@ == Seq::<u8>::empty()),
            !self@.initialized ==> (res matches Err(e) && e == IpcError::QueueIsUninitialized),
    {
        if !self.initialized {
            return Err(IpcError::QueueIsUninitialized);
        }
        Ok(Vec::new())
    }

    /// Receives a message, consuming it: the message text, to be
    /// deserialized, which is empty.
    pub fn recv(&self) -> (res: Result<Vec<u8>, IpcError>)
        ensures
            self@.initialized ==> (res matches Ok(text) && text@ == Seq::<u8>::empty()),
            !self@.initialized ==> (res matches Err(e) && e == IpcError::QueueIsUninitialized),
    {
        if !self.initialized {
            return Err(IpcError::QueueIsUninitialized);
        }
        Ok(Vec::new())
    }
}

} // verus!
