//! The numbers of the SysV message queue interface on Linux: the flag
//! bits of `msgget`, `msgsnd` and `msgrcv`, the commands of `msgctl`
//! and the `errno` values that these calls report.
use nix::errno::Errno;
use vstd::prelude::*;

verus! {

/// The `errno` values that the message queue calls report and that the
/// library tells apart; `Other` stands for every other value.
#[allow(non_camel_case_types)]
#[derive(Debug, Clone, Copy, PartialEq, Eq, Structural)]
pub enum ErrnoKind {
    /// Operation not permitted
    EPERM,
    /// No such queue
    ENOENT,
    /// Interrupted by a signal
    EINTR,
    /// Argument list (message) too long
    E2BIG,
    /// Try again (the queue is full)
    EAGAIN,
    /// Out of memory
    ENOMEM,
    /// Permission denied
    EACCES,
    /// Bad address
    EFAULT,
    /// The queue exists
    EEXIST,
    /// Invalid argument
    EINVAL,
    /// No space left (too many queues)
    ENOSPC,
    /// No message of the desired type
    ENOMSG,
    /// The identifier was removed
    EIDRM,
    /// Any other value
    Other,
}

/// Which `errno` value the number `code` is on this platform, as
/// `nix::errno::Errno::from_i32` tells it.
pub uninterp spec fn errno_kind_of(code: i32) -> ErrnoKind;

/// Calls `nix::errno::Errno::from_i32`, which tells which `errno` value of
/// the platform the number `code` is (a pure match on the platform's
/// numbers), and hands the variant on as an `ErrnoKind`, one arm each;
/// every variant not listed becomes `Other`. The contract claims only
/// that the result depends on `code` alone.
#[verifier::external_body]
pub(crate) fn errno_kind(code: i32) -> (kind: ErrnoKind)
    ensures
        kind == errno_kind_of(code),
{
    match Errno::from_i32(code) {
        Errno::EPERM => ErrnoKind::EPERM, Errno::ENOENT => ErrnoKind::ENOENT,
        Errno::EINTR => ErrnoKind::EINTR, Errno::E2BIG => ErrnoKind::E2BIG,
        Errno::EAGAIN => ErrnoKind::EAGAIN, Errno::ENOMEM => ErrnoKind::ENOMEM,
        Errno::EACCES => ErrnoKind::EACCES, Errno::EFAULT => ErrnoKind::EFAULT,
        Errno::EEXIST => ErrnoKind::EEXIST, Errno::EINVAL => ErrnoKind::EINVAL,
        Errno::ENOSPC => ErrnoKind::ENOSPC, Errno::ENOMSG => ErrnoKind::ENOMSG,
        Errno::EIDRM => ErrnoKind::EIDRM,
        _ => ErrnoKind::Other,
    }
}

/// Bit flags for `msgget`, `msgsnd` and `msgrcv`
#[derive(Debug, Clone, Copy, PartialEq, Eq, Structural)]
pub enum IpcFlags {
    /// Create the queue if it doesn't exist (`IPC_CREAT`)
    CreateKey,
    /// Fail if not creating and queue doesn't
    /// exist and fail if creating and queue
    /// already exists (`IPC_EXCL`)
    Exclusive,
    /// Make `send()` and `recv()` async (`IPC_NOWAIT`)
    NoWait,
    /// Allow truncation of message data (`MSG_NOERROR`)
    MsgNoError,
    /// Used with `msgtyp` greater than 0
    /// to read the first message in the
    /// queue with a different type than
    /// `msgtyp` (`MSG_EXCEPT`)
    MsgExcept,
    /// Copy the message instead of removing
    /// it from the queue. Used for `peek()` (`MSG_COPY`)
    MsgCopy,
}

impl IpcFlags {
    /// The bit that the flag stands for.
    pub open spec fn spec_bits(self) -> i32 {
        match self {
            IpcFlags::CreateKey => 0o1000,
            IpcFlags::Exclusive => 0o2000,
            IpcFlags::NoWait => 0o4000,
            IpcFlags::MsgNoError => 0o10000,
            IpcFlags::MsgExcept => 0o20000,
            IpcFlags::MsgCopy => 0o40000,
        }
    }

    /// The bit that the flag stands for, as `msgget`, `msgsnd` and
    /// `msgrcv` take it.
    pub fn bits(self) -> (bits: i32)
        ensures
            bits == self.spec_bits(),
    {
        match self {
            IpcFlags::CreateKey => 0o1000,
            IpcFlags::Exclusive => 0o2000,
            IpcFlags::NoWait => 0o4000,
            IpcFlags::MsgNoError => 0o10000,
            IpcFlags::MsgExcept => 0o20000,
            IpcFlags::MsgCopy => 0o40000,
        }
    }
}

/// Commands for `msgctl`
#[derive(Debug, Clone, Copy, PartialEq, Eq, Structural)]
pub enum ControlCommands {
    /// Remove the queue (`IPC_RMID`)
    DeleteQueue,
    /// Write the queue's `msqid_ds` (`IPC_SET`)
    SetOptions,
    /// Read the queue's `msqid_ds` (`IPC_STAT`)
    GetOptions,
}

impl ControlCommands {
    /// The command number that the command stands for.
    pub open spec fn spec_code(self) -> i32 {
        match self {
            ControlCommands::DeleteQueue => 0,
            ControlCommands::SetOptions => 1,
            ControlCommands::GetOptions => 2,
        }
    }

    /// The command number, as `msgctl` takes it.
    pub fn code(self) -> (code: i32)
        ensures
            code == self.spec_code(),
    {
        match self {
            ControlCommands::DeleteQueue => 0,
            ControlCommands::SetOptions => 1,
            ControlCommands::GetOptions => 2,
        }
    }
}

} // verus!
