use ipc_rs::raw::{ControlCommands, ErrnoKind, IpcFlags};
use ipc_rs::{IpcError, Mode};

#[test]
fn errno_values_map_to_errors() {
    assert_eq!(IpcError::from_errno(libc::EFAULT), IpcError::CouldntReadMessage);
    assert_eq!(IpcError::from_errno(libc::EIDRM), IpcError::QueueWasRemoved);
    assert_eq!(IpcError::from_errno(libc::EINTR), IpcError::SignalReceived);
    assert_eq!(IpcError::from_errno(libc::EINVAL), IpcError::InvalidMessage);
    assert_eq!(IpcError::from_errno(libc::E2BIG), IpcError::MessageTooBig);
    assert_eq!(IpcError::from_errno(libc::EPERM), IpcError::AccessDenied);
    assert_eq!(IpcError::from_errno(libc::EACCES), IpcError::AccessDenied);
    assert_eq!(IpcError::from_errno(libc::ENOMSG), IpcError::NoMessage);
    assert_eq!(IpcError::from_errno(libc::EAGAIN), IpcError::QueueFull);
    assert_eq!(IpcError::from_errno(libc::ENOMEM), IpcError::NoMemory);
    assert_eq!(IpcError::from_errno(libc::EEXIST), IpcError::QueueAlreadyExists);
    assert_eq!(IpcError::from_errno(libc::ENOENT), IpcError::QueueDoesntExist);
    assert_eq!(IpcError::from_errno(libc::ENOSPC), IpcError::TooManyQueues);
    assert_eq!(IpcError::from_errno(libc::ENOSYS), IpcError::UnknownErrorValue(libc::ENOSYS));
    assert_eq!(IpcError::from_errno(100000), IpcError::UnknownErrorValue(100000));
}

#[test]
fn removal_errno_values_map_to_errors() {
    assert_eq!(IpcError::from_removal_errno(libc::EFAULT), IpcError::InvalidStruct);
    assert_eq!(IpcError::from_removal_errno(libc::EINVAL), IpcError::InvalidCommand);
    assert_eq!(IpcError::from_removal_errno(libc::EIDRM), IpcError::QueueDoesntExist);
    assert_eq!(IpcError::from_removal_errno(libc::EPERM), IpcError::AccessDenied);
}

#[test]
fn errno_kinds_map_to_errors() {
    assert_eq!(IpcError::from_errno_kind(ErrnoKind::ENOMSG, 0), IpcError::NoMessage);
    assert_eq!(IpcError::from_errno_kind(ErrnoKind::Other, 77), IpcError::UnknownErrorValue(77));
    assert_eq!(IpcError::from_removal_errno_kind(ErrnoKind::EFAULT, 0), IpcError::InvalidStruct);
    assert_eq!(IpcError::from_removal_errno_kind(ErrnoKind::EAGAIN, 0), IpcError::QueueFull);
}

#[test]
fn flag_bits_match_libc() {
    assert_eq!(IpcFlags::CreateKey.bits(), libc::IPC_CREAT);
    assert_eq!(IpcFlags::Exclusive.bits(), libc::IPC_EXCL);
    assert_eq!(IpcFlags::NoWait.bits(), libc::IPC_NOWAIT);
    assert_eq!(IpcFlags::MsgNoError.bits(), libc::MSG_NOERROR);
    assert_eq!(IpcFlags::MsgExcept.bits(), libc::MSG_EXCEPT);
    assert_eq!(IpcFlags::MsgCopy.bits(), 0o40000);
    assert_eq!(ControlCommands::DeleteQueue.code(), libc::IPC_RMID);
    assert_eq!(ControlCommands::SetOptions.code(), libc::IPC_SET);
    assert_eq!(ControlCommands::GetOptions.code(), libc::IPC_STAT);
}

#[test]
fn mode_bits() {
    assert_eq!(i32::from(Mode::Public), 0o666);
    assert_eq!(i32::from(Mode::Group), 0o660);
    assert_eq!(i32::from(Mode::Private), 0o600);
    assert_eq!(i32::from(Mode::Custom(0o640)), 0o640);
    let bits: i32 = Mode::Custom(-5).into();
    assert_eq!(bits, -5);
}
