use ipc_rs::raw::IpcFlags;
use libc::{EACCES, EAGAIN, EEXIST, EFAULT, EIDRM, EINVAL, ENOENT, ENOMSG, EPERM};
use ipc_rs::{IpcError, MessageQueue};

/// Identifier that `msgget` hands out in these tests.
const QUEUE_ID: i32 = 65539;

#[test]
fn send_message() {
    let queue = MessageQueue::<&str>::new(1234, 128);
    let get = queue.init();
    assert_eq!(get.key, 1234);
    let queue = queue.init_done(QUEUE_ID, 0).unwrap();
    let request = queue
        .send(serde_cbor::to_vec(&"kalinka").ok(), 25)
        .unwrap();
    assert_eq!(request.id, QUEUE_ID);
    let res = queue.send_done(0, 0);
    println!("{:?}", res);
    assert!(res.is_ok());
}

#[test]
fn recv_message() {
    let sender = MessageQueue::<String>::new(1234, 128)
        .init_done(QUEUE_ID, 0)
        .unwrap();
    let sent = sender
        .send(serde_cbor::to_vec(&"kalinka".to_string()).ok(), 25)
        .unwrap();

    let queue = MessageQueue::<String>::new(1234, 128)
        .init_done(QUEUE_ID, 0)
        .unwrap();
    let request = queue.recv().unwrap();
    let mut buffer = vec![0u8; request.capacity];
    buffer[..sent.frame.len()].copy_from_slice(&sent.frame);
    let res = queue
        .recv_done(&buffer, sent.text_len as i64, 0)
        .and_then(|text| MessageQueue::<String>::deserialized(serde_cbor::from_slice(&text).ok()));
    println!("{:?}", res);
    assert!(res.is_ok());
    assert_eq!(res, Ok("kalinka".to_string()));
}

#[test]
fn nonblocking() {
    let queue = MessageQueue::<()>::new(745965545, 128)
        .to_async()
        .init_done(QUEUE_ID, 0)
        .unwrap();

    println!("{}", queue.mask);
    let request = queue.recv().unwrap();
    assert_eq!(request.flags & IpcFlags::NoWait.bits(), IpcFlags::NoWait.bits());
    let buffer = vec![0u8; request.capacity];
    assert_eq!(Err(IpcError::NoMessage), queue.recv_done(&buffer, -1, ENOMSG))
}

#[test]
fn new_queue_is_uninitialized() {
    let queue = MessageQueue::<u32>::new(7, 16);
    assert_eq!(queue.id, -1);
    assert_eq!(queue.key, 7);
    assert_eq!(queue.mask, 0);
    assert_eq!(queue.message_mask, 0);
    assert_eq!(queue.mode, 0o666);
    assert_eq!(queue.max_size(), 24);
    assert!(!queue.is_initialized());
    assert!(!queue.kills_on_drop());
}

#[test]
fn uninitialized_queue_refuses_to_work() {
    let mut queue = MessageQueue::<u32>::new(7, 16);
    assert_eq!(queue.send(Some(vec![1]), 1).err(), Some(IpcError::QueueIsUninitialized));
    assert_eq!(queue.recv().err(), Some(IpcError::QueueIsUninitialized));
    assert_eq!(queue.peek().err(), Some(IpcError::QueueIsUninitialized));
    assert_eq!(queue.delete().err(), Some(IpcError::QueueIsUninitialized));
    assert_eq!(queue.delete_done(0, 0), Err(IpcError::QueueIsUninitialized));
}

#[test]
fn builders_set_flags() {
    let queue = MessageQueue::<u32>::new(9, 8)
        .create()
        .exclusive()
        .to_async()
        .mode(ipc_rs::Mode::Private)
        .auto_kill(true);
    assert_eq!(queue.mask, 0o1000 | 0o2000);
    assert_eq!(queue.message_mask, 0o4000);
    assert_eq!(queue.mode, 0o600);
    assert!(queue.kills_on_drop());
    let get = queue.init();
    assert_eq!(get.key, 9);
    assert_eq!(get.flags, 0o3600);
}

#[test]
fn create_and_exclusive_commute() {
    let a = MessageQueue::<u32>::new(9, 8).create().exclusive().create();
    let b = MessageQueue::<u32>::new(9, 8).exclusive().create();
    assert_eq!(a.mask, b.mask);
    assert_eq!(a.init().flags & 0o3000, 0o3000);
}

#[test]
fn init_failure_maps_errno() {
    let queue = MessageQueue::<u32>::new(1, 8);
    assert_eq!(queue.init_done(-1, ENOENT).err(), Some(IpcError::QueueDoesntExist));
    let queue = MessageQueue::<u32>::new(1, 8).create().exclusive();
    assert_eq!(queue.init_done(-1, EEXIST).err(), Some(IpcError::QueueAlreadyExists));
}

#[test]
fn init_success_keeps_identifier() {
    let queue = MessageQueue::<u32>::new(1, 8).init_done(0, 0).unwrap();
    assert!(queue.is_initialized());
    assert_eq!(queue.id, 0);
}

#[test]
fn send_frames_type_then_payload() {
    let queue = MessageQueue::<u32>::new(1, 8).to_async().init_done(5, 0).unwrap();
    let request = queue.send(Some(vec![0xa1, 0x02]), 25).unwrap();
    assert_eq!(request.frame, vec![25, 0, 0, 0, 0, 0, 0, 0, 0xa1, 0x02]);
    assert_eq!(request.text_len, 2);
    assert_eq!(request.id, 5);
    assert_eq!(request.flags, 0o4000);
    let request = queue.send(Some(vec![]), -2).unwrap();
    assert_eq!(request.frame, vec![0xfe, 0xff, 0xff, 0xff, 0xff, 0xff, 0xff, 0xff]);
    assert_eq!(request.text_len, 0);
}

#[test]
fn send_failures() {
    let queue = MessageQueue::<u32>::new(1, 8).init_done(5, 0).unwrap();
    assert_eq!(queue.send(None, 1).err(), Some(IpcError::FailedToSerialize));
    assert_eq!(queue.send_done(-1, EAGAIN), Err(IpcError::QueueFull));
    assert_eq!(queue.send_done(5, 0), Err(IpcError::UnknownReturnValue(5)));
}

#[test]
fn peek_copies_the_message() {
    let queue = MessageQueue::<u32>::new(1, 100).init_done(5, 0).unwrap();
    let peek = queue.peek().unwrap();
    let recv = queue.recv().unwrap();
    assert_eq!(peek.flags, libc::MSG_COPY | libc::IPC_NOWAIT);
    assert_eq!(recv.flags, 0);
    assert_eq!(peek.capacity, 108);
    assert_eq!(peek.text_len, 100);
    assert_eq!(recv.id, 5);
    assert_eq!(peek.msgtyp, 0);
    assert_eq!(recv.msgtyp, 0);
}

#[test]
fn recv_done_cuts_payload() {
    let queue = MessageQueue::<u32>::new(1, 100).init_done(5, 0).unwrap();
    let frame = [9, 0, 0, 0, 0, 0, 0, 0, 1, 2, 3, 0, 0];
    assert_eq!(queue.recv_done(&frame, 3, 0), Ok(vec![1, 2, 3]));
    assert_eq!(queue.recv_done(&frame, 0, 0), Ok(vec![]));
    assert_eq!(queue.recv_done(&frame, 6, 0), Err(IpcError::UnknownReturnValue(6)));
    assert_eq!(queue.recv_done(&frame[..4], 0, 0), Err(IpcError::UnknownReturnValue(0)));
}

#[test]
fn deserialization_failure() {
    assert_eq!(MessageQueue::<u32>::deserialized(None), Err(IpcError::FailedToDeserialize));
    assert_eq!(MessageQueue::<u32>::deserialized(Some(4)), Ok(4));
    let text = vec![0x61, 0x61];
    let parsed: Option<u32> = serde_cbor::from_slice(&text).ok();
    assert_eq!(MessageQueue::<u32>::deserialized(parsed), Err(IpcError::FailedToDeserialize));
}

#[test]
fn delete_lifecycle() {
    let mut queue = MessageQueue::<u32>::new(1, 8).init_done(12, 0).unwrap();
    let request = queue.delete().unwrap();
    assert_eq!(request.id, 12);
    assert_eq!(request.command, 0);
    assert_eq!(queue.delete_done(0, 0), Ok(()));
    assert!(!queue.is_initialized());
    assert_eq!(queue.delete().err(), Some(IpcError::QueueIsUninitialized));
}

#[test]
fn delete_failures() {
    let mut queue = MessageQueue::<u32>::new(1, 8).init_done(12, 0).unwrap();
    assert_eq!(queue.delete_done(-1, EFAULT), Err(IpcError::InvalidStruct));
    assert_eq!(queue.delete_done(-1, EINVAL), Err(IpcError::InvalidCommand));
    assert_eq!(queue.delete_done(-1, EIDRM), Err(IpcError::QueueDoesntExist));
    assert_eq!(queue.delete_done(-1, EPERM), Err(IpcError::AccessDenied));
    assert_eq!(queue.delete_done(-1, EACCES), Err(IpcError::AccessDenied));
    assert!(queue.is_initialized());
}

#[test]
fn peek_does_not_wait_on_blocking_queue() {
    let queue = MessageQueue::<u32>::new(1, 100).init_done(5, 0).unwrap();
    let peek = queue.peek().unwrap();
    assert_eq!(peek.flags & libc::IPC_NOWAIT, libc::IPC_NOWAIT);
    let recv = queue.recv().unwrap();
    assert_eq!(recv.flags & libc::IPC_NOWAIT, 0);
    let async_queue = MessageQueue::<u32>::new(1, 100).to_async().init_done(5, 0).unwrap();
    assert_eq!(async_queue.peek().unwrap().flags, libc::MSG_COPY | libc::IPC_NOWAIT);
    let buffer = vec![0u8; peek.capacity];
    assert_eq!(queue.recv_done(&buffer, -1, ENOMSG), Err(IpcError::NoMessage));
}

#[test]
fn oversized_message_is_too_big() {
    let queue = MessageQueue::<u32>::new(1, 128).init_done(5, 0).unwrap();
    let request = queue.send(Some(vec![7u8; 129]), 1).unwrap();
    assert_eq!(request.text_len, 129);
    assert_eq!(request.frame.len(), 137);

    let big = MessageQueue::<u32>::new(1, 20000).init_done(5, 0).unwrap();
    assert_eq!(big.send(Some(vec![0u8; 8193]), 1).err(), Some(IpcError::MessageTooBig));
    assert_eq!(big.send(Some(vec![0u8; 8192]), 1).unwrap().text_len, 8192);
    assert_eq!(big.send_done(-1, libc::E2BIG), Err(IpcError::MessageTooBig));
}

#[test]
fn message_passes_between_queues_on_one_key() {
    let sender = MessageQueue::<Vec<u8>>::new(1234, 64).create().init_done(9, 0).unwrap();
    let receiver = MessageQueue::<Vec<u8>>::new(1234, 32).init_done(9, 0).unwrap();
    assert_eq!(sender.init().key, receiver.init().key);
    let sent = sender.send(Some(vec![4, 5, 6]), 3).unwrap();
    let asked = receiver.peek().unwrap();
    assert_eq!(sent.id, asked.id);
    let mut buffer = vec![0u8; asked.capacity];
    buffer[..sent.frame.len()].copy_from_slice(&sent.frame);
    assert_eq!(receiver.recv_done(&buffer, sent.text_len as i64, 0), Ok(vec![4, 5, 6]));
}
