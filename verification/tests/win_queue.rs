use ipc_rs::win::{IpcFlags, MessageQueue};
use ipc_rs::{IpcError, Mode};

#[test]
fn win_queue_lifecycle() {
    let queue = MessageQueue::<String>::new(42);
    assert_eq!(queue.id, -1);
    assert_eq!(queue.mode, 0o666);
    assert_eq!(queue.send("x".to_string(), 1), Err(IpcError::QueueIsUninitialized));
    assert_eq!(queue.recv(), Err(IpcError::QueueIsUninitialized));
    let mut queue = queue.init().unwrap();
    assert_eq!(queue.id, 1);
    assert_eq!(queue.send("x".to_string(), 1), Ok(()));
    assert_eq!(queue.peek(), Ok(vec![]));
    assert_eq!(queue.recv(), Ok(vec![]));
    assert_eq!(queue.delete(), Ok(()));
    assert_eq!(queue.delete(), Err(IpcError::QueueIsUninitialized));
    assert_eq!(queue.peek(), Err(IpcError::QueueIsUninitialized));
}

#[test]
fn win_builders() {
    let queue = MessageQueue::<u8>::new(3)
        .create()
        .exclusive()
        .to_async()
        .mode(Mode::Group)
        .auto_kill(true);
    assert_eq!(queue.mask, IpcFlags::CreateKey.bits() | IpcFlags::Exclusive.bits());
    assert_eq!(queue.mask, 1);
    assert_eq!(queue.message_mask, 2);
    assert_eq!(queue.mode, 0o660);
    assert_eq!(IpcFlags::MsgCopy.bits(), 5);
}
