# ipc_rs

Interprocess communication over SysV message queues, with the queue logic
verified by Verus.

- `src/lib.rs`: `IpcError`, `Mode` and the mode bits.
- `src/linux/mod.rs`: `MessageQueue` with its state (`QueueView`), the
  requests for `msgget`, `msgctl`, `msgsnd` and `msgrcv`, the handling of
  their results, message framing and size limits, and the proved laws (`law_*`).
- `src/linux/raw.rs`: flag bits, `msgctl` commands, and the `errno` kinds told apart through `nix`.
- `src/win/mod.rs`: the queue for systems without SysV IPC.
- `app/lib.rs`: the system calls (`libc`), `errno` (`nix`) and CBOR
  (de)serialization (`serde_cbor`) around the library.
