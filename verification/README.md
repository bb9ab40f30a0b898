# vhost_user

The frontend's side of vhost-user, with its decisions verified in Verus: what is
sent to a backend and when, what is remembered of it, what each reply leads to,
and how messages and the objects that travel with them are framed on the control
channel.

The library in `src/` touches no socket, process or guest memory. Every operation
that needs them is a state machine: it says what to do next, and the caller does
it and hands the outcome back. Its transitions are spec functions that the
executable code is proved to follow, and `frontend_laws` and `socket_laws` state
what holds of whole runs: which calls a handshake, a start, a stop or a reset
makes and what it leaves behind; that a ring goes on exactly where it stopped;
that a message that is sent is received as it was, however the stream cuts it up;
and that a message that is not sent in full leaves no handle behind.

| Module | What it holds |
| --- | --- |
| `handshake`, `start`, `stop`, `reset` | the operations of the frontend |
| `frontend` | its state and its config space |
| `socket`, `send`, `win32` | receiving and sending messages, and handles in place of descriptors |
| `virtiofsd` | launching a daemon to serve a virtio-fs device |
| `device`, `protocol`, `error`, `le` | plain data, wire types, errors, and numbers in bytes |
| `frontend_laws`, `socket_laws` | laws of whole runs |

Two functions are trusted, both in `protocol`: they take flag bits from the `vhost`
crate. `std::io::Error` is declared and only carried through.

`tests/` drives the state machines against a backend, a wire and a handle table
that are played there. `app/` is the ordinary Rust around the library: sockets,
threads and processes.
