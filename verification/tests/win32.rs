//! Handles that are passed inside messages, with the handle table of the peer
//! process played here.

use std::io;
use vhost_user::win32::adopt_process_handle;
use vhost_user::win32::HandleError;
use vhost_user::win32::RemoteHandles;
use vhost_user::win32::HANDLE_RECORD_SIZE;

/// The handles of a process, which is its own peer.
struct HandleTable {
    live: Vec<u64>,
    next: u64,
}

impl HandleTable {
    const PROCESS: u64 = u64::MAX;

    fn new() -> Self {
        HandleTable { live: Vec::new(), next: 0x1_0000_0004 }
    }

    /// A handle to a new event.
    fn event(&mut self) -> u64 {
        let handle = self.next;
        self.next += 4;
        self.live.push(handle);
        handle
    }

    fn duplicate(&mut self, handle: u64) -> io::Result<u64> {
        if self.is_live(handle) {
            Ok(self.event())
        } else {
            Err(io::Error::other("no such handle"))
        }
    }

    fn is_live(&self, handle: u64) -> bool {
        self.live.contains(&handle)
    }

    /// Gives a set up, as its owner does.
    fn give_up(&mut self, handles: RemoteHandles) {
        assert_eq!(handles.peer(), Self::PROCESS);
        for handle in handles.handles_to_close() {
            assert!(self.is_live(handle));
            self.live.retain(|live| *live != handle);
        }
    }
}

/// A committed set leaves its handles live in the peer.
#[test]
fn commit_keeps_handles() {
    let mut table = HandleTable::new();
    let object = table.event();

    let value = {
        let mut handles = RemoteHandles::new(HandleTable::PROCESS);
        handles.duplicate(table.duplicate(object)).unwrap();
        let value = u64::from_le_bytes(handles.trailer().try_into().unwrap());
        assert!(table.is_live(value));
        handles.commit();
        table.give_up(handles);
        value
    };

    assert!(table.is_live(value), "committed handle was closed in the peer");
}

/// Giving up a set that was not committed closes its handles in the peer, so an
/// undelivered message leaves nothing behind.
#[test]
fn drop_closes_handles() {
    let mut table = HandleTable::new();
    let object = table.event();

    let value = {
        let mut handles = RemoteHandles::new(HandleTable::PROCESS);
        handles.duplicate(table.duplicate(object)).unwrap();
        let value = u64::from_le_bytes(handles.trailer().try_into().unwrap());
        assert!(table.is_live(value));
        table.give_up(handles);
        value
    };

    assert!(!table.is_live(value), "undelivered handle was left in the peer");
    // The original is untouched by the remote close.
    assert!(table.is_live(object));
}

/// The trailer is one record per handle, in duplication order.
#[test]
fn trailer_layout() {
    let mut table = HandleTable::new();
    let a = table.event();
    let b = table.event();

    let mut handles = RemoteHandles::new(HandleTable::PROCESS);
    handles.duplicate(table.duplicate(a)).unwrap();
    handles.duplicate(table.duplicate(b)).unwrap();

    let trailer = handles.trailer();
    assert_eq!(trailer.len(), 2 * HANDLE_RECORD_SIZE);
    assert_eq!(handles.len(), 2);
    for record in trailer.chunks_exact(HANDLE_RECORD_SIZE) {
        assert!(table.is_live(u64::from_le_bytes(record.try_into().unwrap())));
    }
}

#[test]
fn trailer_of_known_handles() {
    let mut handles = RemoteHandles::new(9);
    assert_eq!(handles.len(), 0);
    assert_eq!(handles.trailer(), Vec::<u8>::new());
    assert_eq!(handles.handles_to_close(), Vec::<u64>::new());
    handles.duplicate(Ok(0x0123_4567_89ab_cdef)).unwrap();
    handles.duplicate(Ok(4)).unwrap();
    assert_eq!(
        handles.trailer(),
        [0xef, 0xcd, 0xab, 0x89, 0x67, 0x45, 0x23, 0x01, 4, 0, 0, 0, 0, 0, 0, 0]
    );
    assert_eq!(handles.handles_to_close(), [0x0123_4567_89ab_cdef, 4]);
    handles.commit();
    assert_eq!(handles.handles_to_close(), Vec::<u64>::new());
    assert_eq!(handles.len(), 2);
}

#[test]
fn failed_duplication_records_nothing() {
    let mut handles = RemoteHandles::new(9);
    handles.duplicate(Ok(4)).unwrap();
    let error = handles.duplicate(Err(io::Error::from_raw_os_error(5))).unwrap_err();
    assert_eq!(error.raw_os_error(), Some(5));
    assert_eq!(handles.handles_to_close(), [4]);
}

#[test]
fn process_handles_are_adopted_if_live() {
    let error = adopt_process_handle(0).err().unwrap();
    assert!(matches!(error, HandleError::Null));
    assert_eq!(error.message(), Some("backend process handle is null"));

    let query = adopt_process_handle(0x1c4).unwrap();
    assert_eq!(query.handle, 0x1c4);
    assert_eq!(query.answered(Ok(())).unwrap(), 0x1c4);

    let query = adopt_process_handle(0x1c4).unwrap();
    let error = query.answered(Err(io::Error::from_raw_os_error(6))).err().unwrap();
    assert_eq!(error.message(), None);
    match error {
        HandleError::NotLive(source) => assert_eq!(source.raw_os_error(), Some(6)),
        HandleError::Null => unreachable!(),
    }
}
