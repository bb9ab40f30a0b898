//! Passing objects where sockets carry none.
//!
//! POSIX hands guest memory and doorbells to the backend as `SCM_RIGHTS`
//! ancillary data, which the kernel installs in the receiver together with the
//! message. Windows `AF_UNIX` sockets carry no ancillary data, so before a
//! message is sent each object is duplicated into the backend process, and the
//! resulting handle value goes into the message: wherever POSIX attaches
//! descriptors, one record of `HANDLE_RECORD_SIZE` bytes for each of them is
//! appended to the payload, in the same order. The header's `size` covers these
//! records, and nothing on the wire says how many there are.
//!
//! A handle that was duplicated for a message that is then not delivered would
//! stay in the backend with nothing to announce it. `RemoteHandles` says which
//! handles to close again.

use crate::le::law_le_value_of_le_bytes;
use crate::le::le_bytes;
use crate::le::le_value;
use crate::le::lemma_le_bytes_len;
use crate::le::lemma_pow256;
use crate::le::to_le_bytes;
use vstd::prelude::*;

verus! {

/// Size of a single handle record in a message trailer.
pub const HANDLE_RECORD_SIZE: usize = 8;

/// Declares `std::io::Error`, the error of the operating system's calls. It is
/// carried through, and never looked into.
#[verifier::external_type_specification]
#[verifier::external_body]
pub struct ExIoError(std::io::Error);

/// Handles duplicated into the peer process for one message, and not yet handed
/// over to it.
///
/// Call `commit` once the message has been written in full: from then on the
/// backend owns the handles. If that does not happen, the handles are to be
/// closed in the peer; see `handles_to_close`.
#[derive(Debug)]
pub struct RemoteHandles {
    peer: u64,
    values: Vec<u64>,
    committed: bool,
}

/// The state of a `RemoteHandles`.
pub struct RemoteHandlesView {
    /// The process that the handles are in.
    pub peer: u64,
    /// The handles, in the order in which they were duplicated.
    pub values: Seq<u64>,
    /// Whether the peer owns them.
    pub committed: bool,
}

impl View for RemoteHandles {
    type V = RemoteHandlesView;

    closed spec fn view(&self) -> RemoteHandlesView {
        RemoteHandlesView { peer: self.peer, values: self.values@, committed: self.committed }
    }
}

/// The records of a list of handles: the value of each in eight bytes, least
/// significant first.
pub open spec fn trailer_bytes(values: Seq<u64>) -> Seq<u8>
    decreases values.len(),
{
    if values.len() == 0 {
        seq![]
    } else {
        trailer_bytes(values.drop_last()) + le_bytes(values.last() as nat, 8)
    }
}

/// The handles that are left to close if the message goes no further.
pub open spec fn unclaimed(handles: RemoteHandlesView) -> Seq<u64> {
    if handles.committed {
        seq![]
    } else {
        handles.values
    }
}

/// A trailer holds one record for each handle.
pub proof fn lemma_trailer_len(values: Seq<u64>)
    ensures
        trailer_bytes(values).len() == values.len() * HANDLE_RECORD_SIZE,
    decreases values.len(),
{
    if values.len() > 0 {
        lemma_trailer_len(values.drop_last());
        lemma_le_bytes_len(values.last() as nat, 8);
    }
}

/// The backend reads from the `i`-th record the `i`-th handle that was
/// duplicated.
pub proof fn law_trailer_record(values: Seq<u64>, i: int)
    requires
        0 <= i < values.len(),
    ensures
        trailer_bytes(values).len() == values.len() * HANDLE_RECORD_SIZE,
        le_value(
            trailer_bytes(values).subrange(i * HANDLE_RECORD_SIZE, (i + 1) * HANDLE_RECORD_SIZE),
        ) == values[i],
    decreases values.len(),
{
    lemma_trailer_len(values);
    lemma_trailer_len(values.drop_last());
    lemma_le_bytes_len(values.last() as nat, 8);
    let record = trailer_bytes(values).subrange(
        i * HANDLE_RECORD_SIZE,
        (i + 1) * HANDLE_RECORD_SIZE,
    );
    if i == values.len() - 1 {
        assert(record =~= le_bytes(values.last() as nat, 8));
        lemma_pow256();
        law_le_value_of_le_bytes(values.last() as nat, 8);
    } else {
        law_trailer_record(values.drop_last(), i);
        assert(record =~= trailer_bytes(values.drop_last()).subrange(
            i * HANDLE_RECORD_SIZE,
            (i + 1) * HANDLE_RECORD_SIZE,
        ));
    }
}

impl RemoteHandles {
    /// An empty set for `peer`, a process handle that objects can be duplicated
    /// through.
    pub fn new(peer: u64) -> (handles: RemoteHandles)
        ensures
            handles@ == (RemoteHandlesView { peer, values: Seq::empty(), committed: false }),
    {
        RemoteHandles { peer, values: Vec::new(), committed: false }
    }

    /// The process that the handles are in.
    pub fn peer(&self) -> (peer: u64)
        ensures
            peer == self@.peer,
    {
        self.peer
    }

    /// Records the outcome of duplicating an object into the peer: the value of
    /// the handle there.
    pub fn duplicate(&mut self, outcome: Result<u64, std::io::Error>) -> (result: Result<
        (),
        std::io::Error,
    >)
        ensures
            match outcome {
                Ok(value) => result == Ok::<(), std::io::Error>(()) && final(self)@ == (
                RemoteHandlesView { values: old(self)@.values.push(value), ..old(self)@ }),
                Err(error) => result == Err::<(), std::io::Error>(error) && final(self)@ == old(
                    self,
                )@,
            },
    {
        match outcome {
            Ok(value) => {
                self.values.push(value);
                Ok(())
            },
            Err(error) => Err(error),
        }
    }

    /// The trailer to append to the message payload: one record per handle, in
    /// the order in which they were duplicated.
    pub fn trailer(&self) -> (trailer: Vec<u8>)
        ensures
            trailer@ == trailer_bytes(self@.values),
    {
        let mut trailer: Vec<u8> = Vec::new();
        let mut i: usize = 0;
        while i < self.values.len()
            invariant
                i <= self.values@.len(),
                trailer@ == trailer_bytes(self.values@.take(i as int)),
            decreases self.values@.len() - i,
        {
            let mut record: Vec<u8> = to_le_bytes(self.values[i], HANDLE_RECORD_SIZE);
            trailer.append(&mut record);
            proof {
                let longer = self.values@.take(i as int + 1);
                assert(longer.drop_last() =~= self.values@.take(i as int));
            }
            i = i + 1;
        }
        assert(self.values@.take(self.values@.len() as int) =~= self.values@);
        trailer
    }

    /// Number of handles held.
    pub fn len(&self) -> (len: usize)
        ensures
            len == self@.values.len(),
    {
        self.values.len()
    }

    /// Gives up ownership: the message that carries the handles was delivered,
    /// and the backend owns them.
    pub fn commit(&mut self)
        ensures
            final(self)@ == (RemoteHandlesView { committed: true, ..old(self)@ }),
    {
        self.committed = true;
    }

    /// The handles to close in the peer when this set is given up: all of them,
    /// or none if it was committed.
    pub fn handles_to_close(&self) -> (values: Vec<u64>)
        ensures
            values@ == unclaimed(self@),
    {
        let mut values: Vec<u64> = Vec::new();
        if self.committed {
            return values;
        }
        let mut i: usize = 0;
        while i < self.values.len()
            invariant
                i <= self.values@.len(),
                values@ == self.values@.take(i as int),
            decreases self.values@.len() - i,
        {
            values.push(self.values[i]);
            i = i + 1;
            assert(values@ =~= self.values@.take(i as int));
        }
        assert(self.values@.take(self.values@.len() as int) =~= self.values@);
        values
    }
}

/// Why a value does not do as a handle to the backend process.
#[derive(Debug)]
pub enum HandleError {
    /// It is null.
    Null,
    /// It names no live handle.
    NotLive(std::io::Error),
}

impl HandleError {
    /// What to say of this error, apart from the operating system's own error in
    /// it.
    pub fn message(&self) -> (message: Option<&'static str>)
        ensures
            match message {
                Some(message) => *self is Null && message@ == "backend process handle is null"@,
                None => *self is NotLive,
            },
    {
        match self {
            HandleError::Null => Some("backend process handle is null"),
            HandleError::NotLive(_) => None,
        }
    }
}

/// A handle whose liveness is to be asked of the operating system.
#[derive(Debug)]
pub struct ProcessHandleQuery {
    /// The handle.
    pub handle: usize,
}

/// Begins to adopt a handle to the backend process, named by its value.
///
/// Whoever launched the backend lets this process inherit the handle, so the
/// value means something here. A null handle is turned down at once; of any
/// other, liveness is to be asked and handed to `answered`. Whether it is a
/// process handle, and what it permits, shows when an object is duplicated
/// through it.
pub fn adopt_process_handle(value: u64) -> (query: Result<ProcessHandleQuery, HandleError>)
    ensures
        value as usize == 0 ==> query == Err::<ProcessHandleQuery, HandleError>(HandleError::Null),
        value as usize != 0 ==> query == Ok::<ProcessHandleQuery, HandleError>(
            ProcessHandleQuery { handle: value as usize },
        ),
{
    let handle: usize = value as usize;
    if handle == 0 {
        return Err(HandleError::Null);
    }
    Ok(ProcessHandleQuery { handle })
}

impl ProcessHandleQuery {
    /// The adopted handle, if it is live.
    pub fn answered(self, live: Result<(), std::io::Error>) -> (handle: Result<usize, HandleError>)
        ensures
            match live {
                Ok(_) => handle == Ok::<usize, HandleError>(self.handle),
                Err(error) => handle == Err::<usize, HandleError>(HandleError::NotLive(error)),
            },
    {
        match live {
            Ok(_) => Ok(self.handle),
            Err(error) => Err(HandleError::NotLive(error)),
        }
    }
}

} // verus!
