//! The bookkeeping of asset transfers: how far each has come, how it ended,
//! and what two transfers amount to together.

use crate::error::InstallError;
use vstd::prelude::*;

verus! {

/// The byte count of the transfers of one install, shared by all of them.
#[derive(Clone, Copy, Debug, PartialEq, Eq, Structural)]
pub struct Progress {
    /// The bytes announced by the transfers that announced a length.
    pub expected: u64,
    /// The bytes stored so far.
    pub received: u64,
}

impl Progress {
    /// The count before any transfer.
    pub fn new() -> (progress: Progress)
        ensures
            progress == (Progress { expected: 0, received: 0 }),
    {
        Progress { expected: 0, received: 0 }
    }

    /// Counts in the announced length of one more transfer; a transfer that
    /// announces none counts as empty.
    pub fn announce(&mut self, content_length: Option<u64>)
        requires
            old(self).expected + content_length.unwrap_or(0) <= u64::MAX,
        ensures
            final(self).expected == old(self).expected + content_length.unwrap_or(0),
            final(self).received == old(self).received,
    {
        let length = match content_length {
            Some(length) => length,
            None => 0,
        };
        self.expected = self.expected + length;
    }

    /// Whether a chunk of `len` bytes can still be counted in.
    pub fn has_room(&self, len: u64) -> (room: bool)
        ensures
            room == (self.received + len <= u64::MAX),
    {
        len <= u64::MAX - self.received
    }

    /// Counts in a chunk of `len` bytes that was stored.
    pub fn record(&mut self, len: u64)
        requires
            old(self).received + len <= u64::MAX,
        ensures
            final(self).received == old(self).received + len,
            final(self).expected == old(self).expected,
    {
        self.received = self.received + len;
    }
}

/// How far the transfer of one asset has come.
#[derive(Clone, Copy, Debug, PartialEq, Eq, Structural)]
pub enum Transfer {
    /// Chunks are still arriving; `written` bytes are stored.
    Streaming { written: u64 },
    /// The stream ended and all `written` bytes are stored.
    Complete { written: u64 },
    /// The transfer was given up.
    Aborted { reason: InstallError },
}

/// What happens to a transfer.
#[derive(Clone, Copy, Debug, PartialEq, Eq, Structural)]
pub enum TransferEvent {
    /// A chunk of `len` bytes arrived and was stored.
    ChunkStored { len: u64 },
    /// A chunk arrived and could not be stored.
    StoreFailed,
    /// The stream broke off.
    StreamFailed,
    /// The stream ended.
    StreamEnded,
}

impl Transfer {
    /// The transfer after `event`. Chunks add up in the order of their
    /// arrival; a chunk that cannot be stored, or a broken stream, gives the
    /// transfer up; a transfer that is over stays as it is.
    pub open spec fn after(self, event: TransferEvent) -> Transfer {
        match self {
            Transfer::Streaming { written } => match event {
                TransferEvent::ChunkStored { len } => Transfer::Streaming {
                    written: (written + len) as u64,
                },
                TransferEvent::StoreFailed => Transfer::Aborted {
                    reason: InstallError::WriteFailed,
                },
                TransferEvent::StreamFailed => Transfer::Aborted {
                    reason: InstallError::Transport,
                },
                TransferEvent::StreamEnded => Transfer::Complete { written },
            },
            _ => self,
        }
    }

    /// Whether `event` would count in a chunk past what a byte count holds.
    pub open spec fn overflows(self, event: TransferEvent) -> bool {
        self matches Transfer::Streaming { written } && event matches TransferEvent::ChunkStored {
            len,
        } && written + len > u64::MAX
    }

    /// A transfer of which nothing has arrived.
    pub fn begin() -> (transfer: Transfer)
        ensures
            transfer == (Transfer::Streaming { written: 0 }),
    {
        Transfer::Streaming { written: 0 }
    }

    /// Whether `event` can be taken in: whether the bytes stored still fit a
    /// byte count with it.
    pub fn fits(&self, event: &TransferEvent) -> (fits: bool)
        ensures
            fits == !self.overflows(*event),
    {
        match (self, event) {
            (Transfer::Streaming { written }, TransferEvent::ChunkStored { len }) => *len
                <= u64::MAX - *written,
            _ => true,
        }
    }

    /// Takes `event` in.
    pub fn step(self, event: TransferEvent) -> (next: Transfer)
        requires
            !self.overflows(event),
        ensures
            next == self.after(event),
    {
        match self {
            Transfer::Streaming { written } => match event {
                TransferEvent::ChunkStored { len } => Transfer::Streaming { written: written + len },
                TransferEvent::StoreFailed => Transfer::Aborted {
                    reason: InstallError::WriteFailed,
                },
                TransferEvent::StreamFailed => Transfer::Aborted {
                    reason: InstallError::Transport,
                },
                TransferEvent::StreamEnded => Transfer::Complete { written },
            },
            _ => self,
        }
    }

    /// Whether more of this transfer is to come.
    pub fn is_streaming(&self) -> (streaming: bool)
        ensures
            streaming == (*self is Streaming),
    {
        match self {
            Transfer::Streaming { .. } => true,
            _ => false,
        }
    }

    /// How this transfer ended: the bytes stored, or why it was given up. A
    /// transfer that is cut short while streaming counts as a broken stream.
    pub fn outcome(&self) -> (outcome: Result<u64, InstallError>)
        ensures
            outcome == match *self {
                Transfer::Complete { written } => Ok::<u64, InstallError>(written),
                Transfer::Aborted { reason } => Err(reason),
                Transfer::Streaming { .. } => Err(InstallError::Transport),
            },
    {
        match self {
            Transfer::Complete { written } => Ok(*written),
            Transfer::Aborted { reason } => Err(*reason),
            Transfer::Streaming { .. } => Err(InstallError::Transport),
        }
    }
}

/// What the transfers of the archive and of the checksum amount to: success
/// where both succeeded, else the failure of the archive's, else that of the
/// checksum's. Neither transfer is cut short by the other's failure; both
/// outcomes are awaited and the first failure is reported.
pub fn join_transfers(
    archive: Result<u64, InstallError>,
    checksum: Result<u64, InstallError>,
) -> (joined: Result<(), InstallError>)
    ensures
        joined == match (archive, checksum) {
            (Err(reason), _) => Err::<(), InstallError>(reason),
            (Ok(_), Err(reason)) => Err(reason),
            (Ok(_), Ok(_)) => Ok(()),
        },
{
    match archive {
        Err(reason) => Err(reason),
        Ok(_) => match checksum {
            Err(reason) => Err(reason),
            Ok(_) => Ok(()),
        },
    }
}

/// While no chunk fails, a transfer holds the sum of its chunks: after a run
/// of stored chunks that a byte count can hold, the bytes written are the
/// bytes before plus the lengths of the chunks, in any grouping.
pub proof fn chunks_add_up(written: u64, first: u64, second: u64)
    requires
        written + first + second <= u64::MAX,
    ensures
        (Transfer::Streaming { written }).after(TransferEvent::ChunkStored { len: first }).after(
            TransferEvent::ChunkStored { len: second },
        ) == (Transfer::Streaming { written: (written + first + second) as u64 }),
{
}

/// A transfer that is over is not changed by anything that happens later.
pub proof fn ended_transfer_stays(transfer: Transfer, event: TransferEvent)
    requires
        !(transfer is Streaming),
    ensures
        transfer.after(event) == transfer,
{
}

} // verus!
