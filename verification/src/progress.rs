//! The byte counter that follows a download while it is copied.
//!
//! The counter only observes: each read that the transfer makes is reported to it with its
//! outcome, and it advances by the number of bytes that the read returned.

use vstd::prelude::*;

verus! {

/// How one read from the source ended.
#[derive(Clone, Copy, Debug, PartialEq, Eq)]
pub enum ReadOutcome {
    /// The read returned this many bytes.
    Bytes(usize),
    /// The read failed.
    Failed,
}

/// The progress of one download: the bytes expected, the bytes read so far, and whether the
/// download has been marked as finished. The count stops at `u64::MAX`.
#[derive(Clone, Copy, Debug, PartialEq, Eq)]
pub struct DownloadProgress {
    pub total: u64,
    pub position: u64,
    pub finished: bool,
}

/// The number of bytes that a read with this outcome delivered.
pub open spec fn bytes_of(outcome: ReadOutcome) -> nat {
    match outcome {
        ReadOutcome::Bytes(n) => n as nat,
        ReadOutcome::Failed => 0,
    }
}

/// The number of bytes that the reads delivered in all.
pub open spec fn bytes_read(outcomes: Seq<ReadOutcome>) -> nat
    decreases outcomes.len(),
{
    if outcomes.len() == 0 {
        0
    } else {
        bytes_read(outcomes.drop_last()) + bytes_of(outcomes.last())
    }
}

impl DownloadProgress {
    /// The progress after one more read with the given outcome.
    pub open spec fn recorded(self, outcome: ReadOutcome) -> DownloadProgress {
        DownloadProgress {
            total: self.total,
            position: if self.position + bytes_of(outcome) <= u64::MAX {
                (self.position + bytes_of(outcome)) as u64
            } else {
                u64::MAX
            },
            finished: self.finished,
        }
    }

    /// The progress after the given reads, in their order.
    pub open spec fn recorded_all(self, outcomes: Seq<ReadOutcome>) -> DownloadProgress
        decreases outcomes.len(),
    {
        if outcomes.len() == 0 {
            self
        } else {
            self.recorded_all(outcomes.drop_last()).recorded(outcomes.last())
        }
    }

    /// A counter for a download of `total` bytes, with nothing read yet.
    pub fn new(total: u64) -> (out: DownloadProgress)
        ensures
            out == (DownloadProgress { total, position: 0, finished: false }),
    {
        DownloadProgress { total, position: 0, finished: false }
    }

    /// Takes note of one read and returns the number of bytes by which the counter advanced:
    /// the bytes that the read returned, none where it failed.
    pub fn record(&mut self, outcome: ReadOutcome) -> (advance: u64)
        ensures
            *final(self) == old(self).recorded(outcome),
            advance == final(self).position - old(self).position,
    {
        let before = self.position;
        let delta: u64 = match outcome {
            ReadOutcome::Bytes(n) => n as u64,
            ReadOutcome::Failed => 0,
        };
        self.position = if delta <= u64::MAX - before {
            before + delta
        } else {
            u64::MAX
        };
        self.position - before
    }

    /// Marks the download as finished. The count stays as it is.
    pub fn finish(&mut self)
        ensures
            *final(self) == (DownloadProgress { finished: true, ..*old(self) }),
    {
        self.finished = true;
    }
}

/// A counter never moves back, and a failed read leaves it where it was.
pub proof fn lemma_record_monotone(progress: DownloadProgress, outcome: ReadOutcome)
    ensures
        progress.recorded(outcome).position >= progress.position,
        progress.recorded(outcome).total == progress.total,
        outcome is Failed ==> progress.recorded(outcome) == progress,
{
}

/// After any number of reads, a counter that started at nothing stands at the number of
/// bytes that the reads delivered, as long as that number fits the counter.
pub proof fn lemma_position_is_bytes_read(total: u64, outcomes: Seq<ReadOutcome>)
    requires
        bytes_read(outcomes) <= u64::MAX,
    ensures
        (DownloadProgress { total, position: 0, finished: false }).recorded_all(
            outcomes,
        ).position == bytes_read(outcomes),
    decreases outcomes.len(),
{
    if outcomes.len() > 0 {
        lemma_position_is_bytes_read(total, outcomes.drop_last());
    }
}

} // verus!
