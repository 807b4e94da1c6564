//! One year task's progress state: label, phase message, and clamped byte
//! accounting for the file being downloaded. Owned by its task alone; a
//! display may read it, never write it.

use vstd::prelude::*;

verus! {

/// Per-year progress: the task's label, the total and transferred byte
/// counts of the file in flight, the phase message, and whether the task
/// has finished.
pub struct ProgressState {
    /// The academic-year label the display shows for the year.
    pub label: String,
    /// Total byte count of the file in flight; unknown until the response
    /// headers arrive.
    pub total: Option<u64>,
    /// Bytes transferred so far for the file in flight.
    pub transferred: u64,
    /// Human-readable phase message.
    pub message: String,
    /// Whether the task reached a terminal state.
    pub done: bool,
}

impl ProgressState {
    /// Transferred bytes never exceed the declared total, and nothing is
    /// transferred before a total is declared.
    pub open spec fn wf(&self) -> bool {
        match self.total {
            Some(t) => self.transferred <= t,
            None => self.transferred == 0,
        }
    }

    /// A fresh reporter for one task: no total, nothing transferred.
    pub fn new(label: String) -> (r: Self)
        ensures
            r.wf(),
            r.label == label,
            r.total is None,
            r.transferred == 0,
            r.message@ == Seq::<char>::empty(),
            !r.done,
    {
        ProgressState { label, total: None, transferred: 0, message: String::new(), done: false }
    }

    /// Replaces the phase message.
    pub fn set_message(&mut self, message: String)
        ensures
            *final(self) == (ProgressState { message, ..*old(self) }),
    {
        self.message = message;
    }

    /// Starts accounting one file: declares its total and clears the count.
    pub fn begin_file(&mut self, total: u64)
        ensures
            *final(self) == (ProgressState {
                total: Some(total),
                transferred: 0,
                ..*old(self)
            }),
            final(self).wf(),
    {
        self.total = Some(total);
        self.transferred = 0;
    }

    /// Clears the per-file counters between two downloads.
    pub fn reset_file(&mut self)
        ensures
            *final(self) == (ProgressState { total: None, transferred: 0, ..*old(self) }),
            final(self).wf(),
    {
        self.total = None;
        self.transferred = 0;
    }

    /// Accounts one received chunk: the transferred count grows by the
    /// chunk's length, clamped so it never exceeds the declared total.
    /// Returns the new position.
    pub fn record_chunk(&mut self, len: usize) -> (pos: u64)
        requires
            old(self).wf(),
            old(self).total is Some,
        ensures
            final(self).label == old(self).label,
            final(self).total == old(self).total,
            final(self).message == old(self).message,
            final(self).done == old(self).done,
            final(self).transferred == spec_clamped_add(
                old(self).total->Some_0 as nat,
                old(self).transferred as nat,
                len as nat,
            ),
            old(self).transferred <= final(self).transferred <= old(self).total->Some_0,
            final(self).wf(),
            pos == final(self).transferred,
    {
        let total = match self.total {
            Some(t) => t,
            None => 0,
        };
        let room = total - self.transferred;
        if len as u64 >= room {
            self.transferred = total;
        } else {
            self.transferred = self.transferred + len as u64;
        }
        self.transferred
    }

    /// Marks the task finished with a final message.
    pub fn finish(&mut self, message: String)
        ensures
            *final(self) == (ProgressState { message, done: true, ..*old(self) }),
    {
        self.message = message;
        self.done = true;
    }
}

/// One clamped step: `transferred` grown by `len`, capped at `total`.
pub open spec fn spec_clamped_add(total: nat, transferred: nat, len: nat) -> nat {
    if transferred + len <= total {
        transferred + len
    } else {
        total
    }
}

/// The position reported after a sequence of chunks, all clamped at `total`.
pub open spec fn spec_progress_after(total: nat, chunks: Seq<nat>) -> nat
    decreases chunks.len(),
{
    if chunks.len() == 0 {
        0
    } else {
        spec_clamped_add(total, spec_progress_after(total, chunks.drop_last()), chunks.last())
    }
}

/// The sum of a sequence of chunk lengths.
pub open spec fn spec_chunk_sum(chunks: Seq<nat>) -> nat
    decreases chunks.len(),
{
    if chunks.len() == 0 {
        0
    } else {
        spec_chunk_sum(chunks.drop_last()) + chunks.last()
    }
}

/// Progress reporting is sound and exact: the reported position never
/// exceeds the total; when the body delivers at most `total` bytes the
/// position is exactly the byte count received, so a body of exactly
/// `total` bytes reports exactly `total`.
pub proof fn lemma_progress_bounded_and_exact(total: nat, chunks: Seq<nat>)
    ensures
        spec_progress_after(total, chunks) <= total,
        spec_chunk_sum(chunks) <= total ==> spec_progress_after(total, chunks) == spec_chunk_sum(
            chunks,
        ),
        spec_chunk_sum(chunks) >= total ==> spec_progress_after(total, chunks) == total,
    decreases chunks.len(),
{
    if chunks.len() > 0 {
        lemma_progress_bounded_and_exact(total, chunks.drop_last());
    }
}

/// The reported position grows monotonically as chunks arrive.
pub proof fn lemma_progress_monotone(total: nat, chunks: Seq<nat>, i: int, j: int)
    requires
        0 <= i <= j <= chunks.len(),
    ensures
        spec_progress_after(total, chunks.take(i)) <= spec_progress_after(total, chunks.take(j)),
    decreases j - i,
{
    if i < j {
        lemma_progress_monotone(total, chunks, i, j - 1);
        assert(chunks.take(j).drop_last() =~= chunks.take(j - 1));
        lemma_progress_bounded_and_exact(total, chunks.take(j - 1));
    }
}

} // verus!
