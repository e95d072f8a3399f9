//! Resumable download engine.
//!
//! The engine is a state machine over plain byte counts. The shell around it
//! performs the HTTP requests and file writes and reports back what it saw
//! (content lengths, the response status, each chunk's size); every decision —
//! what size to trust, where to resume, when to restart from zero, what
//! progress to report — is made here and verified.

use vstd::prelude::*;

verus! {

/// A progress report handed to observers: bytes on disk so far, and the
/// total the server declared.
#[derive(Clone, Copy, Debug, PartialEq, Eq, Structural)]
pub struct Progress {
    pub downloaded: u64,
    pub total: u64,
}

/// Why a download attempt stopped without completing.
#[derive(Clone, Debug)]
pub enum DownloadError {
    /// Neither the metadata request nor the fallback fetch declared a size.
    SizeUnknown,
    /// The request itself failed (transport, DNS, timeout); the cause string
    /// is whatever the shell observed.
    Network(String),
    /// The server answered with a non-success HTTP status.
    Server(u16),
    /// A filesystem read or write failed; the cause string is the shell's.
    Io(String),
}

/// An in-flight transfer: how many bytes are on disk and how many are owed.
#[derive(Clone, Copy, Debug, PartialEq, Eq, Structural)]
pub struct Transfer {
    pub downloaded: u64,
    pub total: u64,
}

impl Transfer {
    /// Byte counts a live transfer maintains: never more on disk than owed,
    /// and a known, non-zero total.
    pub open spec fn wf(self) -> bool {
        self.downloaded <= self.total && 0 < self.total
    }
}

/// The first decision of a run: either the file is already whole, or a fetch
/// is due, possibly restricted to the remaining byte range.
#[derive(Clone, Debug, PartialEq, Eq, Structural)]
pub enum StartPlan {
    /// The partial file already holds every byte; report completion once and
    /// transfer nothing.
    AlreadyComplete { event: Progress },
    /// Fetch, resuming at `transfer.downloaded`; `event` is the baseline
    /// progress to emit before any byte moves, and `range_start` is the byte
    /// offset to request from the server, if any.
    Fetch { transfer: Transfer, event: Progress, range_start: Option<u64> },
}

/// How to react to the content fetch's HTTP status.
#[derive(Clone, Debug)]
pub enum RangeOutcome {
    /// Non-success status: abort, leaving the partial file for a later resume.
    Failed { error: DownloadError },
    /// The server ignored the range request: drop the partial file, start the
    /// transfer over at offset zero and report the reset.
    Restarted { transfer: Transfer, event: Progress },
    /// Proceed with the transfer as planned.
    Accepted { transfer: Transfer },
}

/// The HTTP status a server uses to honor a byte-range request.
pub const PARTIAL_CONTENT: u16 = 206;

/// Success statuses, as HTTP defines them.
pub open spec fn status_success(status: u16) -> bool {
    200 <= status < 300
}

/// The size the engine trusts: the metadata request's declared length if it
/// gave one, else the fallback fetch's, else nothing. An absent or zero
/// length counts as undeclared.
pub open spec fn spec_total_size(head_len: Option<u64>, fallback_len: Option<u64>) -> Result<
    u64,
    DownloadError,
> {
    let h: u64 = match head_len {
        Option::Some(n) => n,
        Option::None => 0,
    };
    let g: u64 = match fallback_len {
        Option::Some(n) => n,
        Option::None => 0,
    };
    if 0 < h {
        Result::Ok(h)
    } else if 0 < g {
        Result::Ok(g)
    } else {
        Result::Err(DownloadError::SizeUnknown)
    }
}

/// Settle the total size from the two content lengths the shell observed.
/// Fails with `SizeUnknown` exactly when neither request declared a size.
pub fn determine_total(head_len: Option<u64>, fallback_len: Option<u64>) -> (r: Result<
    u64,
    DownloadError,
>)
    ensures
        r == spec_total_size(head_len, fallback_len),
{
    let h: u64 = match head_len {
        Option::Some(n) => n,
        Option::None => 0,
    };
    if h > 0 {
        return Result::Ok(h);
    }
    let g: u64 = match fallback_len {
        Option::Some(n) => n,
        Option::None => 0,
    };
    if g > 0 {
        return Result::Ok(g);
    }
    Result::Err(DownloadError::SizeUnknown)
}

/// The opening move, given the declared total and the partial file's length
/// (`None` when no file is on disk): completion without transfer when the
/// file already holds `total` bytes or more, else a fetch resuming at the
/// partial length, ranged exactly when that length is non-zero.
pub open spec fn spec_begin(total: u64, local_len: Option<u64>) -> StartPlan {
    let d: u64 = match local_len {
        Option::Some(n) => n,
        Option::None => 0,
    };
    if total <= d {
        StartPlan::AlreadyComplete { event: Progress { downloaded: total, total } }
    } else {
        StartPlan::Fetch {
            transfer: Transfer { downloaded: d, total },
            event: Progress { downloaded: d, total },
            range_start: if 0 < d {
                Option::Some(d)
            } else {
                Option::None
            },
        }
    }
}

/// Decide how the run starts. See [`spec_begin`] for the exact plan.
pub fn begin(total: u64, local_len: Option<u64>) -> (r: StartPlan)
    requires
        0 < total,
    ensures
        r == spec_begin(total, local_len),
        r matches StartPlan::Fetch { transfer, .. } ==> transfer.wf(),
{
    let d: u64 = match local_len {
        Option::Some(n) => n,
        Option::None => 0,
    };
    if d >= total {
        StartPlan::AlreadyComplete { event: Progress { downloaded: total, total } }
    } else {
        StartPlan::Fetch {
            transfer: Transfer { downloaded: d, total },
            event: Progress { downloaded: d, total },
            range_start: if d > 0 {
                Option::Some(d)
            } else {
                Option::None
            },
        }
    }
}

/// The reaction the fetch's status demands: failure on a non-success status;
/// a restart from offset zero when a resume was requested but the server did
/// not answer with partial content; otherwise proceed unchanged.
pub open spec fn spec_on_status(t: Transfer, status: u16) -> RangeOutcome {
    if !status_success(status) {
        RangeOutcome::Failed { error: DownloadError::Server(status) }
    } else if 0 < t.downloaded && status != PARTIAL_CONTENT {
        RangeOutcome::Restarted {
            transfer: Transfer { downloaded: 0, total: t.total },
            event: Progress { downloaded: 0, total: t.total },
        }
    } else {
        RangeOutcome::Accepted { transfer: t }
    }
}

/// React to the content fetch's HTTP status. See [`spec_on_status`].
pub fn on_status(t: Transfer, status: u16) -> (r: RangeOutcome)
    requires
        t.wf(),
    ensures
        r == spec_on_status(t, status),
        r matches RangeOutcome::Restarted { transfer, .. } ==> transfer.wf(),
        r matches RangeOutcome::Accepted { transfer } ==> transfer.wf(),
{
    if !(200 <= status && status < 300) {
        RangeOutcome::Failed { error: DownloadError::Server(status) }
    } else if t.downloaded > 0 && status != PARTIAL_CONTENT {
        RangeOutcome::Restarted {
            transfer: Transfer { downloaded: 0, total: t.total },
            event: Progress { downloaded: 0, total: t.total },
        }
    } else {
        RangeOutcome::Accepted { transfer: t }
    }
}

/// A chunk of `len` bytes advances the counter, capped at the declared total
/// so the reported progress never overshoots what is owed.
pub open spec fn spec_apply_chunk(t: Transfer, len: u64) -> Transfer {
    if t.downloaded + len <= t.total {
        Transfer { downloaded: (t.downloaded + len) as u64, total: t.total }
    } else {
        Transfer { downloaded: t.total, total: t.total }
    }
}

impl Transfer {
    /// Record that `len` more bytes reached the disk. The counter never
    /// decreases and never passes the total.
    pub fn apply_chunk(&mut self, len: u64)
        requires
            old(self).wf(),
        ensures
            *final(self) == spec_apply_chunk(*old(self), len),
            final(self).wf(),
            old(self).downloaded <= final(self).downloaded,
    {
        let room = self.total - self.downloaded;
        if len <= room {
            self.downloaded = self.downloaded + len;
        } else {
            self.downloaded = self.total;
        }
    }

    /// The progress report for the current counter.
    pub fn progress(&self) -> (p: Progress)
        ensures
            p == (Progress { downloaded: self.downloaded, total: self.total }),
    {
        Progress { downloaded: self.downloaded, total: self.total }
    }

    /// The one unconditional report at the end of streaming: the full total,
    /// whatever rate limiting withheld along the way.
    pub fn completion_event(&self) -> (p: Progress)
        ensures
            p == (Progress { downloaded: self.total, total: self.total }),
    {
        Progress { downloaded: self.total, total: self.total }
    }
}

/// Progress reports during streaming are paced: one is due only when more
/// than 200 milliseconds have passed since the last, keeping the rate at
/// most about five per second.
pub fn should_emit(elapsed_millis: u128) -> (b: bool)
    ensures
        b == (200 < elapsed_millis),
{
    elapsed_millis > 200
}

/// Resumption is exact: for any partial length `0 < d < total`, the run's
/// opening plan resumes the counter at `d` and requests the byte range
/// starting at `d` — bytes `[0, d)` are never requested again — and a server
/// that honors the range (partial-content status) leaves the resume offset
/// untouched.
pub proof fn lemma_resume_from_partial(total: u64, d: u64)
    requires
        0 < d < total,
    ensures
        spec_begin(total, Some(d)) == (StartPlan::Fetch {
            transfer: Transfer { downloaded: d, total },
            event: Progress { downloaded: d, total },
            range_start: Some(d),
        }),
        spec_on_status(Transfer { downloaded: d, total }, PARTIAL_CONTENT)
            == (RangeOutcome::Accepted { transfer: Transfer { downloaded: d, total } }),
{
}

/// Re-running a finished download is idempotent: when the partial file
/// already holds `total` bytes or more, the plan is completion alone — a
/// single `(total, total)` report and no transfer.
pub proof fn lemma_idempotent_when_complete(total: u64, d: u64)
    requires
        0 < total <= d,
    ensures
        spec_begin(total, Some(d)) == (StartPlan::AlreadyComplete {
            event: Progress { downloaded: total, total },
        }),
{
}

/// Progress is monotone and bounded: a chunk never moves the counter
/// backwards and never past the declared total.
pub proof fn lemma_progress_monotone(t: Transfer, len: u64)
    requires
        t.wf(),
    ensures
        t.downloaded <= spec_apply_chunk(t, len).downloaded,
        spec_apply_chunk(t, len).downloaded <= t.total,
        spec_apply_chunk(t, len).total == t.total,
{
}

/// The state after a whole stream of chunks is applied in order.
pub open spec fn spec_apply_chunks(t: Transfer, lens: Seq<u64>) -> Transfer
    decreases lens.len(),
{
    if lens.len() == 0 {
        t
    } else {
        spec_apply_chunks(spec_apply_chunk(t, lens[0]), lens.drop_first())
    }
}

/// The byte count a stream of chunks carries.
pub open spec fn sum_of(lens: Seq<u64>) -> int
    decreases lens.len(),
{
    if lens.len() == 0 {
        0
    } else {
        lens[0] + sum_of(lens.drop_first())
    }
}

/// A whole stream accumulates exactly: the counter ends at the bytes
/// carried plus the resume offset, capped at the total — so a server that
/// delivers the remaining range brings the counter to exactly the total,
/// and the counter stays within bounds whatever the server sends.
pub proof fn lemma_stream_accumulates(t: Transfer, lens: Seq<u64>)
    requires
        t.wf(),
    ensures
        spec_apply_chunks(t, lens).total == t.total,
        spec_apply_chunks(t, lens).wf(),
        spec_apply_chunks(t, lens).downloaded as int == if t.downloaded + sum_of(lens)
            <= t.total {
            t.downloaded + sum_of(lens)
        } else {
            t.total as int
        },
    decreases lens.len(),
{
    if lens.len() > 0 {
        lemma_sum_of_nonneg(lens.drop_first());
        lemma_stream_accumulates(spec_apply_chunk(t, lens[0]), lens.drop_first());
    }
}

proof fn lemma_sum_of_nonneg(lens: Seq<u64>)
    ensures
        sum_of(lens) >= 0,
    decreases lens.len(),
{
    if lens.len() > 0 {
        lemma_sum_of_nonneg(lens.drop_first());
    }
}

} // verus!
