//! Download engine core: the per-chunk bookkeeping of a streaming transfer.
//!
//! The byte-moving loop itself performs network and file I/O and lives with
//! the caller; it feeds each chunk's size into a [`Transfer`], which maintains
//! the byte counters and produces the [`Progress`] values the caller forwards
//! to its sink. Percentages are exact integer arithmetic, clamped to
//! `[0, 100]`, and monotone over a single transfer.

use vstd::arithmetic::div_mod::lemma_div_is_ordered;
use vstd::arithmetic::mul::lemma_mul_inequality;
use vstd::prelude::*;

use crate::error::InstallerError;
use crate::error::InstallerResult;
use crate::progress::Progress;
use crate::text::all_dec_digits;
use crate::text::dec_value;
use crate::text::parse_u64;

verus! {

/// The percentage a transfer has completed: `processed / total * 100`,
/// clamped to `[0, 100]`, and 0 while the total is unknown or zero.
pub open spec fn percent_of(processed: u64, total: Option<u64>) -> int {
    match total {
        Option::None => 0,
        Option::Some(t) => if t == 0 {
            0
        } else if processed >= t {
            100
        } else {
            (processed as int * 100) / (t as int)
        },
    }
}

/// Computes [`percent_of`] exactly.
pub fn compute_percent(processed: u64, total: Option<u64>) -> (r: u64)
    ensures
        r == percent_of(processed, total),
        r <= 100,
{
    match total {
        Option::None => 0,
        Option::Some(t) => {
            if t == 0 {
                0
            } else if processed >= t {
                100
            } else {
                let wide: u128 = (processed as u128) * 100 / (t as u128);
                proof {
                    lemma_mul_inequality(processed as int, u64::MAX as int, 100);
                    lemma_div_is_ordered(
                        processed as int * 100,
                        t as int * 100,
                        t as int,
                    );
                    lemma_mul_inequality(processed as int, t as int, 100);
                    assert(t as int * 100 / (t as int) == 100) by (nonlinear_arith)
                        requires t > 0;
                    assert(processed as int * 100 / (t as int) <= 100);
                }
                wide as u64
            }
        },
    }
}

/// Percentages are monotone in the processed byte count.
///
/// Within a single transfer the total never changes and the byte counter only
/// grows, so each emitted percentage is at least the previous one.
pub proof fn lemma_percent_monotone(p1: u64, p2: u64, total: Option<u64>)
    requires
        p1 <= p2,
    ensures
        percent_of(p1, total) <= percent_of(p2, total),
{
    match total {
        Option::None => {},
        Option::Some(t) => {
            if t > 0 && p2 < t {
                lemma_mul_inequality(p1 as int, p2 as int, 100);
                lemma_div_is_ordered(p1 as int * 100, p2 as int * 100, t as int);
            } else if t > 0 && p1 < t && p2 >= t {
                lemma_mul_inequality(p1 as int, t as int, 100);
                lemma_div_is_ordered(p1 as int * 100, t as int * 100, t as int);
                assert(t as int * 100 / (t as int) == 100) by (nonlinear_arith)
                    requires t > 0;
            }
        },
    }
}

/// A transfer that has processed exactly its total reports exactly 100.
pub proof fn lemma_percent_complete(total: u64)
    requires
        total > 0,
    ensures
        percent_of(total, Some(total)) == 100,
{
}

/// A transfer that has processed less than its total reports less than 100.
pub proof fn lemma_percent_partial(processed: u64, total: u64)
    requires
        0 < total,
        processed < total,
    ensures
        percent_of(processed, Some(total)) < 100,
{
    lemma_mul_inequality(processed as int, total as int - 1, 100);
    lemma_div_is_ordered((processed as int) * 100, (total as int - 1) * 100, total as int);
    assert((total as int - 1) * 100 / (total as int) <= 99) by (nonlinear_arith)
        requires total > 0;
}

/// One file transfer in flight: its expected total and its byte counter.
pub struct Transfer {
    /// Total size in bytes, when the remote side reported one.
    pub total: Option<u64>,
    /// Bytes written to the destination so far.
    pub processed: u64,
}

impl Transfer {
    /// Starts a transfer with the given expected total.
    ///
    /// Callers that could not learn a total pass `None`; the percentage then
    /// stays at 0 while byte counters still advance.
    pub fn begin(total: Option<u64>) -> (r: Transfer)
        ensures
            r.total == total,
            r.processed == 0,
    {
        Transfer { total, processed: 0 }
    }

    /// Accounts for one chunk of `n` bytes and returns the progress snapshot
    /// to report: the new percentage and byte counters.
    ///
    /// The returned percentage is at least the one before the chunk.
    pub fn record_chunk(&mut self, n: u64) -> (p: Progress)
        requires
            old(self).processed + n <= u64::MAX,
        ensures
            final(self).total == old(self).total,
            final(self).processed == old(self).processed + n,
            p.current == percent_of(final(self).processed, final(self).total),
            p.current >= percent_of(old(self).processed, old(self).total),
            p.total_bytes == final(self).total,
            p.processed_bytes == final(self).processed,
            p.message is None,
    {
        proof {
            lemma_percent_monotone(self.processed, (self.processed + n) as u64, self.total);
        }
        self.processed = self.processed + n;
        let percent = compute_percent(self.processed, self.total);
        let mut p = Progress::new(percent);
        p.processed_bytes = self.processed;
        p.total_bytes = self.total;
        p
    }

    /// The percentage the transfer currently stands at.
    pub fn percent(&self) -> (r: u64)
        ensures
            r == percent_of(self.processed, self.total),
    {
        compute_percent(self.processed, self.total)
    }
}

/// A single transfer request: where to fetch from, where to write to, and
/// the digest the result must match, if any.
#[derive(Debug, Clone, PartialEq, Eq)]
pub struct DownloadTask {
    /// Source URL.
    pub url: String,
    /// Local destination path.
    pub destination: String,
    /// Expected digest of the downloaded file, hex-encoded, if the transfer
    /// is to be verified.
    pub expected_checksum: Option<String>,
}

impl DownloadTask {
    /// Creates a transfer request.
    pub fn new(url: String, destination: String, expected_checksum: Option<String>) -> (r:
        DownloadTask)
        ensures
            r.url == url,
            r.destination == destination,
            r.expected_checksum == expected_checksum,
    {
        DownloadTask { url, destination, expected_checksum }
    }
}

/// Whether an HTTP status code reports success.
pub fn is_success_status(code: u16) -> (r: bool)
    ensures
        r == (200 <= code && code < 300),
{
    200 <= code && code < 300
}

/// Decides a remote-size probe from the `content-length` header it returned.
///
/// Succeeds exactly when the header is present and is a decimal numeral that
/// fits in a `u64`; otherwise the size cannot be determined and the probe
/// fails as a download error.
pub fn remote_size_from_header(header: Option<&String>) -> (r: InstallerResult<u64>)
    ensures
        r is Ok <==> (header matches Some(h) && h@.len() > 0 && all_dec_digits(h@) && dec_value(h@)
            <= u64::MAX),
        r matches Ok(v) ==> (header matches Some(h) && v == dec_value(h@)),
        r is Err ==> (r matches Err(e) && e matches InstallerError::Download(_)),
{
    match header {
        Option::Some(h) => match parse_u64(h.as_str()) {
            Option::Some(v) => Ok(v),
            Option::None => Err(
                InstallerError::Download(String::from_str("invalid content-length header")),
            ),
        },
        Option::None => Err(
            InstallerError::Download(String::from_str("content-length header missing")),
        ),
    }
}

/// The percentage a batch of transfers has completed, where `base` bytes from
/// earlier transfers and `processed` bytes of the one in flight count against
/// a combined `total`; the sum saturates rather than overflows.
pub open spec fn batch_percent_of(base: u64, processed: u64, total: u64) -> int {
    if base + processed <= u64::MAX {
        percent_of((base + processed) as u64, Some(total))
    } else {
        percent_of(u64::MAX, Some(total))
    }
}

/// Computes [`batch_percent_of`] exactly: the overall percentage across a
/// batch of transfers issued one after another.
pub fn overall_percent(base: u64, processed: u64, total: u64) -> (r: u64)
    ensures
        r == batch_percent_of(base, processed, total),
        r <= 100,
{
    let done = match base.checked_add(processed) {
        Some(v) => v,
        None => u64::MAX,
    };
    compute_percent(done, Some(total))
}

/// A batch of transfers issued one after another: the combined total and
/// the bytes already banked by finished transfers.
///
/// While one transfer is in flight, its own byte counter is added on top of
/// the banked bytes to yield the aggregate percentage.
pub struct BatchTransfer {
    /// The combined size of every transfer in the batch.
    pub total: u64,
    /// Bytes of the transfers that already finished.
    pub downloaded: u64,
}

impl BatchTransfer {
    /// Starts a batch against a combined total.
    pub fn new(total: u64) -> (r: BatchTransfer)
        ensures
            r.total == total,
            r.downloaded == 0,
    {
        BatchTransfer { total, downloaded: 0 }
    }

    /// The aggregate percentage while the in-flight transfer has processed
    /// the given bytes.
    pub fn overall(&self, processed: u64) -> (r: u64)
        ensures
            r == batch_percent_of(self.downloaded, processed, self.total),
            r <= 100,
    {
        overall_percent(self.downloaded, processed, self.total)
    }

    /// Banks a finished transfer of the given size; the counter saturates
    /// rather than overflows.
    pub fn complete_item(&mut self, size: u64)
        ensures
            final(self).total == old(self).total,
            final(self).downloaded == if old(self).downloaded + size <= u64::MAX {
                old(self).downloaded + size
            } else {
                u64::MAX as int
            },
    {
        self.downloaded = self.downloaded.saturating_add(size);
    }
}

} // verus!
