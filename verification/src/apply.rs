use vstd::prelude::*;

use crate::error::{apply_error_of, ApplyError, ScopeError};

verus! {

/// Result of a successful apply operation.
#[derive(Debug)]
pub struct ApplyResult {
    /// Total number of bytes written to the file.
    pub bytes_written: usize,
    /// xxh3_64 hash of the matched scope (lowercase 16-char hex).
    pub scope_hash: String,
}

/// What an AnchorScope `read` of the anchored scope reports.
#[derive(Debug)]
pub struct ScopeRead {
    /// Hash of the matched scope.
    pub scope_hash: String,
}

/// What an AnchorScope `write` of the anchored scope reports.
#[derive(Debug)]
pub struct ScopeWrite {
    /// Total number of bytes written to the file.
    pub bytes_written: usize,
}

/// The next thing an apply does after its `read`.
#[derive(Debug)]
pub enum ApplyStep<'a> {
    /// Write `replacement` over the scope that `anchor` matches in the file
    /// at `file_path`, expecting this scope hash.
    Write { file_path: &'a str, anchor: &'a [u8], expected_hash: String, replacement: &'a [u8] },
    /// The apply is over, with this outcome.
    Finish(Result<ApplyResult, ApplyError>),
}

/// The step that follows a `read` outcome: on success the write of the
/// replacement over the same file and anchor, expecting the very hash that
/// the read reported; on failure the end of the apply, with the failure
/// reported as an apply error.
pub open spec fn step_after_read<'a>(
    file_path: &'a str,
    anchor: &'a [u8],
    replacement: &'a [u8],
    read: Result<ScopeRead, ScopeError>,
) -> ApplyStep<'a> {
    match read {
        Ok(r) => ApplyStep::Write { file_path, anchor, expected_hash: r.scope_hash, replacement },
        Err(e) => ApplyStep::Finish(Err(apply_error_of(e).unwrap())),
    }
}

/// The outcome of an apply whose write expected `expected_hash`: on success
/// the bytes that the write wrote and that hash; on failure the failure,
/// reported as an apply error.
pub open spec fn outcome_after_write(
    expected_hash: String,
    write: Result<ScopeWrite, ScopeError>,
) -> Result<ApplyResult, ApplyError> {
    match write {
        Ok(w) => Ok(ApplyResult { bytes_written: w.bytes_written, scope_hash: expected_hash }),
        Err(e) => Err(apply_error_of(e).unwrap()),
    }
}

/// First half of an apply of `replacement` at `anchor` in the file at
/// `file_path`: given what the AnchorScope `read` of the anchor reported,
/// decides whether to write (with which arguments) or to stop with an error.
pub fn after_read<'a>(
    file_path: &'a str,
    anchor: &'a [u8],
    replacement: &'a [u8],
    read: Result<ScopeRead, ScopeError>,
) -> (step: ApplyStep<'a>)
    requires
        !(read matches Err(ScopeError::InvalidHashFormat)),
    ensures
        step == step_after_read(file_path, anchor, replacement, read),
        read matches Ok(r) ==> step == (ApplyStep::Write {
            file_path,
            anchor,
            expected_hash: r.scope_hash,
            replacement,
        }),
        read matches Err(ScopeError::NoMatch) ==> step matches ApplyStep::Finish(
            Err(ApplyError::NoMatch),
        ),
        read matches Err(ScopeError::MultipleMatches) ==> step matches ApplyStep::Finish(
            Err(ApplyError::MultipleMatches),
        ),
        read matches Err(ScopeError::HashMismatch) ==> step matches ApplyStep::Finish(
            Err(ApplyError::HashMismatch),
        ),
        read matches Err(ScopeError::IoError(m)) ==> step == ApplyStep::Finish(
            Err(ApplyError::IoError(m)),
        ),
{
    match read {
        Ok(r) => ApplyStep::Write { file_path, anchor, expected_hash: r.scope_hash, replacement },
        Err(e) => ApplyStep::Finish(Err(ApplyError::from_scope_error(e))),
    }
}

/// Second half of an apply: given the hash that the write expected and what
/// the AnchorScope `write` reported, gives the outcome of the apply.
pub fn after_write(expected_hash: String, write: Result<ScopeWrite, ScopeError>) -> (res: Result<
    ApplyResult,
    ApplyError,
>)
    requires
        !(write matches Err(ScopeError::InvalidHashFormat)),
    ensures
        res == outcome_after_write(expected_hash, write),
        write matches Ok(w) ==> res == Ok::<ApplyResult, ApplyError>(
            ApplyResult { bytes_written: w.bytes_written, scope_hash: expected_hash },
        ),
        write matches Err(ScopeError::NoMatch) ==> res matches Err(ApplyError::NoMatch),
        write matches Err(ScopeError::MultipleMatches) ==> res matches Err(
            ApplyError::MultipleMatches,
        ),
        write matches Err(ScopeError::HashMismatch) ==> res matches Err(ApplyError::HashMismatch),
        write matches Err(ScopeError::IoError(m)) ==> res == Err::<ApplyResult, ApplyError>(
            ApplyError::IoError(m),
        ),
{
    match write {
        Ok(w) => Ok(ApplyResult { bytes_written: w.bytes_written, scope_hash: expected_hash }),
        Err(e) => Err(ApplyError::from_scope_error(e)),
    }
}

/// The outcome of a whole apply, from what its `read` reported and what its
/// `write` would report: the read's failure if it failed, else the outcome
/// of the write that expected the read's hash.
pub open spec fn apply_outcome(
    read: Result<ScopeRead, ScopeError>,
    write: Result<ScopeWrite, ScopeError>,
) -> Result<ApplyResult, ApplyError> {
    match read {
        Ok(r) => outcome_after_write(r.scope_hash, write),
        Err(e) => Err(apply_error_of(e).unwrap()),
    }
}

/// After a successful read, the apply writes the replacement over the same
/// file and anchor, expecting the hash that the read reported; a successful
/// apply reports that same hash together with the bytes that the write
/// wrote.
pub proof fn lemma_read_hash_reaches_write<'a>(
    file_path: &'a str,
    anchor: &'a [u8],
    replacement: &'a [u8],
    read: ScopeRead,
    write: Result<ScopeWrite, ScopeError>,
)
    requires
        !(write matches Err(ScopeError::InvalidHashFormat)),
    ensures
        step_after_read(file_path, anchor, replacement, Ok(read)) == (ApplyStep::Write {
            file_path,
            anchor,
            expected_hash: read.scope_hash,
            replacement,
        }),
        write matches Ok(w) ==> apply_outcome(Ok(read), write) == Ok::<ApplyResult, ApplyError>(
            ApplyResult { bytes_written: w.bytes_written, scope_hash: read.scope_hash },
        ),
{
}

/// An apply succeeds exactly when both its read and its write succeed; a
/// failed read ends it before any write, with the read's failure.
pub proof fn lemma_apply_succeeds_iff_both_succeed<'a>(
    file_path: &'a str,
    anchor: &'a [u8],
    replacement: &'a [u8],
    read: Result<ScopeRead, ScopeError>,
    write: Result<ScopeWrite, ScopeError>,
)
    requires
        !(read matches Err(ScopeError::InvalidHashFormat)),
        !(write matches Err(ScopeError::InvalidHashFormat)),
    ensures
        apply_outcome(read, write) is Ok <==> read is Ok && write is Ok,
        read matches Err(e) ==> step_after_read(file_path, anchor, replacement, read)
            == ApplyStep::Finish(apply_outcome(read, write)) && apply_outcome(read, write)
            == Err::<ApplyResult, ApplyError>(apply_error_of(e).unwrap()),
{
}

/// A failure is reported the same way whether the read or the write met
/// it: the write's failure ends the apply with the very error that the same
/// failure of the read would have ended it with, under the failure's own
/// name.
pub proof fn lemma_read_and_write_failures_agree<'a>(
    file_path: &'a str,
    anchor: &'a [u8],
    replacement: &'a [u8],
    expected_hash: String,
    e: ScopeError,
)
    requires
        !(e is InvalidHashFormat),
    ensures
        step_after_read(file_path, anchor, replacement, Err(e)) == ApplyStep::Finish(
            outcome_after_write(expected_hash, Err(e)),
        ),
        e is NoMatch ==> outcome_after_write(expected_hash, Err(e)) matches Err(
            ApplyError::NoMatch,
        ),
        e is MultipleMatches ==> outcome_after_write(expected_hash, Err(e)) matches Err(
            ApplyError::MultipleMatches,
        ),
        e is HashMismatch ==> outcome_after_write(expected_hash, Err(e)) matches Err(
            ApplyError::HashMismatch,
        ),
        e matches ScopeError::IoError(m) ==> outcome_after_write(expected_hash, Err(e)) == Err::<
            ApplyResult,
            ApplyError,
        >(ApplyError::IoError(m)),
{
}

/// Where the read itself reports no mismatch, an apply fails with
/// `HashMismatch` only when its read succeeded and its write then found the
/// scope's hash changed since the read.
pub proof fn lemma_hash_mismatch_only_from_write(
    read: Result<ScopeRead, ScopeError>,
    write: Result<ScopeWrite, ScopeError>,
)
    requires
        !(read matches Err(ScopeError::HashMismatch)),
        !(read matches Err(ScopeError::InvalidHashFormat)),
        !(write matches Err(ScopeError::InvalidHashFormat)),
    ensures
        apply_outcome(read, write) matches Err(ApplyError::HashMismatch) <==> read is Ok
            && write matches Err(ScopeError::HashMismatch),
{
}

} // verus!
