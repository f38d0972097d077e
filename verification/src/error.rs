use vstd::prelude::*;

verus! {

/// The failures that AnchorScope reports for a `read` or a `write`.
#[derive(Debug)]
pub enum ScopeError {
    /// The anchor does not occur in the file.
    NoMatch,
    /// The anchor occurs more than once in the file.
    MultipleMatches,
    /// The hash of the matched scope differs from the expected one.
    HashMismatch,
    /// The expected hash is not a well-formed scope hash.
    InvalidHashFormat,
    /// An I/O failure, with its description.
    IoError(String),
}

/// Errors that can occur during an apply operation.
#[derive(Debug)]
pub enum ApplyError {
    /// The anchor was not found in the file.
    NoMatch,
    /// The anchor matched multiple locations in the file.
    MultipleMatches,
    /// The computed hash does not match the expected hash.
    HashMismatch,
    /// I/O error with a description.
    IoError(String),
}

/// The apply error that an AnchorScope failure is reported as; `None` for a
/// malformed expected hash, which an apply never hands to AnchorScope.
pub open spec fn apply_error_of(e: ScopeError) -> Option<ApplyError> {
    match e {
        ScopeError::NoMatch => Some(ApplyError::NoMatch),
        ScopeError::MultipleMatches => Some(ApplyError::MultipleMatches),
        ScopeError::HashMismatch => Some(ApplyError::HashMismatch),
        ScopeError::InvalidHashFormat => None,
        ScopeError::IoError(msg) => Some(ApplyError::IoError(msg)),
    }
}

/// The text by which an apply error is shown: its name, and for an I/O
/// error `IO_ERROR: ` followed by the failure's description.
pub open spec fn message_of(e: ApplyError) -> Seq<char> {
    match e {
        ApplyError::NoMatch => "NO_MATCH"@,
        ApplyError::MultipleMatches => "MULTIPLE_MATCHES"@,
        ApplyError::HashMismatch => "HASH_MISMATCH"@,
        ApplyError::IoError(msg) => "IO_ERROR: "@ + msg@,
    }
}

/// Every failure that an apply can meet is reported under its own name: no
/// match as `NoMatch`, several as `MultipleMatches`, a changed scope as
/// `HashMismatch`, and an I/O failure as `IoError` with the same description.
pub proof fn lemma_failures_keep_their_names(e: ScopeError)
    ensures
        e is NoMatch ==> apply_error_of(e) == Some(ApplyError::NoMatch),
        e is MultipleMatches ==> apply_error_of(e) == Some(ApplyError::MultipleMatches),
        e is HashMismatch ==> apply_error_of(e) == Some(ApplyError::HashMismatch),
        e matches ScopeError::IoError(m) ==> apply_error_of(e) == Some(ApplyError::IoError(m)),
        e is InvalidHashFormat ==> apply_error_of(e) is None,
{
}

impl ApplyError {
    /// Reports an AnchorScope failure as an apply error: each failure becomes
    /// the error of the same name, an I/O failure keeps its description.
    pub fn from_scope_error(err: ScopeError) -> (res: ApplyError)
        requires
            !(err is InvalidHashFormat),
        ensures
            apply_error_of(err) == Some(res),
    {
        match err {
            ScopeError::NoMatch => ApplyError::NoMatch,
            ScopeError::MultipleMatches => ApplyError::MultipleMatches,
            ScopeError::HashMismatch => ApplyError::HashMismatch,
            ScopeError::IoError(msg) => ApplyError::IoError(msg),
            ScopeError::InvalidHashFormat => vstd::pervasive::unreached(),
        }
    }

    /// The text by which the error is shown: `NO_MATCH`, `MULTIPLE_MATCHES`,
    /// `HASH_MISMATCH`, or `IO_ERROR: ` followed by the description of an
    /// I/O error.
    pub fn message(&self) -> (s: String)
        ensures
            s@ == message_of(*self),
    {
        match self {
            ApplyError::NoMatch => "NO_MATCH".to_owned(),
            ApplyError::MultipleMatches => "MULTIPLE_MATCHES".to_owned(),
            ApplyError::HashMismatch => "HASH_MISMATCH".to_owned(),
            ApplyError::IoError(msg) => {
                let mut text = "IO_ERROR: ".to_owned();
                text.append(msg.as_str());
                text
            },
        }
    }
}

} // verus!
