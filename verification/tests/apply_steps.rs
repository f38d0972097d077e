use anchoredit::{after_read, after_write, ApplyError, ApplyStep, ScopeError, ScopeRead, ScopeWrite};

const HASH: &str = "0123456789abcdef";
const FILE: &str = "test.txt";

#[test]
fn scope_errors_keep_their_names() {
    assert!(matches!(ApplyError::from_scope_error(ScopeError::NoMatch), ApplyError::NoMatch));
    assert!(matches!(
        ApplyError::from_scope_error(ScopeError::MultipleMatches),
        ApplyError::MultipleMatches
    ));
    assert!(matches!(
        ApplyError::from_scope_error(ScopeError::HashMismatch),
        ApplyError::HashMismatch
    ));
    match ApplyError::from_scope_error(ScopeError::IoError("disk full".to_string())) {
        ApplyError::IoError(msg) => assert_eq!(msg, "disk full"),
        e => panic!("expected IoError, got {e:?}"),
    }
}

#[test]
fn error_messages() {
    assert_eq!(ApplyError::NoMatch.message(), "NO_MATCH");
    assert_eq!(ApplyError::MultipleMatches.message(), "MULTIPLE_MATCHES");
    assert_eq!(ApplyError::HashMismatch.message(), "HASH_MISMATCH");
    assert_eq!(
        ApplyError::IoError("permission denied".to_string()).message(),
        "IO_ERROR: permission denied"
    );
    assert_eq!(ApplyError::IoError(String::new()).message(), "IO_ERROR: ");
}

/// The success case one call down: the read of "hello world" in a file
/// holding it succeeds, the write of "goodbye world" follows with the read's
/// hash, and the apply reports the written bytes and that hash.
#[test]
fn apply_success() {
    let step = after_read(
        FILE,
        b"hello world",
        b"goodbye world",
        Ok(ScopeRead { scope_hash: HASH.to_string() }),
    );
    let expected_hash = match step {
        ApplyStep::Write { file_path, anchor, expected_hash, replacement } => {
            assert_eq!(file_path, FILE);
            assert_eq!(anchor, b"hello world");
            assert_eq!(replacement, b"goodbye world");
            assert_eq!(expected_hash, HASH);
            expected_hash
        }
        s => panic!("expected Write, got {s:?}"),
    };
    let result = after_write(expected_hash, Ok(ScopeWrite { bytes_written: 13 }));
    assert!(result.is_ok());
    let apply_result = result.unwrap();
    assert!(apply_result.bytes_written > 0);
    assert_eq!(apply_result.bytes_written, 13);
    assert_eq!(apply_result.scope_hash.len(), 16);
    assert_eq!(apply_result.scope_hash, HASH);
}

/// An anchor that the file does not hold: the read reports no match, and the
/// apply ends with `NoMatch` before any write.
#[test]
fn apply_no_match() {
    let step = after_read(FILE, b"not found", b"replacement", Err(ScopeError::NoMatch));
    match step {
        ApplyStep::Finish(result) => {
            assert!(result.is_err());
            match result.unwrap_err() {
                ApplyError::NoMatch => {}
                e => panic!("expected NoMatch, got {e:?}"),
            }
        }
        s => panic!("expected Finish, got {s:?}"),
    }
}

/// An anchor that occurs twice ("foo" in "foo bar foo baz"): the read
/// reports multiple matches, and the apply ends with `MultipleMatches`.
#[test]
fn apply_multiple_matches() {
    let step = after_read(FILE, b"foo", b"bar", Err(ScopeError::MultipleMatches));
    match step {
        ApplyStep::Finish(result) => {
            assert!(result.is_err());
            match result.unwrap_err() {
                ApplyError::MultipleMatches => {}
                e => panic!("expected MultipleMatches, got {e:?}"),
            }
        }
        s => panic!("expected Finish, got {s:?}"),
    }
}

/// The file changed between the read and the write: the write reports a
/// hash mismatch, and the apply ends with `HashMismatch`.
#[test]
fn apply_concurrent_modification_hash_mismatch() {
    let expected_hash = match after_read(
        FILE,
        b"hello world",
        b"replacement",
        Ok(ScopeRead { scope_hash: HASH.to_string() }),
    ) {
        ApplyStep::Write { expected_hash, .. } => expected_hash,
        s => panic!("expected Write, got {s:?}"),
    };
    match after_write(expected_hash, Err(ScopeError::HashMismatch)) {
        Err(ApplyError::HashMismatch) => {}
        r => panic!("expected HashMismatch, got {r:?}"),
    }
}

#[test]
fn read_io_error_keeps_description() {
    match after_read(FILE, b"a", b"b", Err(ScopeError::IoError("no such file".to_string()))) {
        ApplyStep::Finish(Err(ApplyError::IoError(msg))) => assert_eq!(msg, "no such file"),
        s => panic!("expected IoError, got {s:?}"),
    }
}

#[test]
fn write_io_error_keeps_description() {
    match after_write(HASH.to_string(), Err(ScopeError::IoError("read-only".to_string()))) {
        Err(ApplyError::IoError(msg)) => assert_eq!(msg, "read-only"),
        r => panic!("expected IoError, got {r:?}"),
    }
}
