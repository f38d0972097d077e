use anchoredit::commands::search::{
    extract_utf8_safe, make_preview, plan_search, split_range, SearchStep,
};

#[test]
fn extract_valid_text() {
    assert_eq!(extract_utf8_safe(b"hello world", 0, 5), "hello");
    assert_eq!(extract_utf8_safe(b"hello world", 6, 11), "world");
    assert_eq!(extract_utf8_safe(b"hello world", 3, 3), "");
}

#[test]
fn extract_invalid_bytes_become_replacement_char() {
    assert_eq!(extract_utf8_safe(&[0x61, 0xff, 0x62], 0, 3), "a\u{FFFD}b");
}

#[test]
fn extract_cut_multibyte_char() {
    let data = "é".as_bytes();
    assert_eq!(extract_utf8_safe(data, 0, 1), "\u{FFFD}");
}

#[test]
fn preview_truncates_to_max_bytes() {
    assert_eq!(make_preview(b"hello world", 0, 11, 3), "hel");
    assert_eq!(make_preview(b"hello world", 6, 11, 256), "world");
    assert_eq!(make_preview(b"hello world", 6, 11, 5), "world");
}

#[test]
fn short_preview_equals_extract() {
    let data = b"some bytes here";
    assert_eq!(make_preview(data, 2, 9, 100), extract_utf8_safe(data, 2, 9));
    assert_eq!(make_preview(data, 2, 9, 4), extract_utf8_safe(data, 2, 6));
}

#[test]
fn split_range_single_colon() {
    assert_eq!(split_range("0.3:0.7"), Some(("0.3", "0.7")));
    assert_eq!(split_range(" 0 : 1 "), Some((" 0 ", " 1 ")));
    assert_eq!(split_range(":"), Some(("", "")));
}

#[test]
fn split_range_rejects_other_shapes() {
    assert_eq!(split_range("0.3"), None);
    assert_eq!(split_range(""), None);
    assert_eq!(split_range("0.1:0.2:0.3"), None);
    assert_eq!(split_range("::"), None);
}

#[test]
fn empty_file_ends_search() {
    assert!(matches!(plan_search(0, 0, 0, 2000, 0), SearchStep::EmptyFile));
}

#[test]
fn small_range_is_done() {
    match plan_search(5000, 100, 1900, 2000, 180) {
        SearchStep::Done { start, end } => assert_eq!((start, end), (100, 1900)),
        s => panic!("expected Done, got {s:?}"),
    }
    match plan_search(5000, 0, 200, 0, 20) {
        SearchStep::Done { start, end } => assert_eq!((start, end), (0, 200)),
        s => panic!("expected Done, got {s:?}"),
    }
}

/// A 1000-byte range with the default overlap of 10%: the segments are
/// 0-40%, 30-70% and 60-100% of the range.
#[test]
fn default_overlap_gives_documented_segments() {
    match plan_search(1000, 0, 1000, 100, 100) {
        SearchStep::Split { a, b, c } => {
            assert_eq!((a.id.as_str(), a.start, a.end, a.size_bytes), ("A", 0, 400, 400));
            assert_eq!((b.id.as_str(), b.start, b.end, b.size_bytes), ("B", 300, 700, 400));
            assert_eq!((c.id.as_str(), c.start, c.end, c.size_bytes), ("C", 600, 1000, 400));
        }
        s => panic!("expected Split, got {s:?}"),
    }
}

#[test]
fn inner_range_segments_stay_within_range() {
    match plan_search(20000, 5000, 15000, 2000, 1000) {
        SearchStep::Split { a, b, c } => {
            assert_eq!((a.start, a.end), (5000, 9000));
            assert_eq!((b.start, b.end), (8000, 12000));
            assert_eq!((c.start, c.end), (11000, 15000));
            for p in 5000..15000 {
                assert!(
                    (a.start <= p && p < a.end)
                        || (b.start <= p && p < b.end)
                        || (c.start <= p && p < c.end)
                );
            }
            // a span of at most the overlap lies wholly within one segment
            for p in 5000..14000 {
                let q = p + 1000;
                assert!(
                    (a.start <= p && q <= a.end)
                        || (b.start <= p && q <= b.end)
                        || (c.start <= p && q <= c.end)
                );
            }
        }
        s => panic!("expected Split, got {s:?}"),
    }
}

#[test]
fn odd_overlap_is_shared_around_boundaries() {
    // boundaries at 35% (350) and 65% (650) of 1000; overlap 101 = 50 before + 51 after
    match plan_search(1000, 0, 1000, 0, 101) {
        SearchStep::Split { a, b, c } => {
            assert_eq!((a.start, a.end), (0, 401));
            assert_eq!((b.start, b.end), (300, 701));
            assert_eq!((c.start, c.end), (600, 1000));
        }
        s => panic!("expected Split, got {s:?}"),
    }
}

#[test]
fn overlap_larger_than_range_saturates() {
    match plan_search(1000, 0, 1000, 0, usize::MAX) {
        SearchStep::Split { a, b, c } => {
            assert_eq!((a.start, a.end), (0, 1000));
            assert_eq!((b.start, b.end), (0, 1000));
            assert_eq!((c.start, c.end), (0, 1000));
        }
        s => panic!("expected Split, got {s:?}"),
    }
}

#[test]
fn boundaries_round_down() {
    // 35% of 1001 is 350.35 and 65% is 650.65: the boundaries are 350 and 650
    match plan_search(1001, 0, 1001, 0, 0) {
        SearchStep::Split { a, b, c } => {
            assert_eq!((a.start, a.end), (0, 350));
            assert_eq!((b.start, b.end), (350, 650));
            assert_eq!((c.start, c.end), (650, 1001));
        }
        s => panic!("expected Split, got {s:?}"),
    }
}

#[test]
fn preview_has_at_most_max_characters() {
    let data = "ééé".as_bytes();
    assert_eq!(make_preview(data, 0, 6, 3), "é\u{FFFD}");
    assert!(make_preview(data, 0, 6, 3).chars().count() <= 3);
}
