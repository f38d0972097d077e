//! The sliding-bisection search over a file's bytes.
//!
//! A search narrows a byte range `[start, end)` of a file. While the range is
//! larger than the termination size, it is cut into three overlapping
//! segments A, B and C, one of which the agent picks as the next range; once
//! it is small enough, its bytes are the anchor. The segments meet at 35%
//! and 65% of the range, and neighbours share the overlap around each of
//! these boundaries, so that the default overlap of 10% gives A = 0–40%,
//! B = 30–70% and C = 60–100%. The overlap is given in bytes; the caller
//! turns its ratio into them.
use vstd::prelude::*;
use vstd::utf8::{decode_utf8, valid_utf8};

verus! {

/// The text that lossy UTF-8 decoding gives for `bytes`: every maximal
/// invalid sequence stands as U+FFFD.
pub uninterp spec fn lossy_utf8(bytes: Seq<u8>) -> Seq<char>;

/// Calls `String::from_utf8_lossy` and takes the text as an owned `String`.
/// Trusted: that the text is a function of the bytes alone (named
/// `lossy_utf8`), and, as std documents, that bytes which are valid UTF-8
/// come out decoded unchanged, while invalid ones leave at least one U+FFFD
/// in the text. Every character stands for at least one byte (a decoded
/// scalar or a replaced invalid sequence), so the text has no more
/// characters than there are bytes.
#[verifier::external_body]
fn utf8_lossy(bytes: &[u8]) -> (s: String)
    ensures
        s@ == lossy_utf8(bytes@),
        valid_utf8(bytes@) ==> s@ == decode_utf8(bytes@),
        !valid_utf8(bytes@) ==> s@.contains('\u{FFFD}'),
        s@.len() <= bytes@.len(),
{
    String::from_utf8_lossy(bytes).into_owned()
}

/// The text shown for the bytes `[start, end)` of `data`.
pub open spec fn extracted(data: Seq<u8>, start: int, end: int) -> Seq<char> {
    lossy_utf8(data.subrange(start, end))
}

/// How many bytes of `[start, end)` a preview of at most `max_bytes` shows.
pub open spec fn preview_len(start: int, end: int, max_bytes: int) -> int {
    if end - start > max_bytes {
        max_bytes
    } else {
        end - start
    }
}

/// The text of the preview of `[start, end)`: its first `max_bytes` bytes.
pub open spec fn previewed(data: Seq<u8>, start: int, end: int, max_bytes: int) -> Seq<char> {
    lossy_utf8(data.subrange(start, start + preview_len(start, end, max_bytes)))
}

/// Extracts the bytes `[start, end)` of `data` as text; bytes that are not
/// valid UTF-8 come out as U+FFFD.
pub fn extract_utf8_safe(data: &[u8], start: usize, end: usize) -> (s: String)
    requires
        start <= end <= data@.len(),
    ensures
        s@ == extracted(data@, start as int, end as int),
        valid_utf8(data@.subrange(start as int, end as int)) ==> s@ == decode_utf8(
            data@.subrange(start as int, end as int),
        ),
        !valid_utf8(data@.subrange(start as int, end as int)) ==> s@.contains('\u{FFFD}'),
        s@.len() <= end - start,
{
    let slice = &data[start..end];
    utf8_lossy(slice)
}

/// Creates a preview of `[start, end)`: the text of its first `max_bytes`
/// bytes, or of all of it when it is no longer than that.
pub fn make_preview(data: &[u8], start: usize, end: usize, max_bytes: usize) -> (s: String)
    requires
        start <= end <= data@.len(),
    ensures
        s@ == previewed(data@, start as int, end as int, max_bytes as int),
        ({
            let shown = data@.subrange(
                start as int,
                start + preview_len(start as int, end as int, max_bytes as int),
            );
            &&& valid_utf8(shown) ==> s@ == decode_utf8(shown)
            &&& !valid_utf8(shown) ==> s@.contains('\u{FFFD}')
        }),
        s@.len() <= max_bytes,
        s@.len() <= end - start,
{
    let slice = &data[start..end];
    let preview = if slice.len() > max_bytes {
        &slice[0..max_bytes]
    } else {
        slice
    };
    proof {
        assert(preview@ =~= data@.subrange(
            start as int,
            start + preview_len(start as int, end as int, max_bytes as int),
        ));
    }
    utf8_lossy(preview)
}

/// A preview of a range no longer than `max_bytes` shows the whole range.
pub proof fn lemma_short_preview_is_whole(data: Seq<u8>, start: int, end: int, max_bytes: int)
    requires
        0 <= start <= end <= data.len(),
        end - start <= max_bytes,
    ensures
        previewed(data, start, end, max_bytes) == extracted(data, start, end),
{
}

/// A preview of a range longer than `max_bytes` shows the range's first
/// `max_bytes` bytes, as an extraction of them would.
pub proof fn lemma_long_preview_is_prefix(data: Seq<u8>, start: int, end: int, max_bytes: int)
    requires
        0 <= start <= end <= data.len(),
        0 <= max_bytes < end - start,
    ensures
        previewed(data, start, end, max_bytes) == extracted(data, start, start + max_bytes),
{
}

/// Whether `s` holds `':'` exactly once, as the range `start:end` does.
pub open spec fn single_colon(s: Seq<char>) -> bool {
    exists|k: int|
        0 <= k < s.len() && s[k] == ':' && (forall|j: int|
            0 <= j < s.len() && j != k ==> #[trigger] s[j] != ':')
}

/// Splits a range written `start:end` at its colon. Gives the two sides
/// when the text holds exactly one colon, and `None` otherwise; the sides
/// are still to be trimmed and read as numbers.
pub fn split_range(s: &str) -> (parts: Option<(&str, &str)>)
    ensures
        parts is Some <==> single_colon(s@),
        parts matches Some((l, r)) ==> s@ == l@ + seq![':'] + r@ && !l@.contains(':')
            && !r@.contains(':'),
{
    let n = s.unicode_len();
    let mut first: Option<usize> = None;
    let mut many = false;
    let ghost mut second: int = 0;
    let mut i: usize = 0;
    while i < n
        invariant
            n == s@.len(),
            i <= n,
            first is None ==> !many && forall|j: int| 0 <= j < i ==> s@[j] != ':',
            first matches Some(k) ==> k < i && s@[k as int] == ':' && forall|j: int|
                0 <= j < k ==> s@[j] != ':',
            !many ==> (first matches Some(k) ==> forall|j: int| k < j < i ==> s@[j] != ':'),
            many ==> (first matches Some(k) ==> k < second < i && s@[second] == ':'),
        decreases n - i,
    {
        let c = s.get_char(i);
        if c == ':' {
            match first {
                None => {
                    first = Some(i);
                },
                Some(k) => {
                    if !many {
                        proof {
                            second = i as int;
                        }
                    }
                    many = true;
                },
            }
        }
        i = i + 1;
    }
    match first {
        None => {
            assert(!single_colon(s@));
            None
        },
        Some(k) => {
            if many {
                assert(!single_colon(s@)) by {
                    if single_colon(s@) {
                        let w = choose|w: int|
                            0 <= w < s@.len() && s@[w] == ':' && (forall|j: int|
                                0 <= j < s@.len() && j != w ==> #[trigger] s@[j] != ':');
                        assert(s@[k as int] == ':');
                        assert(s@[second] == ':');
                    }
                }
                None
            } else {
                let left = s.substring_char(0, k);
                let right = s.substring_char(k + 1, n);
                assert(single_colon(s@)) by {
                    assert(forall|j: int| 0 <= j < s@.len() && j != k ==> #[trigger] s@[j] != ':');
                }
                assert(s@ =~= left@ + seq![':'] + right@);
                assert(!left@.contains(':')) by {
                    if left@.contains(':') {
                        let j = choose|j: int| 0 <= j < left@.len() && left@[j] == ':';
                        assert(s@[j] == ':');
                    }
                }
                assert(!right@.contains(':')) by {
                    if right@.contains(':') {
                        let j = choose|j: int| 0 <= j < right@.len() && right@[j] == ':';
                        assert(s@[k + 1 + j] == ':');
                    }
                }
                Some((left, right))
            }
        },
    }
}

/// One of the three segments offered for the next round.
#[derive(Debug)]
pub struct Segment {
    /// `A`, `B` or `C`.
    pub id: String,
    /// First byte of the segment.
    pub start: usize,
    /// One past the last byte of the segment.
    pub end: usize,
    /// Number of bytes in the segment.
    pub size_bytes: usize,
}

/// What a round of the search does with the current range.
#[derive(Debug)]
pub enum SearchStep {
    /// The file has no bytes: there is nothing to search.
    EmptyFile,
    /// The range is small enough: its bytes are the anchor.
    Done { start: usize, end: usize },
    /// The range is cut into three overlapping segments.
    Split { a: Segment, b: Segment, c: Segment },
}

/// The smaller of two integers.
pub open spec fn min_of(x: int, y: int) -> int {
    if x <= y {
        x
    } else {
        y
    }
}

/// The larger of two integers.
pub open spec fn max_of(x: int, y: int) -> int {
    if x >= y {
        x
    } else {
        y
    }
}

/// `pct` percent of `size` bytes, rounded down.
pub open spec fn percent_of(size: int, pct: int) -> int {
    (size * pct) / 100
}

/// The boundary between A and B: 35% into the range.
pub open spec fn first_boundary(start: int, end: int) -> int {
    start + percent_of(end - start, 35)
}

/// The boundary between B and C: 65% into the range.
pub open spec fn second_boundary(start: int, end: int) -> int {
    start + percent_of(end - start, 65)
}

/// The part of the overlap that reaches back before a boundary.
pub open spec fn overlap_before(overlap: int) -> int {
    overlap / 2
}

/// The part of the overlap that reaches on past a boundary.
pub open spec fn overlap_after(overlap: int) -> int {
    overlap - overlap / 2
}

/// The segment that reaches from `boundary` widened back by the overlap (but
/// not before `start`).
pub open spec fn start_after_boundary(boundary: int, overlap: int, start: int) -> int {
    max_of(boundary - overlap_before(overlap), start)
}

/// The segment that reaches to `boundary` widened on by the overlap (but not
/// past `end`).
pub open spec fn end_before_boundary(boundary: int, overlap: int, end: int) -> int {
    min_of(boundary + overlap_after(overlap), end)
}

/// Whether a range of `range_size` bytes is small enough to end the search:
/// at most the termination size, or at most 200 bytes.
pub open spec fn small_enough(range_size: int, termination_bytes: int) -> bool {
    range_size <= termination_bytes || range_size <= 200
}

/// Whether `seg` is the segment `id` over `[start, end)`.
pub open spec fn is_segment(seg: Segment, id: Seq<char>, start: int, end: int) -> bool {
    &&& seg.id@ == id
    &&& seg.start == start
    &&& seg.end == end
    &&& seg.size_bytes == end - start
}

/// The three segments of the range `[start, end)` with neighbours sharing
/// `overlap` bytes: A from the start, B around the middle, C to the end.
pub open spec fn is_split(
    a: Segment,
    b: Segment,
    c: Segment,
    start: int,
    end: int,
    overlap: int,
) -> bool {
    let b1 = first_boundary(start, end);
    let b2 = second_boundary(start, end);
    &&& is_segment(a, "A"@, start, end_before_boundary(b1, overlap, end))
    &&& is_segment(
        b,
        "B"@,
        start_after_boundary(b1, overlap, start),
        end_before_boundary(b2, overlap, end),
    )
    &&& is_segment(c, "C"@, start_after_boundary(b2, overlap, start), end)
}

proof fn lemma_percent_bounds(size: int, pct: int)
    requires
        0 <= size,
        0 <= pct <= 100,
    ensures
        0 <= percent_of(size, pct) <= size,
{
    assert(0 <= size * pct <= size * 100) by (nonlinear_arith)
        requires
            0 <= size,
            0 <= pct <= 100,
    ;
    assert((size * pct) / 100 <= size) by (nonlinear_arith)
        requires
            0 <= size * pct <= size * 100,
    ;
    assert(0 <= (size * pct) / 100) by (nonlinear_arith)
        requires
            0 <= size * pct,
    ;
}

proof fn lemma_percent_monotone(size: int, p: int, q: int)
    requires
        0 <= size,
        0 <= p <= q,
    ensures
        percent_of(size, p) <= percent_of(size, q),
{
    assert(size * p <= size * q) by (nonlinear_arith)
        requires
            0 <= size,
            0 <= p <= q,
    ;
    vstd::arithmetic::div_mod::lemma_div_is_ordered(size * p, size * q, 100);
}

/// With an overlap of a tenth of a range whose size is a multiple of 20, the
/// boundaries widened by the overlap fall at 30%, 40%, 60% and 70%.
proof fn lemma_tenth_overlap(size: int, overlap: int)
    requires
        0 <= size,
        size % 20 == 0,
        overlap * 10 == size,
    ensures
        10 * (percent_of(size, 35) - overlap_before(overlap)) == 3 * size,
        10 * (percent_of(size, 35) + overlap_after(overlap)) == 4 * size,
        10 * (percent_of(size, 65) - overlap_before(overlap)) == 6 * size,
        10 * (percent_of(size, 65) + overlap_after(overlap)) == 7 * size,
{
    let k = size / 20;
    assert(size == 20 * k) by {
        vstd::arithmetic::div_mod::lemma_fundamental_div_mod(size, 20);
    }
    assert(percent_of(size, 35) == 7 * k) by {
        assert(size * 35 == 100 * (7 * k)) by (nonlinear_arith)
            requires
                size == 20 * k,
        ;
        vstd::arithmetic::div_mod::lemma_div_multiples_vanish(7 * k, 100);
    }
    assert(percent_of(size, 65) == 13 * k) by {
        assert(size * 65 == 100 * (13 * k)) by (nonlinear_arith)
            requires
                size == 20 * k,
        ;
        vstd::arithmetic::div_mod::lemma_div_multiples_vanish(13 * k, 100);
    }
    assert(overlap == 2 * k);
}

/// `pct` percent of `size`, rounded down, computed without overflow.
fn percent_of_exec(size: usize, pct: usize) -> (r: usize)
    requires
        pct <= 100,
    ensures
        r == percent_of(size as int, pct as int),
{
    let q = size / 100;
    let rem = size % 100;
    proof {
        let s = size as int;
        let p = pct as int;
        assert(s == 100 * q + rem) by {
            vstd::arithmetic::div_mod::lemma_fundamental_div_mod(s, 100);
        }
        assert(s * p == 100 * (q * p) + rem * p) by (nonlinear_arith)
            requires
                s == 100 * q + rem,
        ;
        let t = (rem * p) / 100;
        let u = (rem * p) % 100;
        assert(rem * p == 100 * t + u && 0 <= u < 100) by {
            vstd::arithmetic::div_mod::lemma_fundamental_div_mod(rem * p, 100);
        }
        assert(s * p == 100 * (q * p + t) + u) by (nonlinear_arith)
            requires
                s * p == 100 * (q * p) + rem * p,
                rem * p == 100 * t + u,
        ;
        assert((100 * (q * p + t) + u) / 100 == q * p + t) by {
            vstd::arithmetic::div_mod::lemma_div_multiples_vanish_fancy(q * p + t, u, 100);
        }
        lemma_percent_bounds(s, p);
        assert(q * p <= s) by (nonlinear_arith)
            requires
                s == 100 * q + rem,
                0 <= rem,
                0 <= q,
                0 <= p <= 100,
        ;
        assert(rem * p <= 100 * 100) by (nonlinear_arith)
            requires
                0 <= rem < 100,
                0 <= p <= 100,
        ;
    }
    q * pct + rem * pct / 100
}

/// Builds one segment `[start, end)`.
fn make_segment(id: &str, start: usize, end: usize) -> (seg: Segment)
    requires
        start <= end,
    ensures
        is_segment(seg, id@, start as int, end as int),
{
    Segment { id: id.to_owned(), start, end, size_bytes: end - start }
}

/// One round of the sliding-bisection search over the range `[start, end)`
/// of a file of `file_size` bytes: an empty file ends the search at once; a
/// range of at most `termination_bytes` (or at most 200) bytes is the
/// result; any other range is trisected. The boundaries lie 35% and 65% into
/// the range, and neighbouring segments share `overlap_bytes` around each
/// boundary (half of it before, the rest after), so that with an overlap of
/// 10% of the range the segments are A = 0–40%, B = 30–70% and C = 60–100%.
/// No segment reaches outside the range.
pub fn plan_search(
    file_size: usize,
    start: usize,
    end: usize,
    termination_bytes: usize,
    overlap_bytes: usize,
) -> (step: SearchStep)
    requires
        start <= end <= file_size,
    ensures
        step is EmptyFile <==> file_size == 0,
        step is Done <==> file_size > 0 && small_enough(
            end - start,
            termination_bytes as int,
        ),
        step matches SearchStep::Done { start: s, end: e } ==> s == start && e == end,
        step is Done ==> end - start <= termination_bytes || end - start <= 200,
        file_size > 0 && end - start > termination_bytes && end - start > 200 ==> step is Split,
        step matches SearchStep::Split { a, b, c } ==> {
            &&& b.start <= a.end && c.start <= b.end
            &&& is_split(a, b, c, start as int, end as int, overlap_bytes as int)
            &&& start <= a.start <= a.end <= end
            &&& start <= b.start <= b.end <= end
            &&& start <= c.start <= c.end <= end
            &&& a.start == start && c.end == end
        },
        step matches SearchStep::Split { a, b, c } ==> ((end - start) % 20 == 0 && overlap_bytes
            * 10 == end - start ==> {
            &&& a.start == start && a.end * 10 == start * 10 + (end - start) * 4
            &&& b.start * 10 == start * 10 + (end - start) * 3
            &&& b.end * 10 == start * 10 + (end - start) * 7
            &&& c.start * 10 == start * 10 + (end - start) * 6 && c.end == end
        }),
{
    if file_size == 0 {
        return SearchStep::EmptyFile;
    }
    let range_size = end - start;
    if range_size <= termination_bytes || range_size <= 200 {
        return SearchStep::Done { start, end };
    }
    let b1 = start + percent_of_exec(range_size, 35);
    let b2 = start + percent_of_exec(range_size, 65);
    proof {
        lemma_percent_bounds(range_size as int, 35);
        lemma_percent_bounds(range_size as int, 65);
        lemma_percent_monotone(range_size as int, 35, 65);
    }
    let before = overlap_bytes / 2;
    let after = overlap_bytes - before;
    let a_end = if after < end - b1 {
        b1 + after
    } else {
        end
    };
    let b_start = if before < b1 - start {
        b1 - before
    } else {
        start
    };
    let b_end = if after < end - b2 {
        b2 + after
    } else {
        end
    };
    let c_start = if before < b2 - start {
        b2 - before
    } else {
        start
    };
    let a = make_segment("A", start, a_end);
    let b = make_segment("B", b_start, b_end);
    let c = make_segment("C", c_start, end);
    proof {
        if range_size % 20 == 0 && overlap_bytes * 10 == range_size {
            lemma_tenth_overlap(range_size as int, overlap_bytes as int);
        }
    }
    SearchStep::Split { a, b, c }
}

/// The search stops exactly at ranges of at most the termination size or at
/// most 200 bytes; any longer range is cut.
pub proof fn lemma_stop_rule(range_size: int, termination_bytes: int)
    ensures
        small_enough(range_size, termination_bytes) ==> range_size <= termination_bytes
            || range_size <= 200,
        range_size > termination_bytes && range_size > 200 ==> !small_enough(
            range_size,
            termination_bytes,
        ),
        range_size <= termination_bytes ==> small_enough(range_size, termination_bytes),
        range_size <= 200 ==> small_enough(range_size, termination_bytes),
{
}

/// The boundaries lie 35% and 65% into the range, rounded down: the first is
/// the last byte offset whose distance from the start is at most 35% of the
/// range's size, the second likewise for 65%.
pub proof fn lemma_boundaries_are_percent_points(start: int, end: int)
    requires
        0 <= start <= end,
    ensures
        100 * (first_boundary(start, end) - start) <= 35 * (end - start) < 100 * (
        first_boundary(start, end) - start) + 100,
        100 * (second_boundary(start, end) - start) <= 65 * (end - start) < 100 * (
        second_boundary(start, end) - start) + 100,
{
    let size = end - start;
    vstd::arithmetic::div_mod::lemma_fundamental_div_mod(size * 35, 100);
    vstd::arithmetic::div_mod::lemma_mod_bound(size * 35, 100);
    vstd::arithmetic::div_mod::lemma_fundamental_div_mod(size * 65, 100);
    vstd::arithmetic::div_mod::lemma_mod_bound(size * 65, 100);
    assert(size * 35 == 35 * size && size * 65 == 65 * size) by (nonlinear_arith);
}

/// The overlap is shared around a boundary: the part before and the part
/// after add up to it, and differ by at most one byte.
pub proof fn lemma_overlap_shared(overlap: int)
    requires
        0 <= overlap,
    ensures
        overlap_before(overlap) + overlap_after(overlap) == overlap,
        overlap_before(overlap) <= overlap_after(overlap) <= overlap_before(overlap) + 1,
        overlap_before(overlap) >= 0,
{
}

/// The boundaries of a range lie within it, the first before the second.
pub proof fn lemma_boundaries_within(start: int, end: int)
    requires
        0 <= start <= end,
    ensures
        start <= first_boundary(start, end) <= second_boundary(start, end) <= end,
{
    lemma_percent_bounds(end - start, 35);
    lemma_percent_bounds(end - start, 65);
    lemma_percent_monotone(end - start, 35, 65);
}

/// Every byte of the range lies in at least one of the three segments.
pub proof fn lemma_segments_cover_range(
    a: Segment,
    b: Segment,
    c: Segment,
    start: int,
    end: int,
    overlap: int,
    p: int,
)
    requires
        0 <= start <= end,
        0 <= overlap,
        is_split(a, b, c, start, end, overlap),
        start <= p < end,
    ensures
        (a.start <= p < a.end) || (b.start <= p < b.end) || (c.start <= p < c.end),
{
    lemma_boundaries_within(start, end);
}

/// A target of at most `overlap` bytes anywhere in the range, near a
/// boundary or not, lies wholly within at least one of the three segments.
pub proof fn lemma_short_span_within_one_segment(
    a: Segment,
    b: Segment,
    c: Segment,
    start: int,
    end: int,
    overlap: int,
    p: int,
    q: int,
)
    requires
        0 <= start <= end,
        0 <= overlap,
        is_split(a, b, c, start, end, overlap),
        start <= p <= q <= end,
        q - p <= overlap,
    ensures
        (a.start <= p && q <= a.end) || (b.start <= p && q <= b.end) || (c.start <= p && q
            <= c.end),
{
    lemma_boundaries_within(start, end);
}

} // verus!
