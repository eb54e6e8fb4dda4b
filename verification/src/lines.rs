//! The lines of a log file: where they start, and which of them hold a byte string.
use memchr::memchr_iter;
use memchr::memmem;
use rayon::iter::{IntoParallelIterator, ParallelIterator};
use vstd::prelude::*;
use vstd::slice::slice_subrange;

verus! {

/// The byte that ends a line.
pub const NEWLINE: u8 = 10;

/// Whether a line starts or the last one ends at offset `k`: at the two ends of the file and
/// behind each newline.
pub open spec fn is_boundary(bytes: Seq<u8>, k: int) -> bool {
    ||| k == 0
    ||| k == bytes.len()
    ||| 0 < k < bytes.len() && bytes[k - 1] == NEWLINE
}

/// Whether `starts` lists the line boundaries of `bytes`, each once, in ascending order.
pub open spec fn is_line_index(bytes: Seq<u8>, starts: Seq<usize>) -> bool {
    &&& forall|i: int, j: int| 0 <= i < j < starts.len() ==> starts[i] < starts[j]
    &&& forall|i: int| 0 <= i < starts.len() ==> is_boundary(bytes, #[trigger] starts[i] as int)
    &&& forall|k: int| #[trigger]
        is_boundary(bytes, k) ==> exists|i: int| 0 <= i < starts.len() && starts[i] == k
}

/// The number of lines that `starts` delimits.
pub open spec fn line_count(starts: Seq<usize>) -> nat {
    if starts.len() == 0 {
        0
    } else {
        (starts.len() - 1) as nat
    }
}

/// Line `i`, with the newline that ends it.
pub open spec fn line(bytes: Seq<u8>, starts: Seq<usize>, i: int) -> Seq<u8> {
    bytes.subrange(starts[i] as int, starts[i + 1] as int)
}

/// `memchr::memchr_iter`, run to its end: the offsets of `needle` in `haystack`, all of them, in
/// ascending order.
#[verifier::external_body]
fn byte_offsets(needle: u8, haystack: &[u8]) -> (offsets: Vec<usize>)
    ensures
        forall|i: int, j: int| 0 <= i < j < offsets@.len() ==> offsets@[i] < offsets@[j],
        forall|i: int|
            0 <= i < offsets@.len() ==> #[trigger] offsets@[i] < haystack@.len()
                && haystack@[offsets@[i] as int] == needle,
        forall|k: int|
            0 <= k < haystack@.len() && #[trigger] haystack@[k] == needle ==> exists|i: int|
                0 <= i < offsets@.len() && offsets@[i] == k,
{
    memchr_iter(needle, haystack).collect()
}

/// Finds the line boundaries of `bytes`.
pub fn build_line_starts(bytes: &[u8]) -> (starts: Vec<usize>)
    ensures
        is_line_index(bytes@, starts@),
{
    let offsets = byte_offsets(NEWLINE, bytes);
    let size: usize = bytes.len();
    let mut starts: Vec<usize> = Vec::with_capacity(size / 80 + 2);
    starts.push(0);
    let mut i: usize = 0;
    while i < offsets.len()
        invariant
            i <= offsets@.len(),
            size == bytes@.len(),
            starts@.len() == i + 1,
            starts@[0] == 0,
            forall|j: int| 0 <= j < i ==> #[trigger] starts@[j + 1] == offsets@[j] + 1,
            forall|j: int|
                0 <= j < offsets@.len() ==> #[trigger] offsets@[j] < bytes@.len()
                    && bytes@[offsets@[j] as int] == NEWLINE,
        decreases offsets@.len() - i,
    {
        starts.push(offsets[i] + 1);
        i += 1;
    }
    let ghost before = starts@;
    assert forall|a: int, b: int| 0 <= a < b < before.len() implies before[a] < before[b] by {
        assert(before[b - 1 + 1] == offsets@[b - 1] + 1);
        if a > 0 {
            assert(before[a - 1 + 1] == offsets@[a - 1] + 1);
        }
    }
    assert forall|a: int| 0 <= a < before.len() implies is_boundary(
        bytes@,
        #[trigger] before[a] as int,
    ) by {
        if a > 0 {
            assert(before[a - 1 + 1] == offsets@[a - 1] + 1);
        }
    }
    assert forall|k: int| 0 <= k < bytes@.len() && is_boundary(bytes@, k) implies exists|a: int|
        0 <= a < before.len() && before[a] == k by {
        if k > 0 {
            assert(bytes@[k - 1] == NEWLINE);
            let j = choose|j: int| 0 <= j < offsets@.len() && offsets@[j] == k - 1;
            assert(before[j + 1] == k);
        } else {
            assert(before[0] == k);
        }
    }
    if starts[starts.len() - 1] != size {
        starts.push(size);
        let ghost last = before[before.len() - 1];
        assert(last < bytes@.len()) by {
            assert(is_boundary(bytes@, last as int));
        }
        assert(forall|a: int| 0 <= a < before.len() ==> starts@[a] == before[a]);
        assert(starts@[before.len() as int] == bytes@.len());
    }
    assert forall|k: int| #[trigger] is_boundary(bytes@, k) implies exists|a: int|
        0 <= a < starts@.len() && starts@[a] == k by {
        if k == bytes@.len() {
            assert(starts@[starts@.len() - 1] == k);
        } else {
            let a = choose|a: int| 0 <= a < before.len() && before[a] == k;
            assert(starts@[a] == k);
        }
    }
    starts
}

/// Whether `needle` stands in `haystack` at offset `i`.
pub open spec fn occurs_at(haystack: Seq<u8>, needle: Seq<u8>, i: int) -> bool {
    &&& 0 <= i <= haystack.len() - needle.len()
    &&& haystack.subrange(i, i + needle.len()) == needle
}

/// Whether `needle` stands anywhere in `haystack`.
pub open spec fn occurs_in(haystack: Seq<u8>, needle: Seq<u8>) -> bool {
    exists|i: int| occurs_at(haystack, needle, i)
}

/// `memchr::memmem::find`: the offset of the first occurrence of `needle`, `None` where there is
/// none. An empty needle occurs at offset 0.
pub assume_specification[ memmem::find ](haystack: &[u8], needle: &[u8]) -> (found: Option<usize>)
    ensures
        found matches Some(i) ==> occurs_at(haystack@, needle@, i as int),
        found matches Some(i) ==> forall|j: int| 0 <= j < i ==> !occurs_at(haystack@, needle@, j),
        found is None ==> forall|j: int| !occurs_at(haystack@, needle@, j),
;

/// Whether line `i` holds the bytes `query`.
pub fn line_matches(bytes: &[u8], starts: &Vec<usize>, query: &[u8], i: usize) -> (matches: bool)
    requires
        is_line_index(bytes@, starts@),
        i < line_count(starts@),
    ensures
        matches == occurs_in(line(bytes@, starts@, i as int), query@),
{
    proof {
        boundaries_in_file(bytes@, starts@);
    }
    assert(starts.len() == starts@.len());
    let text = slice_subrange(bytes, starts[i], starts[i + 1]);
    memmem::find(text, query).is_some()
}

/// The numbers of all `n` lines, in order.
pub open spec fn all_lines(n: nat) -> Seq<usize> {
    Seq::new(n, |i: int| i as usize)
}

/// The numbers of the lines that hold the bytes `query`, in order.
pub open spec fn matching_lines(bytes: Seq<u8>, starts: Seq<usize>, query: Seq<u8>) -> Seq<usize> {
    all_lines(line_count(starts)).filter(|i: usize| occurs_in(line(bytes, starts, i as int), query))
}

/// A parallel `filter` and `collect` of `rayon` over the range of line numbers: the numbers for
/// which `line_matches` holds, each once, in ascending order.
#[verifier::external_body]
fn filter_lines(bytes: &[u8], starts: &Vec<usize>, query: &[u8], count: usize) -> (kept: Vec<usize>)
    requires
        is_line_index(bytes@, starts@),
        count == line_count(starts@),
    ensures
        kept@ == matching_lines(bytes@, starts@, query@),
{
    (0..count).into_par_iter().filter(|&i| line_matches(bytes, starts, query, i)).collect()
}

/// Selects the lines that hold the bytes `query`; an empty query selects every line.
pub fn select_lines(bytes: &[u8], starts: &Vec<usize>, query: &[u8]) -> (kept: Vec<usize>)
    requires
        is_line_index(bytes@, starts@),
    ensures
        kept@ == matching_lines(bytes@, starts@, query@),
{
    proof {
        boundaries_in_file(bytes@, starts@);
    }
    let count: usize = starts.len() - 1;
    if query.len() > 0 {
        return filter_lines(bytes, starts, query, count);
    }
    let kept = number_lines(count);
    proof {
        empty_query_matches_all(bytes@, starts@, query@);
    }
    kept
}

/// The numbers of all `count` lines, in order.
pub(crate) fn number_lines(count: usize) -> (numbers: Vec<usize>)
    ensures
        numbers@ == all_lines(count as nat),
{
    let mut numbers: Vec<usize> = Vec::new();
    let mut i: usize = 0;
    while i < count
        invariant
            i <= count,
            numbers@ == all_lines(i as nat),
        decreases count - i,
    {
        numbers.push(i);
        i += 1;
    }
    numbers
}

/// A filter that keeps everything changes nothing.
proof fn lemma_filter_all(s: Seq<usize>, keep: spec_fn(usize) -> bool)
    requires
        forall|i: int| 0 <= i < s.len() ==> keep(#[trigger] s[i]),
    ensures
        s.filter(keep) == s,
    decreases s.len(),
{
    reveal(Seq::filter);
    if s.len() > 0 {
        lemma_filter_all(s.drop_last(), keep);
        assert(keep(s[s.len() - 1]));
        assert(s.drop_last().push(s.last()) == s);
    }
}

/// An empty query selects every line.
pub proof fn empty_query_matches_all(bytes: Seq<u8>, starts: Seq<usize>, query: Seq<u8>)
    requires
        query.len() == 0,
    ensures
        matching_lines(bytes, starts, query) == all_lines(line_count(starts)),
{
    let keep = |i: usize| occurs_in(line(bytes, starts, i as int), query);
    let numbers = all_lines(line_count(starts));
    assert forall|i: int| 0 <= i < numbers.len() implies keep(#[trigger] numbers[i]) by {
        let text = line(bytes, starts, numbers[i] as int);
        assert(text.subrange(0, 0) == query);
        assert(occurs_at(text, query, 0));
    }
    lemma_filter_all(numbers, keep);
}

/// Text that holds a byte string holds each part of it.
proof fn lemma_parts_occur(haystack: Seq<u8>, before: Seq<u8>, query: Seq<u8>, after: Seq<u8>)
    requires
        occurs_in(haystack, before + query + after),
    ensures
        occurs_in(haystack, query),
{
    let whole = before + query + after;
    let i = choose|i: int| occurs_at(haystack, whole, i);
    let at = i + before.len();
    assert forall|k: int| 0 <= k < query.len() implies haystack[at + k] == query[k] by {
        assert(haystack.subrange(i, i + whole.len())[before.len() + k] == whole[before.len() + k]);
    }
    assert(haystack.subrange(at, at + query.len()) == query);
    assert(occurs_at(haystack, query, at));
}

/// What a filter keeps of an ascending sequence is ascending, holds only what it keeps, and holds
/// all of that.
proof fn lemma_filter_ascending(s: Seq<usize>, keep: spec_fn(usize) -> bool)
    requires
        forall|i: int, j: int| 0 <= i < j < s.len() ==> s[i] < s[j],
    ensures
        s.filter(keep).len() <= s.len(),
        forall|i: int, j: int|
            0 <= i < j < s.filter(keep).len() ==> s.filter(keep)[i] < s.filter(keep)[j],
        forall|i: int|
            0 <= i < s.filter(keep).len() ==> keep(#[trigger] s.filter(keep)[i]) && s.contains(
                s.filter(keep)[i],
            ),
        forall|i: int|
            0 <= i < s.len() && keep(#[trigger] s[i]) ==> s.filter(keep).contains(s[i]),
    decreases s.len(),
{
    reveal(Seq::filter);
    if s.len() > 0 {
        let init = s.drop_last();
        lemma_filter_ascending(init, keep);
        let kept = init.filter(keep);
        assert forall|i: int| 0 <= i < kept.len() implies keep(#[trigger] kept[i]) && s.contains(
            kept[i],
        ) && kept[i] < s.last() by {
            assert(init.contains(kept[i]));
            let k = choose|k: int| 0 <= k < init.len() && init[k] == kept[i];
            assert(s[k] == kept[i]);
        }
        let all = s.filter(keep);
        assert forall|i: int| 0 <= i < s.len() && keep(#[trigger] s[i]) implies all.contains(
            s[i],
        ) by {
            if i < init.len() {
                assert(init[i] == s[i]);
                assert(kept.contains(s[i]));
                let k = choose|k: int| 0 <= k < kept.len() && kept[k] == s[i];
                assert(all[k] == s[i]);
            } else {
                assert(all[all.len() - 1] == s[i]);
            }
        }
        assert forall|i: int| 0 <= i < all.len() implies s.contains(#[trigger] all[i]) by {
            if i == kept.len() {
                assert(s[s.len() - 1] == all[i]);
            } else {
                assert(all[i] == kept[i]);
            }
        }
    }
}

/// The selected lines are in file order, each once, and a line is among them exactly when it holds
/// the query.
pub proof fn selection_is_exact(bytes: Seq<u8>, starts: Seq<usize>, query: Seq<u8>)
    requires
        is_line_index(bytes, starts),
    ensures
        ({
            let kept = matching_lines(bytes, starts, query);
            &&& kept.len() <= line_count(starts)
            &&& forall|i: int, j: int| 0 <= i < j < kept.len() ==> kept[i] < kept[j]
            &&& forall|i: int|
                0 <= i < kept.len() ==> #[trigger] kept[i] < line_count(starts) && occurs_in(
                    line(bytes, starts, kept[i] as int),
                    query,
                )
            &&& forall|n: usize|
                n < line_count(starts) && occurs_in(line(bytes, starts, n as int), query)
                    ==> #[trigger] kept.contains(n)
        }),
{
    let numbers = all_lines(line_count(starts));
    let keep = |i: usize| occurs_in(line(bytes, starts, i as int), query);
    boundaries_in_file(bytes, starts);
    lemma_size(bytes, starts, starts.len() - 1);
    lemma_filter_ascending(numbers, keep);
    let kept = matching_lines(bytes, starts, query);
    assert forall|i: int| 0 <= i < kept.len() implies #[trigger] kept[i] < line_count(starts)
        && occurs_in(line(bytes, starts, kept[i] as int), query) by {
        assert(keep(kept[i]));
        assert(numbers.contains(kept[i]));
    }
    assert forall|n: usize|
        n < line_count(starts) && occurs_in(line(bytes, starts, n as int), query) implies
        #[trigger] kept.contains(n) by {
        assert(numbers[n as int] == n);
        assert(keep(numbers[n as int]));
    }
}

/// A longer query selects no line that a part of it does not select.
pub proof fn longer_queries_select_less(
    bytes: Seq<u8>,
    starts: Seq<usize>,
    before: Seq<u8>,
    query: Seq<u8>,
    after: Seq<u8>,
    n: usize,
)
    requires
        is_line_index(bytes, starts),
        matching_lines(bytes, starts, before + query + after).contains(n),
    ensures
        matching_lines(bytes, starts, query).contains(n),
{
    selection_is_exact(bytes, starts, before + query + after);
    selection_is_exact(bytes, starts, query);
    lemma_parts_occur(line(bytes, starts, n as int), before, query, after);
}

/// A line index holds no more lines than the file holds bytes.
pub(crate) proof fn lemma_size(bytes: Seq<u8>, starts: Seq<usize>, i: int)
    requires
        is_line_index(bytes, starts),
        0 <= i < starts.len(),
    ensures
        i <= starts[i],
    decreases i,
{
    if i > 0 {
        lemma_size(bytes, starts, i - 1);
        assert(starts[i - 1] < starts[i]);
    }
}

/// The first line boundary is 0 and the last one the length.
pub proof fn boundaries_in_file(bytes: Seq<u8>, starts: Seq<usize>)
    requires
        is_line_index(bytes, starts),
    ensures
        starts.len() > 0,
        starts[0] == 0,
        starts[starts.len() - 1] == bytes.len(),
        forall|i: int| 0 <= i < starts.len() ==> #[trigger] starts[i] <= bytes.len(),
{
    assert(is_boundary(bytes, 0));
    assert(is_boundary(bytes, bytes.len() as int));
    let first = choose|i: int| 0 <= i < starts.len() && starts[i] == 0;
    let last = choose|i: int| 0 <= i < starts.len() && starts[i] == bytes.len();
    assert(starts[0] <= starts[first]);
    assert forall|i: int| 0 <= i < starts.len() implies #[trigger] starts[i] <= bytes.len() by {
        assert(is_boundary(bytes, starts[i] as int));
    }
    assert(starts[last] <= starts[starts.len() - 1]);
}

/// Each line holds at least one byte, only its last byte can be a newline, and every line but the
/// last ends in one.
pub proof fn lines_end_at_newlines(bytes: Seq<u8>, starts: Seq<usize>, i: int)
    requires
        is_line_index(bytes, starts),
        0 <= i < line_count(starts),
    ensures
        line(bytes, starts, i).len() > 0,
        forall|j: int|
            0 <= j < line(bytes, starts, i).len() - 1 ==> #[trigger] line(bytes, starts, i)[j]
                != NEWLINE,
        i + 1 < line_count(starts) ==> line(bytes, starts, i).last() == NEWLINE,
{
    boundaries_in_file(bytes, starts);
    let text = line(bytes, starts, i);
    let from = starts[i] as int;
    let to = starts[i + 1] as int;
    assert(from < to <= bytes.len());
    assert forall|j: int| 0 <= j < text.len() - 1 implies #[trigger] text[j] != NEWLINE by {
        if text[j] == NEWLINE {
            let k = from + j + 1;
            assert(bytes[k - 1] == NEWLINE);
            assert(is_boundary(bytes, k));
            let a = choose|a: int| 0 <= a < starts.len() && starts[a] == k;
            if a <= i {
                assert(starts[a] <= starts[i]);
            } else {
                assert(starts[i + 1] <= starts[a]);
            }
        }
    }
    if i + 1 < line_count(starts) {
        assert(starts[i + 1] < starts[starts.len() - 1]);
        assert(is_boundary(bytes, starts[i + 1] as int));
    }
}

/// The first `n` lines, joined.
pub open spec fn joined_lines(bytes: Seq<u8>, starts: Seq<usize>, n: nat) -> Seq<u8>
    decreases n,
{
    if n == 0 {
        Seq::empty()
    } else {
        joined_lines(bytes, starts, (n - 1) as nat) + line(bytes, starts, n - 1)
    }
}

/// The first lines, joined, are the file up to the boundary behind them.
proof fn lemma_joined(bytes: Seq<u8>, starts: Seq<usize>, n: nat)
    requires
        is_line_index(bytes, starts),
        n <= line_count(starts),
    ensures
        joined_lines(bytes, starts, n) == bytes.take(starts[n as int] as int),
    decreases n,
{
    boundaries_in_file(bytes, starts);
    if n > 0 {
        lemma_joined(bytes, starts, (n - 1) as nat);
        assert(starts[n - 1] < starts[n as int]);
    }
    assert(joined_lines(bytes, starts, n) == bytes.take(starts[n as int] as int));
}

/// The lines, joined in order, are the file: no byte is lost, repeated or moved.
pub proof fn lines_make_up_the_file(bytes: Seq<u8>, starts: Seq<usize>)
    requires
        is_line_index(bytes, starts),
    ensures
        joined_lines(bytes, starts, line_count(starts)) == bytes,
{
    boundaries_in_file(bytes, starts);
    lemma_joined(bytes, starts, line_count(starts));
    assert(bytes.take(bytes.len() as int) == bytes);
}

/// A file has only one line index.
pub proof fn line_index_is_unique(bytes: Seq<u8>, a: Seq<usize>, b: Seq<usize>)
    requires
        is_line_index(bytes, a),
        is_line_index(bytes, b),
    ensures
        a == b,
{
    lemma_same_prefix(bytes, a, b, a.len());
    lemma_same_prefix(bytes, b, a, b.len());
}

/// Two indexes of one file agree on the first `n` boundaries of the first.
proof fn lemma_same_prefix(bytes: Seq<u8>, a: Seq<usize>, b: Seq<usize>, n: nat)
    requires
        is_line_index(bytes, a),
        is_line_index(bytes, b),
        n <= a.len(),
    ensures
        n <= b.len(),
        forall|i: int| 0 <= i < n ==> a[i] == b[i],
    decreases n,
{
    if n > 0 {
        lemma_same_prefix(bytes, a, b, (n - 1) as nat);
        let m = n - 1;
        assert(is_boundary(bytes, a[m] as int));
        let j = choose|j: int| 0 <= j < b.len() && b[j] == a[m];
        if j < m {
            assert(a[j] < a[m]);
        }
        if j > m {
            assert(b[m] < b[j]);
            assert(is_boundary(bytes, b[m] as int));
            let i = choose|i: int| 0 <= i < a.len() && a[i] == b[m];
            if i < m {
                assert(b[i] < b[m]);
            } else {
                assert(a[m] <= a[i]);
            }
        }
    }
}

/// A query is found wherever it stands in a text.
pub proof fn queries_are_found_anywhere(before: Seq<u8>, query: Seq<u8>, after: Seq<u8>)
    ensures
        occurs_in(before + query + after, query),
{
    let text = before + query + after;
    let at = before.len() as int;
    assert(text.subrange(at, at + query.len()) == query);
    assert(occurs_at(text, query, at));
}

/// A query is found only where it stands in the text.
pub proof fn found_queries_stand_in_the_text(text: Seq<u8>, query: Seq<u8>) -> (at: int)
    requires
        occurs_in(text, query),
    ensures
        0 <= at <= at + query.len() <= text.len(),
        text == text.take(at) + query + text.skip(at + query.len()),
{
    let at = choose|at: int| occurs_at(text, query, at);
    assert(text == text.take(at) + text.subrange(at, at + query.len()) + text.skip(
        at + query.len(),
    ));
    at
}

/// The line boundaries are the two ends of the file and the places behind its newlines.
pub proof fn boundaries_follow_newlines(bytes: Seq<u8>, starts: Seq<usize>, k: usize)
    requires
        is_line_index(bytes, starts),
    ensures
        starts.contains(k) <==> k == 0 || k == bytes.len() || 0 < k < bytes.len() && bytes[k - 1]
            == 10u8,
{
    if starts.contains(k) {
        let i = choose|i: int| 0 <= i < starts.len() && starts[i] == k;
        assert(is_boundary(bytes, starts[i] as int));
    }
    if is_boundary(bytes, k as int) {
        let i = choose|i: int| 0 <= i < starts.len() && starts[i] == k;
        assert(starts[i] == k);
    }
}

/// Wherever a file holds a line, that is bytes up to and with a newline, or up to the end, behind
/// another newline or at the start, that line has a number, and its number leads to its bytes.
pub proof fn every_line_has_a_number(
    starts: Seq<usize>,
    before: Seq<u8>,
    content: Seq<u8>,
    after: Seq<u8>,
) -> (n: int)
    requires
        is_line_index(before + content + after, starts),
        before.len() > 0 ==> before.last() == 10u8,
        content.len() > 0,
        forall|i: int| 0 <= i < content.len() - 1 ==> content[i] != 10u8,
        content.last() == 10u8 || after.len() == 0,
    ensures
        0 <= n < line_count(starts),
        n + 1 < starts.len(),
        starts[n] == before.len(),
        starts[n + 1] == before.len() + content.len(),
        line(before + content + after, starts, n) == content,
{
    let bytes = before + content + after;
    let from = before.len() as int;
    let to = from + content.len();
    boundaries_in_file(bytes, starts);
    if from > 0 {
        assert(bytes[from - 1] == before.last());
    }
    assert(is_boundary(bytes, from));
    assert(bytes[to - 1] == content.last());
    assert(is_boundary(bytes, to));
    let n = choose|n: int| 0 <= n < starts.len() && starts[n] == from;
    let m = choose|m: int| 0 <= m < starts.len() && starts[m] == to;
    if m <= n {
        assert(starts[m] <= starts[n]);
    }
    if n + 1 < m {
        let k = starts[n + 1] as int;
        assert(starts[n] < starts[n + 1] < starts[m]);
        assert(is_boundary(bytes, k));
        assert(bytes[k - 1] == content[k - 1 - from]);
    }
    assert(bytes.subrange(from, to) == content);
    n
}

/// A line is selected when the query stands in its bytes, wherever it stands.
pub proof fn lines_with_the_query_are_selected(
    bytes: Seq<u8>,
    starts: Seq<usize>,
    n: usize,
    before: Seq<u8>,
    query: Seq<u8>,
    after: Seq<u8>,
)
    requires
        is_line_index(bytes, starts),
        n + 1 < starts.len(),
        bytes.subrange(starts[n as int] as int, starts[n + 1] as int) == before + query + after,
    ensures
        matching_lines(bytes, starts, query).contains(n),
{
    queries_are_found_anywhere(before, query, after);
    selection_is_exact(bytes, starts, query);
}

/// A selected line exists, and the query stands in its bytes.
pub proof fn selected_lines_hold_the_query(
    bytes: Seq<u8>,
    starts: Seq<usize>,
    query: Seq<u8>,
    n: usize,
) -> (at: int)
    requires
        is_line_index(bytes, starts),
        matching_lines(bytes, starts, query).contains(n),
    ensures
        n + 1 < starts.len(),
        starts[n as int] <= at <= at + query.len() <= starts[n + 1],
        bytes.subrange(at, at + query.len()) == query,
{
    selection_is_exact(bytes, starts, query);
    boundaries_in_file(bytes, starts);
    let kept = matching_lines(bytes, starts, query);
    let k = choose|k: int| 0 <= k < kept.len() && kept[k] == n;
    assert(kept[k] < line_count(starts));
    let from = starts[n as int] as int;
    let to = starts[n + 1] as int;
    assert(starts[n as int] < starts[n + 1]);
    let text = bytes.subrange(from, to);
    let at = found_queries_stand_in_the_text(text, query);
    assert(text.subrange(at, at + query.len()) == query);
    assert(bytes.subrange(from + at, from + at + query.len()) == query);
    from + at
}

/// All lines, listed, are the numbers from 0 on.
pub proof fn all_lines_are_in_file_order(n: nat, i: int)
    requires
        n <= usize::MAX,
        0 <= i < n,
    ensures
        all_lines(n).len() == n,
        all_lines(n)[i] == i,
{
}

} // verus!
