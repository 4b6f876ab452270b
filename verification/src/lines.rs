//! The lines of a log, as bytes.
//!
//! A line feed is never a part of another character's encoding, so lines are
//! told apart before they are decoded.

use vstd::prelude::*;
use vstd::slice::{slice_subrange, slice_to_vec};

verus! {

/// The byte that ends a line.
pub const LINE_FEED: u8 = 0x0a;

/// The byte that may stand before a line feed and then belongs to the ending.
pub const CARRIAGE_RETURN: u8 = 0x0d;

/// The index of the first line feed, or the length if there is none.
pub open spec fn first_line_feed(b: Seq<u8>) -> int
    decreases b.len(),
{
    if b.len() == 0 || b.first() == LINE_FEED {
        0
    } else {
        1 + first_line_feed(b.drop_first())
    }
}

/// A line without the carriage return that belongs to its line ending.
pub open spec fn without_carriage_return(b: Seq<u8>) -> Seq<u8> {
    if b.len() > 0 && b.last() == CARRIAGE_RETURN {
        b.drop_last()
    } else {
        b
    }
}

/// The lines of a piece of log. A line ends with a line feed, or a carriage
/// return and a line feed; the ending is not part of the line and is optional
/// on the last one.
pub open spec fn lines_spec(b: Seq<u8>) -> Seq<Seq<u8>>
    decreases b.len(),
{
    let k = first_line_feed(b);
    if b.len() == 0 {
        Seq::empty()
    } else if 0 <= k < b.len() {
        seq![without_carriage_return(b.take(k))] + lines_spec(b.skip(k + 1))
    } else {
        seq![b]
    }
}

/// The number of bytes up to and including the last line feed.
pub open spec fn finished_len(b: Seq<u8>) -> nat
    decreases b.len(),
{
    if b.len() == 0 {
        0
    } else if b.last() == LINE_FEED {
        b.len()
    } else {
        finished_len(b.drop_last())
    }
}

/// The lines that have been written to their end.
pub open spec fn finished(b: Seq<u8>) -> Seq<u8> {
    b.take(finished_len(b) as int)
}

/// The line at the end that still is being written.
pub open spec fn unfinished(b: Seq<u8>) -> Seq<u8> {
    b.skip(finished_len(b) as int)
}

proof fn lemma_first_line_feed(b: Seq<u8>, k: int)
    requires
        0 <= k <= b.len(),
        forall|i: int| 0 <= i < k ==> b[i] != LINE_FEED,
        k < b.len() ==> b[k] == LINE_FEED,
    ensures
        first_line_feed(b) == k,
    decreases b.len(),
{
    if b.len() > 0 && k > 0 {
        assert(b[0] != LINE_FEED);
        lemma_first_line_feed(b.drop_first(), k - 1);
    }
}

/// The first line feed is one, if there is any, and there is none before it.
pub proof fn no_line_feed_before_the_first(b: Seq<u8>)
    ensures
        0 <= first_line_feed(b) <= b.len(),
        first_line_feed(b) < b.len() ==> b[first_line_feed(b)] == LINE_FEED,
        forall|i: int| 0 <= i < first_line_feed(b) ==> b[i] != LINE_FEED,
    decreases b.len(),
{
    if b.len() > 0 && b.first() != LINE_FEED {
        let rest = b.drop_first();
        no_line_feed_before_the_first(rest);
        assert forall|i: int| 0 <= i < first_line_feed(b) implies b[i] != LINE_FEED by {
            if i > 0 {
                assert(rest[i - 1] == b[i]);
            }
        }
    }
}

/// The finished part is empty or ends with a line feed, and no line feed comes
/// after it.
pub proof fn finished_part_ends_a_line(b: Seq<u8>)
    ensures
        finished_len(b) <= b.len(),
        finished_len(b) > 0 ==> b[finished_len(b) - 1] == LINE_FEED,
        forall|i: int| finished_len(b) <= i < b.len() ==> b[i] != LINE_FEED,
    decreases b.len(),
{
    if b.len() > 0 && b.last() != LINE_FEED {
        let init = b.drop_last();
        finished_part_ends_a_line(init);
        assert forall|i: int| finished_len(b) <= i < b.len() implies b[i] != LINE_FEED by {
            if i < init.len() {
                assert(init[i] == b[i]);
            }
        }
    }
}

proof fn lemma_finished_len(b: Seq<u8>, n: nat)
    requires
        n <= b.len(),
        n > 0 ==> b[n - 1] == LINE_FEED,
        forall|i: int| n <= i < b.len() ==> b[i] != LINE_FEED,
    ensures
        finished_len(b) == n,
    decreases b.len(),
{
    if b.len() > 0 && n < b.len() {
        assert(b[b.len() - 1] != LINE_FEED);
        lemma_finished_len(b.drop_last(), n);
    }
}

/// What follows finished lines is finished as far as it is on its own.
pub proof fn finishing_goes_on(a: Seq<u8>, b: Seq<u8>)
    requires
        finished_len(a) == a.len(),
    ensures
        finished_len(a + b) == a.len() + finished_len(b),
{
    finished_part_ends_a_line(a);
    finished_part_ends_a_line(b);
    let n = a.len() + finished_len(b);
    let t = a + b;
    assert forall|i: int| n <= i < t.len() implies t[i] != LINE_FEED by {
        assert(t[i] == b[i - a.len()]);
    }
    if n > 0 {
        if finished_len(b) > 0 {
            assert(t[n - 1] == b[finished_len(b) - 1]);
        } else {
            assert(t[n - 1] == a[a.len() - 1]);
        }
    }
    lemma_finished_len(t, n);
}

/// The lines of finished lines and what follows them are the lines of both.
pub proof fn lines_go_on(a: Seq<u8>, b: Seq<u8>)
    requires
        finished_len(a) == a.len(),
    ensures
        lines_spec(a + b) == lines_spec(a) + lines_spec(b),
    decreases a.len(),
{
    if a.len() == 0 {
        assert(a + b == b);
        assert(lines_spec(a) + lines_spec(b) == lines_spec(b));
    } else {
        let t = a + b;
        finished_part_ends_a_line(a);
        no_line_feed_before_the_first(a);
        let k = first_line_feed(a);
        assert(k < a.len());
        assert forall|i: int| 0 <= i < k implies t[i] != LINE_FEED by {
            assert(t[i] == a[i]);
        }
        assert(t[k] == a[k]);
        lemma_first_line_feed(t, k);
        let rest = a.skip(k + 1);
        assert(t.take(k) == a.take(k));
        assert(t.skip(k + 1) == rest + b);
        assert(finished_len(rest) == rest.len()) by {
            if rest.len() > 0 {
                assert(rest.last() == a.last());
            }
        }
        lines_go_on(rest, b);
        let line = seq![without_carriage_return(a.take(k))];
        assert(line + (lines_spec(rest) + lines_spec(b)) == (line + lines_spec(rest)) + lines_spec(
            b,
        ));
    }
}

/// The line that still is being written has no finished part.
pub proof fn unfinished_line_is_unfinished(b: Seq<u8>)
    ensures
        finished_len(unfinished(b)) == 0,
{
    finished_part_ends_a_line(b);
    lemma_finished_len(unfinished(b), 0);
}

/// The finished part has nothing unfinished.
pub proof fn finished_part_is_finished(b: Seq<u8>)
    ensures
        finished_len(finished(b)) == finished(b).len(),
{
    finished_part_ends_a_line(b);
    lemma_finished_len(finished(b), finished(b).len());
}

/// Bytes without a line feed have no finished part.
pub proof fn no_line_feed_is_unfinished(b: Seq<u8>)
    requires
        forall|i: int| 0 <= i < b.len() ==> b[i] != LINE_FEED,
    ensures
        finished_len(b) == 0,
{
    lemma_finished_len(b, 0);
}

/// The number of bytes up to and including the last line feed.
pub fn count_finished(bytes: &[u8]) -> (n: usize)
    ensures
        n == finished_len(bytes@),
        n <= bytes@.len(),
{
    let mut n: usize = bytes.len();
    assert(bytes@.take(n as int) == bytes@);
    while n > 0
        invariant
            n <= bytes@.len(),
            finished_len(bytes@) == finished_len(bytes@.take(n as int)),
        decreases n,
    {
        if bytes[n - 1] == LINE_FEED {
            assert(bytes@.take(n as int).last() == LINE_FEED);
            return n;
        }
        assert(bytes@.take(n as int).drop_last() == bytes@.take(n - 1));
        n = n - 1;
    }
    0
}

/// The lines of a piece of log, in order.
pub fn lines_of(bytes: &[u8]) -> (r: Vec<Vec<u8>>)
    ensures
        r@.len() == lines_spec(bytes@).len(),
        forall|i: int| 0 <= i < r@.len() ==> (#[trigger] r@[i])@ == lines_spec(bytes@)[i],
{
    let ghost b = bytes@;
    let n: usize = bytes.len();
    let mut r: Vec<Vec<u8>> = Vec::new();
    let mut start: usize = 0;
    let mut i: usize = 0;
    assert(b.skip(0) == b);
    while i < n
        invariant
            b == bytes@,
            n == b.len(),
            start <= i <= n,
            forall|j: int| start <= j < i ==> b[j] != LINE_FEED,
            lines_spec(b).len() == r@.len() + lines_spec(b.skip(start as int)).len(),
            forall|j: int| 0 <= j < r@.len() ==> (#[trigger] r@[j])@ == lines_spec(b)[j],
            forall|j: int|
                0 <= j < lines_spec(b.skip(start as int)).len() ==> #[trigger] lines_spec(
                    b.skip(start as int),
                )[j] == lines_spec(b)[r@.len() + j],
        decreases n - i,
    {
        if bytes[i] == LINE_FEED {
            let ghost tail = b.skip(start as int);
            let ghost k = i - start;
            let to: usize = if i > start && bytes[i - 1] == CARRIAGE_RETURN { i - 1 } else { i };
            let line: Vec<u8> = slice_to_vec(slice_subrange(bytes, start, to));
            proof {
                lemma_first_line_feed(tail, k);
                assert(line@ =~= without_carriage_return(tail.take(k)));
                assert(tail.skip(k + 1) == b.skip(i + 1));
                assert(lines_spec(tail) == seq![line@] + lines_spec(b.skip(i + 1)));
                assert(lines_spec(tail)[0] == line@);
                assert forall|j: int|
                    0 <= j < lines_spec(b.skip(i + 1)).len() implies #[trigger] lines_spec(
                    b.skip(i + 1),
                )[j] == lines_spec(b)[r@.len() + 1 + j] by {
                    assert(lines_spec(tail)[j + 1] == lines_spec(b.skip(i + 1))[j]);
                }
            }
            r.push(line);
            start = i + 1;
        }
        i = i + 1;
    }
    let ghost tail = b.skip(start as int);
    proof {
        lemma_first_line_feed(tail, tail.len() as int);
    }
    if start < n {
        let line: Vec<u8> = slice_to_vec(slice_subrange(bytes, start, n));
        proof {
            assert(line@ =~= tail);
            assert(lines_spec(tail)[0] == line@);
        }
        r.push(line);
    }
    r
}

/// A text without a line feed is one line, and it still is with a line ending
/// behind it. Nothing is no line, and a line feed alone is an empty one.
pub proof fn one_line_is_one_line(line: Seq<u8>)
    requires
        forall|i: int| 0 <= i < line.len() ==> line[i] != LINE_FEED,
    ensures
        lines_spec(line) == if line.len() == 0 {
            Seq::<Seq<u8>>::empty()
        } else {
            seq![line]
        },
        line.len() == 0 || line.last() != CARRIAGE_RETURN ==> lines_spec(line.push(LINE_FEED))
            == seq![line],
        lines_spec(line.push(CARRIAGE_RETURN).push(LINE_FEED)) == seq![line],
{
    reveal_with_fuel(lines_spec, 2);
    lemma_first_line_feed(line, line.len() as int);
    let ended = line.push(LINE_FEED);
    lemma_first_line_feed(ended, line.len() as int);
    assert(ended.take(line.len() as int) == line);
    assert(ended.skip(line.len() as int + 1).len() == 0);
    assert(seq![line] + Seq::<Seq<u8>>::empty() =~= seq![line]);
    let returned = line.push(CARRIAGE_RETURN);
    let both = returned.push(LINE_FEED);
    lemma_first_line_feed(both, returned.len() as int);
    assert(both.take(returned.len() as int) == returned);
    assert(both.skip(returned.len() as int + 1).len() == 0);
    assert(returned.drop_last() == line);
}

} // verus!
