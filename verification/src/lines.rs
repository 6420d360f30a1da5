//! Byte streams as lines, tolerant of non-UTF-8 output.

use vstd::prelude::*;

use crate::bytes;

verus! {

/// Where the first newline stands; the length when there is none.
pub open spec fn newline(s: Seq<u8>) -> int
    decreases s.len(),
{
    if s.len() == 0 || s[0] == 10 {
        0
    } else {
        1 + newline(s.skip(1))
    }
}

/// A line without the carriage return at its end.
pub open spec fn bare(line: Seq<u8>) -> Seq<u8> {
    if line.len() > 0 && line.last() == 13 {
        line.drop_last()
    } else {
        line
    }
}

/// The lines of a stream that a newline ends.
pub open spec fn ended_lines(s: Seq<u8>) -> Seq<Seq<u8>>
    decreases s.len(),
{
    let n = newline(s);
    if 0 <= n < s.len() {
        seq![bare(s.take(n))] + ended_lines(s.skip(n + 1))
    } else {
        Seq::empty()
    }
}

/// What stands after the last newline.
pub open spec fn unended(s: Seq<u8>) -> Seq<u8>
    decreases s.len(),
{
    let n = newline(s);
    if 0 <= n < s.len() {
        unended(s.skip(n + 1))
    } else {
        s
    }
}

/// All lines of a stream; what no newline ends counts as one when there is any.
pub open spec fn all_lines(s: Seq<u8>) -> Seq<Seq<u8>> {
    if unended(s).len() == 0 {
        ended_lines(s)
    } else {
        ended_lines(s).push(bare(unended(s)))
    }
}

/// The views of a list of lines.
pub open spec fn views(list: Seq<Vec<u8>>) -> Seq<Seq<u8>> {
    list.map_values(|line: Vec<u8>| line@)
}

pub proof fn lemma_newline(s: Seq<u8>)
    ensures
        0 <= newline(s) <= s.len(),
        newline(s) < s.len() ==> s[newline(s)] == 10,
        forall|i: int| 0 <= i < newline(s) ==> s[i] != 10,
    decreases s.len(),
{
    if s.len() > 0 && s[0] != 10 {
        lemma_newline(s.skip(1));
        assert forall|i: int| 0 <= i < newline(s) implies s[i] != 10 by {
            if i > 0 {
                assert(s.skip(1)[i - 1] == s[i]);
            }
        }
    }
}

pub proof fn lemma_newline_is(s: Seq<u8>, n: int)
    requires
        0 <= n <= s.len(),
        n < s.len() ==> s[n] == 10,
        forall|i: int| 0 <= i < n ==> s[i] != 10,
    ensures
        newline(s) == n,
    decreases s.len(),
{
    if s.len() > 0 && s[0] != 10 {
        assert forall|i: int| 0 <= i < n - 1 implies s.skip(1)[i] != 10 by {
            assert(s[i + 1] != 10);
        }
        lemma_newline_is(s.skip(1), n - 1);
    }
}

/// Lines are cut alike whether a stream comes in one piece or in two.
pub proof fn law_lines_do_not_depend_on_chunks(a: Seq<u8>, b: Seq<u8>)
    ensures
        ended_lines(a + b) == ended_lines(a) + ended_lines(unended(a) + b),
        unended(a + b) == unended(unended(a) + b),
    decreases a.len(),
{
    let n = newline(a);
    lemma_newline(a);
    if n < a.len() {
        let s = a + b;
        assert forall|i: int| 0 <= i < n implies s[i] != 10 by {
            assert(a[i] != 10);
        }
        lemma_newline_is(s, n);
        assert(s.skip(n + 1) =~= a.skip(n + 1) + b);
        assert(s.take(n) =~= a.take(n));
        law_lines_do_not_depend_on_chunks(a.skip(n + 1), b);
        assert(ended_lines(s) =~= ended_lines(a) + ended_lines(unended(a) + b));
    } else {
        assert(ended_lines(a) =~= Seq::empty());
        assert(ended_lines(a) + ended_lines(a + b) =~= ended_lines(a + b));
    }
}

/// The first line of a stream, and the rest of it.
pub proof fn lemma_first_line(s: Seq<u8>, n: int)
    requires
        0 <= n < s.len(),
        s[n] == 10,
        forall|i: int| 0 <= i < n ==> s[i] != 10,
    ensures
        ended_lines(s) == seq![bare(s.take(n))] + ended_lines(s.skip(n + 1)),
        unended(s) == unended(s.skip(n + 1)),
        all_lines(s) == seq![bare(s.take(n))] + all_lines(s.skip(n + 1)),
{
    lemma_newline_is(s, n);
    assert(all_lines(s) =~= seq![bare(s.take(n))] + all_lines(s.skip(n + 1)));
}

/// Splits a byte stream into lines.
pub struct LineBuffer {
    /// What no newline has ended yet.
    pub buf: Vec<u8>,
}

fn bare_range(bytes: &Vec<u8>, from: usize, to: usize) -> (line: Vec<u8>)
    requires
        from <= to <= bytes@.len(),
    ensures
        line@ == bare(bytes@.subrange(from as int, to as int)),
{
    let mut line: Vec<u8> = Vec::new();
    let mut i: usize = from;
    while i < to
        invariant
            from <= i <= to <= bytes@.len(),
            line@ == bytes@.subrange(from as int, i as int),
        decreases to - i,
    {
        line.push(bytes[i]);
        assert(line@ =~= bytes@.subrange(from as int, i + 1));
        i = i + 1;
    }
    if line.len() > 0 && line[line.len() - 1] == 13 {
        let _ = line.pop();
    }
    assert(line@ =~= bare(bytes@.subrange(from as int, to as int)));
    line
}

impl LineBuffer {
    pub fn new() -> (out: LineBuffer)
        ensures
            out.buf@ == Seq::<u8>::empty(),
    {
        LineBuffer { buf: Vec::new() }
    }

    /// Take in more of the stream; the lines that are complete come out.
    pub fn push(&mut self, more: &[u8]) -> (out: Vec<Vec<u8>>)
        ensures
            views(out@) == ended_lines(old(self).buf@ + more@),
            final(self).buf@ == unended(old(self).buf@ + more@),
    {
        let ghost all = self.buf@ + more@;
        bytes::push_bytes(&mut self.buf, more);
        let mut out: Vec<Vec<u8>> = Vec::new();
        let mut start: usize = 0;
        let mut i: usize = 0;
        assert(all.skip(0) =~= all);
        assert(views(out@) + ended_lines(all) =~= ended_lines(all));
        while i < self.buf.len()
            invariant
                self.buf@ == all,
                start <= i <= all.len(),
                forall|k: int| start <= k < i ==> all[k] != 10,
                views(out@) + ended_lines(all.skip(start as int)) == ended_lines(all),
                unended(all.skip(start as int)) == unended(all),
            decreases self.buf.len() - i,
        {
            if self.buf[i] == 10 {
                let line = bare_range(&self.buf, start, i);
                proof {
                    let rest = all.skip(start as int);
                    let n = i - start;
                    assert forall|k: int| 0 <= k < n implies rest[k] != 10 by {
                        assert(all[k + start] != 10);
                    }
                    assert(rest[n] == 10);
                    lemma_first_line(rest, n);
                    assert(rest.take(n) =~= all.subrange(start as int, i as int));
                    assert(rest.skip(n + 1) =~= all.skip(i + 1));
                }
                let ghost before = out@;
                let ghost text = line@;
                out.push(line);
                proof {
                    assert(views(out@) =~= views(before).push(text));
                    assert(views(out@) + ended_lines(all.skip(i + 1)) =~= views(before) + (
                    seq![text] + ended_lines(all.skip(i + 1))));
                }
                start = i + 1;
            }
            i = i + 1;
        }
        proof {
            let rest = all.skip(start as int);
            assert forall|k: int| 0 <= k < rest.len() implies rest[k] != 10 by {
                assert(all[k + start] != 10);
            }
            lemma_newline_is(rest, rest.len() as int);
            assert(views(out@) + ended_lines(rest) =~= views(out@));
        }
        let mut left: Vec<u8> = Vec::new();
        let mut k: usize = start;
        while k < self.buf.len()
            invariant
                self.buf@ == all,
                start <= k <= all.len(),
                left@ == all.subrange(start as int, k as int),
            decreases self.buf.len() - k,
        {
            left.push(self.buf[k]);
            assert(left@ =~= all.subrange(start as int, k + 1));
            k = k + 1;
        }
        assert(left@ =~= all.skip(start as int));
        self.buf = left;
        out
    }

    /// Hand out whatever has not been terminated by a newline yet.
    pub fn flush(&mut self) -> (out: Option<Vec<u8>>)
        ensures
            final(self).buf@ == Seq::<u8>::empty(),
            match out {
                Some(line) => old(self).buf@.len() > 0 && line@ == bare(old(self).buf@),
                None => old(self).buf@.len() == 0,
            },
    {
        if self.buf.len() == 0 {
            assert(self.buf@ =~= Seq::<u8>::empty());
            return None;
        }
        let end = self.buf.len();
        let line = bare_range(&self.buf, 0, end);
        assert(self.buf@.subrange(0, end as int) =~= self.buf@);
        self.buf = Vec::new();
        Some(line)
    }
}

/// All lines of a finished stream.
pub fn split_all(stream: &[u8]) -> (out: Vec<Vec<u8>>)
    ensures
        views(out@) == all_lines(stream@),
{
    let mut buffer = LineBuffer::new();
    assert(buffer.buf@ + stream@ =~= stream@);
    let mut out = buffer.push(stream);
    let ghost ended = out@;
    match buffer.flush() {
        Some(line) => {
            let ghost text = line@;
            out.push(line);
            assert(views(out@) =~= views(ended).push(text));
        },
        None => {},
    }
    out
}

// ---------------------------------------------------------------------- tail
/// The last `n` of a list.
pub open spec fn last_lines(list: Seq<Seq<u8>>, n: int) -> Seq<Seq<u8>> {
    if list.len() <= n {
        list
    } else {
        list.skip(list.len() - n)
    }
}

/// Keep the last `n` lines.
pub fn keep_last(list: Vec<Vec<u8>>, n: usize) -> (out: Vec<Vec<u8>>)
    ensures
        views(out@) == last_lines(views(list@), n as int),
{
    if list.len() <= n {
        return list;
    }
    let mut out: Vec<Vec<u8>> = Vec::new();
    let from = list.len() - n;
    let mut i: usize = from;
    while i < list.len()
        invariant
            from <= i <= list@.len(),
            views(out@) == views(list@).subrange(from as int, i as int),
        decreases list.len() - i,
    {
        let ghost before = out@;
        let line = bytes::copied(list[i].as_slice());
        let ghost text = line@;
        out.push(line);
        proof {
            assert(views(out@) =~= views(before).push(text));
            assert(views(list@)[i as int] == text);
            assert(views(list@).subrange(from as int, i + 1) =~= views(list@).subrange(
                from as int,
                i as int,
            ).push(text));
        }
        i = i + 1;
    }
    assert(views(out@) =~= views(list@).skip(from as int));
    out
}

/// Is `at` the start of a line, or the end of the stream?
pub open spec fn line_start(s: Seq<u8>, at: int) -> bool {
    at == 0 || at == s.len() || (0 < at < s.len() && s[at - 1] == 10)
}

/// The byte offset at which a follower should start to replay a tail window.
///
/// A partial final line counts toward the window, matching non-follow replay.
pub fn tail_start_offset(stream: &[u8], tail: usize) -> (r: usize)
    ensures
        r <= stream@.len(),
        line_start(stream@, r as int),
        all_lines(stream@.skip(r as int)) == last_lines(all_lines(stream@), tail as int),
        tail == 0 ==> r == stream@.len(),
        all_lines(stream@).len() <= tail ==> r == 0 || stream@.len() == 0,
{
    let ghost s = stream@;
    if tail == 0 {
        proof {
            let none = s.skip(s.len() as int);
            assert(none =~= Seq::<u8>::empty());
            assert(newline(none) == 0);
            assert(all_lines(none) =~= Seq::empty());
            assert(last_lines(all_lines(s), 0) =~= Seq::empty());
        }
        return stream.len();
    }
    let total = count_lines(stream);
    assert(s.skip(0) =~= s);
    if total <= tail {
        return 0;
    }
    let mut left = total - tail;
    let mut start: usize = 0;
    let mut i: usize = 0;
    assert(all_lines(s).skip(0) =~= all_lines(s));
    while i < stream.len()
        invariant
            stream@ == s,
            tail > 0,
            total == all_lines(s).len(),
            0 < left <= total - tail,
            start <= i <= s.len(),
            line_start(s, start as int),
            forall|k: int| start <= k < i ==> s[k] != 10,
            all_lines(s.skip(start as int)) == all_lines(s).skip(total - tail - left),
        decreases stream.len() - i,
    {
        if stream[i] == 10 {
            proof {
                let rest = s.skip(start as int);
                let n = i - start;
                assert forall|k: int| 0 <= k < n implies rest[k] != 10 by {
                    assert(s[k + start] != 10);
                }
                assert(rest[n] == 10);
                lemma_first_line(rest, n);
                assert(rest.skip(n + 1) =~= s.skip(i + 1));
                assert(all_lines(rest).skip(1) =~= all_lines(s.skip(i + 1)));
                assert(all_lines(s).skip(total - tail - left).skip(1) =~= all_lines(s).skip(
                    total - tail - left + 1,
                ));
            }
            start = i + 1;
            left = left - 1;
            if left == 0 {
                return start;
            }
        }
        i = i + 1;
    }
    proof {
        let rest = s.skip(start as int);
        assert forall|k: int| 0 <= k < rest.len() implies rest[k] != 10 by {
            assert(s[k + start] != 10);
        }
        lemma_newline_is(rest, rest.len() as int);
        assert(all_lines(rest).len() <= 1);
        assert(all_lines(s).skip(total - tail - left).len() == tail + left);
        assert(false);
    }
    start
}

/// How many lines a stream holds.
fn count_lines(stream: &[u8]) -> (r: usize)
    ensures
        r == all_lines(stream@).len(),
{
    let ghost s = stream@;
    let mut count: usize = 0;
    let mut start: usize = 0;
    let mut i: usize = 0;
    assert(s.skip(0) =~= s);
    while i < stream.len()
        invariant
            stream@ == s,
            count <= start <= i <= s.len(),
            forall|k: int| start <= k < i ==> s[k] != 10,
            count + all_lines(s.skip(start as int)).len() == all_lines(s).len(),
        decreases stream.len() - i,
    {
        if stream[i] == 10 {
            proof {
                let rest = s.skip(start as int);
                let n = i - start;
                assert forall|k: int| 0 <= k < n implies rest[k] != 10 by {
                    assert(s[k + start] != 10);
                }
                assert(rest[n] == 10);
                lemma_first_line(rest, n);
                assert(rest.skip(n + 1) =~= s.skip(i + 1));
            }
            start = i + 1;
            count = count + 1;
        }
        i = i + 1;
    }
    proof {
        let rest = s.skip(start as int);
        assert forall|k: int| 0 <= k < rest.len() implies rest[k] != 10 by {
            assert(s[k + start] != 10);
        }
        lemma_newline_is(rest, rest.len() as int);
        assert(ended_lines(rest) =~= Seq::empty());
    }
    if start < stream.len() {
        count = count + 1;
    }
    count
}

// ---------------------------------------------------------------------- laws
/// A stream is cut at its newlines and nowhere else: a line is what stands before
/// the first of them, without the carriage return at its end, and the other lines
/// are those of the rest.
pub proof fn law_streams_are_cut_at_newlines(line: Seq<u8>, rest: Seq<u8>)
    requires
        !line.contains(10),
    ensures
        ({
            let shown = if line.len() > 0 && line[line.len() - 1] == 13 {
                line.take(line.len() - 1)
            } else {
                line
            };
            &&& all_lines(line.push(10) + rest) == seq![shown] + all_lines(rest)
            &&& ended_lines(line.push(10) + rest) == seq![shown] + ended_lines(rest)
            &&& unended(line.push(10) + rest) == unended(rest)
            &&& bare(line) == shown
        }),
{
    let s = line.push(10) + rest;
    let n = line.len() as int;
    assert forall|i: int| 0 <= i < n implies s[i] != 10 by {
        assert(s[i] == line[i]);
    }
    lemma_first_line(s, n);
    assert(s.take(n) =~= line);
    assert(s.skip(n + 1) =~= rest);
    if line.len() > 0 && line[line.len() - 1] == 13 {
        assert(bare(line) =~= line.take(line.len() - 1));
    }
}

/// What no newline ends is a line of its own where there is any of it, and is kept
/// for later while the stream goes on.
pub proof fn law_an_unended_line_counts(line: Seq<u8>)
    requires
        !line.contains(10),
    ensures
        ended_lines(line) == Seq::<Seq<u8>>::empty(),
        unended(line) == line,
        line.len() == 0 ==> all_lines(line) == Seq::<Seq<u8>>::empty(),
        line.len() > 0 ==> all_lines(line) == seq![
            if line[line.len() - 1] == 13 {
                line.take(line.len() - 1)
            } else {
                line
            },
        ],
{
    assert forall|i: int| 0 <= i < line.len() implies line[i] != 10 by {
        assert(line.contains(line[i]));
    }
    lemma_newline_is(line, line.len() as int);
    if line.len() > 0 {
        assert(bare(line) =~= if line[line.len() - 1] == 13 {
            line.take(line.len() - 1)
        } else {
            line
        });
        assert(all_lines(line) =~= seq![bare(line)]);
    }
}

/// Every line of a list with a newline after it, one after the other.
pub open spec fn written_out(list: Seq<Seq<u8>>) -> Seq<u8>
    decreases list.len(),
{
    if list.len() == 0 {
        Seq::empty()
    } else {
        list[0].push(10) + written_out(list.skip(1))
    }
}

/// How many newlines a stream holds.
pub open spec fn newlines(s: Seq<u8>) -> nat
    decreases s.len(),
{
    if s.len() == 0 {
        0
    } else {
        newlines(s.skip(1)) + if s[0] == 10 {
            1nat
        } else {
            0
        }
    }
}

proof fn lemma_newlines(a: Seq<u8>, b: Seq<u8>)
    ensures
        newlines(a + b) == newlines(a) + newlines(b),
        !a.contains(10) ==> newlines(a) == 0,
    decreases a.len(),
{
    if a.len() == 0 {
        assert(a + b =~= b);
    } else {
        assert((a + b).skip(1) =~= a.skip(1) + b);
        lemma_newlines(a.skip(1), b);
        if !a.contains(10) {
            assert(a[0] != 10);
            assert forall|i: int| 0 <= i < a.skip(1).len() implies a.skip(1)[i] != 10 by {
                assert(a.contains(a[i + 1]));
            }
        }
    }
}

/// No line of a stream is lost or made up: there are as many as newlines, and one
/// more where the stream does not end with one. Written out again they are the
/// stream, with a newline at its end, as long as it holds no carriage return.
pub proof fn law_lines_are_the_whole_stream(s: Seq<u8>)
    ensures
        all_lines(s).len() == newlines(s) + if s.len() == 0 || s[s.len() - 1] == 10 {
            0nat
        } else {
            1
        },
        !s.contains(13) ==> written_out(all_lines(s)) == if s.len() == 0 || s[s.len() - 1] == 10 {
            s
        } else {
            s.push(10)
        },
    decreases s.len(),
{
    lemma_newline(s);
    let n = newline(s);
    if n < s.len() {
        let line = s.take(n);
        let rest = s.skip(n + 1);
        assert(!line.contains(10)) by {
            if line.contains(10) {
                let i = line.index_of(10);
                assert(s[i] == line[i]);
            }
        }
        assert(s =~= line.push(10) + rest);
        law_streams_are_cut_at_newlines(line, rest);
        law_lines_are_the_whole_stream(rest);
        lemma_newlines(line.push(10), rest);
        lemma_newlines(line, seq![10u8]);
        assert(line.push(10) =~= line + seq![10u8]);
        reveal_with_fuel(newlines, 2);
        assert(newlines(seq![10u8]) == 1) by {
            assert(seq![10u8].skip(1) =~= Seq::empty());
        }
        assert(rest.len() > 0 ==> rest[rest.len() - 1] == s[s.len() - 1]);
        if !s.contains(13) {
            assert(line.len() > 0 ==> line[line.len() - 1] != 13) by {
                if line.len() > 0 {
                    assert(s.contains(s[line.len() - 1]));
                }
            }
            assert forall|i: int| 0 <= i < rest.len() implies rest[i] != 13 by {
                assert(s.contains(s[i + n + 1]));
            }
            let list = all_lines(s);
            assert(list[0] == line);
            assert(list.skip(1) =~= all_lines(rest));
            assert(written_out(list) == line.push(10) + written_out(all_lines(rest)));
            if rest.len() == 0 || rest[rest.len() - 1] == 10 {
                assert(line.push(10) + rest =~= s);
            } else {
                assert(line.push(10) + rest.push(10) =~= s.push(10));
            }
        }
    } else {
        assert(!s.contains(10)) by {
            if s.contains(10) {
                let i = s.index_of(10);
                assert(s[i] == 10);
            }
        }
        law_an_unended_line_counts(s);
        lemma_newlines(s, Seq::empty());
        if s.len() > 0 {
            assert(s[s.len() - 1] != 10) by {
                assert(s.contains(s[s.len() - 1]));
            }
            if !s.contains(13) {
                assert(s.contains(s[s.len() - 1]));
                let list = all_lines(s);
                assert(list =~= seq![s]);
                assert(list.skip(1) =~= Seq::empty());
                assert(written_out(list.skip(1)) =~= Seq::<u8>::empty());
                assert(written_out(list) =~= s.push(10));
            }
        }
    }
}

/// The last lines of a list are its end: as many as asked for, or all there are.
pub proof fn law_last_lines_are_the_end_of_the_list(list: Seq<Seq<u8>>, n: int)
    requires
        n >= 0,
    ensures
        n >= list.len() ==> last_lines(list, n) == list,
        n < list.len() ==> last_lines(list, n).len() == n && forall|i: int|
            0 <= i < n ==> #[trigger] last_lines(list, n)[i] == list[list.len() - n + i],
{
}

} // verus!
