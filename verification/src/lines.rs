//! Splitting a buffer into lines at the newline byte, without reading it as text.

use vstd::prelude::*;

verus! {

/// The byte that ends a line.
pub const NEWLINE: u8 = 10;

/// Where the line that starts at `pos` ends: at the first newline at or after
/// `pos`, or at the end of the buffer where there is none.
pub open spec fn line_end(buf: Seq<u8>, pos: int) -> int
    decreases buf.len() - pos,
{
    if pos >= buf.len() || buf[pos] == NEWLINE {
        pos
    } else {
        line_end(buf, pos + 1)
    }
}

/// The lines of `buf` from `pos` on, each without its newline. A last line
/// without a newline counts when it is not empty.
pub open spec fn lines_from(buf: Seq<u8>, pos: int) -> Seq<Seq<u8>>
    decreases buf.len() - pos,
{
    if pos < 0 || pos >= buf.len() {
        Seq::empty()
    } else {
        proof {
            lemma_line_end(buf, pos);
        }
        let end = line_end(buf, pos);
        if end >= buf.len() {
            seq![buf.subrange(pos, end)]
        } else {
            seq![buf.subrange(pos, end)] + lines_from(buf, end + 1)
        }
    }
}

/// The lines of a buffer.
pub open spec fn file_lines(buf: Seq<u8>) -> Seq<Seq<u8>> {
    lines_from(buf, 0)
}

/// How many newline bytes `buf` holds.
pub open spec fn newline_count(buf: Seq<u8>) -> nat
    decreases buf.len(),
{
    if buf.len() == 0 {
        0
    } else {
        newline_count(buf.drop_last()) + if buf.last() == NEWLINE {
            1nat
        } else {
            0nat
        }
    }
}

/// `memchr::memchr` finds the first occurrence of a byte: it returns the least
/// index that holds `needle`, and `None` exactly when no index does.
pub assume_specification[ memchr::memchr ](needle: u8, haystack: &[u8]) -> (r: Option<usize>)
    ensures
        match r {
            Some(i) => i < haystack@.len() && haystack@[i as int] == needle && forall|j: int|
                0 <= j < i ==> haystack@[j] != needle,
            None => forall|j: int| 0 <= j < haystack@.len() ==> haystack@[j] != needle,
        },
;

/// The line that starts at `pos` ends inside the buffer, at a newline or at
/// the end, and holds no newline.
pub proof fn lemma_line_end(buf: Seq<u8>, pos: int)
    requires
        0 <= pos <= buf.len(),
    ensures
        pos <= line_end(buf, pos) <= buf.len(),
        line_end(buf, pos) < buf.len() ==> buf[line_end(buf, pos)] == NEWLINE,
        forall|j: int| pos <= j < line_end(buf, pos) ==> buf[j] != NEWLINE,
    decreases buf.len() - pos,
{
    if pos < buf.len() && buf[pos] != NEWLINE {
        lemma_line_end(buf, pos + 1);
    }
}

/// A position that is a newline or the end, with no newline between `pos` and
/// it, is where the line from `pos` ends.
pub proof fn lemma_line_end_is(buf: Seq<u8>, pos: int, end: int)
    requires
        0 <= pos <= end <= buf.len(),
        end < buf.len() ==> buf[end] == NEWLINE,
        forall|j: int| pos <= j < end ==> buf[j] != NEWLINE,
    ensures
        line_end(buf, pos) == end,
    decreases end - pos,
{
    if pos < end {
        lemma_line_end_is(buf, pos + 1, end);
    }
}

/// A buffer has at most as many lines as bytes.
pub proof fn lemma_lines_from_len(buf: Seq<u8>, pos: int)
    requires
        0 <= pos <= buf.len(),
    ensures
        lines_from(buf, pos).len() <= buf.len() - pos,
    decreases buf.len() - pos,
{
    if pos < buf.len() {
        lemma_line_end(buf, pos);
        if line_end(buf, pos) < buf.len() {
            lemma_lines_from_len(buf, line_end(buf, pos) + 1);
        }
    }
}

/// No line that the splitter yields holds a newline.
pub proof fn lemma_lines_hold_no_newline(buf: Seq<u8>, pos: int, i: int)
    requires
        0 <= pos <= buf.len(),
        0 <= i < lines_from(buf, pos).len(),
    ensures
        forall|j: int| 0 <= j < lines_from(buf, pos)[i].len() ==> lines_from(buf, pos)[i][j] != NEWLINE,
    decreases buf.len() - pos,
{
    lemma_line_end(buf, pos);
    let end = line_end(buf, pos);
    let first = buf.subrange(pos, end);
    if i == 0 {
        assert(lines_from(buf, pos)[0] == first);
        assert forall|j: int| 0 <= j < first.len() implies first[j] != NEWLINE by {
            assert(first[j] == buf[pos + j]);
        }
    } else {
        lemma_lines_hold_no_newline(buf, end + 1, i - 1);
        assert(lines_from(buf, pos)[i] == lines_from(buf, end + 1)[i - 1]);
    }
}

/// A buffer to be read line by line.
pub struct ByteLines<'a>(pub &'a [u8]);

/// A place in a buffer from which the remaining lines are handed out one by one.
pub struct ByteLinesState<'a> {
    buf: &'a [u8],
    pos: usize,
}

impl<'a> ByteLines<'a> {
    /// Starts at the first line of the buffer.
    pub fn lines(&self) -> (state: ByteLinesState<'a>)
        ensures
            state.buffer() == self.0@,
            state.position() == 0,
    {
        ByteLinesState { buf: self.0, pos: 0 }
    }
}

impl<'a> ByteLinesState<'a> {
    #[verifier::type_invariant]
    spec fn in_bounds(self) -> bool {
        self.pos <= self.buf@.len()
    }

    /// The bytes of the whole buffer.
    pub closed spec fn buffer(self) -> Seq<u8> {
        self.buf@
    }

    /// Where the next line starts.
    pub closed spec fn position(self) -> int {
        self.pos as int
    }

    /// The lines that are still to come.
    pub open spec fn remaining(self) -> Seq<Seq<u8>> {
        lines_from(self.buffer(), self.position())
    }

    /// Hands out the next line without its newline, and `None` once the
    /// buffer is used up.
    pub fn next(&mut self) -> (line: Option<&'a [u8]>)
        ensures
            final(self).buffer() == old(self).buffer(),
            old(self).position() <= final(self).position() <= old(self).buffer().len(),
            match line {
                Some(l) => {
                    &&& old(self).position() < old(self).buffer().len()
                    &&& l@ == old(self).buffer().subrange(
                        old(self).position(),
                        line_end(old(self).buffer(), old(self).position()),
                    )
                    &&& final(self).position() > old(self).position()
                    &&& old(self).remaining() == seq![l@] + final(self).remaining()
                },
                None => {
                    &&& old(self).position() == old(self).buffer().len()
                    &&& final(self).position() == old(self).position()
                    &&& old(self).remaining().len() == 0
                },
            },
    {
        proof {
            use_type_invariant(&*self);
        }
        let buf: &'a [u8] = self.buf;
        let start: usize = self.pos;
        let len: usize = buf.len();
        let rest = &buf[start..len];
        match memchr::memchr(NEWLINE, rest) {
            Some(n) => {
                proof {
                    assert forall|j: int| start <= j < start + n implies buf@[j] != NEWLINE by {
                        assert(rest@[j - start] == buf@[j]);
                    }
                    assert(rest@[n as int] == buf@[start + n]);
                    lemma_line_end_is(buf@, start as int, start + n);
                }
                self.pos = start + n + 1;
                Some(&buf[start..start + n])
            },
            None => {
                if start == len {
                    None
                } else {
                    proof {
                        assert forall|j: int| start <= j < len implies buf@[j] != NEWLINE by {
                            assert(rest@[j - start] == buf@[j]);
                        }
                        lemma_line_end_is(buf@, start as int, len as int);
                        assert(seq![buf@.subrange(start as int, len as int)] + lines_from(
                            buf@,
                            len as int,
                        ) =~= seq![buf@.subrange(start as int, len as int)]);
                    }
                    self.pos = len;
                    Some(&buf[start..len])
                }
            },
        }
    }
}

/// Counts the lines of a buffer.
pub fn line_count(buf: &[u8]) -> (n: usize)
    ensures
        n == file_lines(buf@).len(),
{
    let mut state = ByteLines(buf).lines();
    let mut n: usize = 0;
    loop
        invariant
            state.buffer() == buf@,
            state.position() <= buf@.len(),
            n <= state.position(),
            file_lines(buf@).len() == n + state.remaining().len(),
        ensures
            n == file_lines(buf@).len(),
        decreases buf@.len() - state.position(),
    {
        match state.next() {
            None => {
                break ;
            },
            Some(_line) => {
                n += 1;
            },
        }
    }
    n
}

/// Counts the newline bytes of a buffer.
pub fn count_buf_lines(buf: &[u8]) -> (lines: u64)
    ensures
        lines == newline_count(buf@),
{
    let len: usize = buf.len();
    let mut lines: u64 = 0;
    let mut start: usize = 0;
    loop
        invariant
            start <= len == buf@.len(),
            lines == newline_count(buf@.take(start as int)),
            lines <= start,
        ensures
            lines == newline_count(buf@),
        decreases len - start,
    {
        let rest = &buf[start..len];
        match memchr::memchr(NEWLINE, rest) {
            Some(n) => {
                proof {
                    assert forall|j: int| start <= j < start + n implies buf@[j] != NEWLINE by {
                        assert(rest@[j - start] == buf@[j]);
                    }
                    assert(rest@[n as int] == buf@[start + n]);
                    lemma_newline_free_stretch(buf@, start as int, start + n);
                    assert(buf@.take(start + n + 1).drop_last() == buf@.take(start + n));
                }
                start = start + n + 1;
                lines += 1;
            },
            None => {
                proof {
                    assert forall|j: int| start <= j < len implies buf@[j] != NEWLINE by {
                        assert(rest@[j - start] == buf@[j]);
                    }
                    lemma_newline_free_stretch(buf@, start as int, len as int);
                    assert(buf@.take(len as int) == buf@);
                }
                break ;
            },
        }
    }
    lines
}

/// Bytes that are not newlines add nothing to the newline count.
pub proof fn lemma_newline_free_stretch(buf: Seq<u8>, from: int, to: int)
    requires
        0 <= from <= to <= buf.len(),
        forall|j: int| from <= j < to ==> buf[j] != NEWLINE,
    ensures
        newline_count(buf.take(to)) == newline_count(buf.take(from)),
    decreases to - from,
{
    if from < to {
        lemma_newline_free_stretch(buf, from, to - 1);
        assert(buf.take(to).drop_last() == buf.take(to - 1));
    }
}

/// The newlines of two buffers put together are those of the one and those of the other.
pub proof fn lemma_newline_count_concat(a: Seq<u8>, b: Seq<u8>)
    ensures
        newline_count(a + b) == newline_count(a) + newline_count(b),
    decreases b.len(),
{
    if b.len() == 0 {
        assert(a + b == a);
    } else {
        lemma_newline_count_concat(a, b.drop_last());
        assert((a + b).drop_last() == a + b.drop_last());
    }
}

/// A buffer has a line for each newline, and one more where it does not end
/// in a newline and is not empty.
pub proof fn lemma_lines_and_newlines(buf: Seq<u8>, pos: int)
    requires
        0 <= pos <= buf.len(),
    ensures
        lines_from(buf, pos).len() == newline_count(buf.subrange(pos, buf.len() as int)) + if pos
            < buf.len() && buf.last() != NEWLINE {
            1nat
        } else {
            0nat
        },
    decreases buf.len() - pos,
{
    let len = buf.len() as int;
    let rest = buf.subrange(pos, len);
    if pos < len {
        lemma_line_end(buf, pos);
        let end = line_end(buf, pos);
        if end >= len {
            assert forall|j: int| 0 <= j < rest.len() implies rest[j] != NEWLINE by {
                assert(rest[j] == buf[pos + j]);
            }
            lemma_newline_free_stretch(rest, 0, rest.len() as int);
            assert(rest.take(rest.len() as int) =~= rest);
            assert(rest.take(0).len() == 0);
            assert(buf.last() == rest[rest.len() - 1]);
        } else {
            lemma_lines_and_newlines(buf, end + 1);
            let head = buf.subrange(pos, end + 1);
            let tail = buf.subrange(end + 1, len);
            assert(rest =~= head + tail);
            lemma_newline_count_concat(head, tail);
            assert forall|j: int| 0 <= j < head.len() - 1 implies head[j] != NEWLINE by {
                assert(head[j] == buf[pos + j]);
            }
            lemma_newline_free_stretch(head, 0, head.len() - 1);
            assert(head.take(head.len() - 1) =~= head.drop_last());
            assert(head.take(0).len() == 0);
            assert(head.last() == buf[end]);
        }
    } else {
        assert(rest.len() == 0);
    }
}

} // verus!
