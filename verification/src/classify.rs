//! The classifier: every line of a file is code, comment or blank, decided
//! line by line with one bit of state carried along, whether the line starts
//! inside a block comment.

use crate::syntax::{pairs_wf, CommentSyntax};
use crate::tally::LineKind;
use crate::text::{
    contains, lemma_tail_valid, matches_at, occurs_at, occurs_in, scalar_at, scalar_is_whitespace,
    tail, trim_line, trim_start, whitespace_at, window_ok, window_on_boundaries,
};
use vstd::prelude::*;
use vstd::string::*;
use vstd::utf8::*;

verus! {

/// True when the line starts with one of the markers.
pub open spec fn starts_with_marker(line: Seq<u8>, markers: Seq<Seq<u8>>) -> bool {
    exists|k: int| 0 <= k < markers.len() && occurs_at(line, #[trigger] markers[k], 0)
}

/// True when the line starts with the opening delimiter of one of the pairs.
pub open spec fn starts_with_opener(line: Seq<u8>, pairs: Seq<(Seq<u8>, Seq<u8>)>) -> bool {
    exists|k: int| 0 <= k < pairs.len() && occurs_at(line, (#[trigger] pairs[k]).0, 0)
}

/// True when an opening or a closing delimiter of one of the pairs stands
/// somewhere in the line.
pub open spec fn holds_delimiter(line: Seq<u8>, pairs: Seq<(Seq<u8>, Seq<u8>)>) -> bool {
    exists|k: int|
        0 <= k < pairs.len() && (occurs_in(line, (#[trigger] pairs[k]).0) || occurs_in(
            line,
            pairs[k].1,
        ))
}

/// The length of the longer delimiter of a pair.
pub open spec fn pair_width(pair: (Seq<u8>, Seq<u8>)) -> int {
    if pair.0.len() >= pair.1.len() {
        pair.0.len() as int
    } else {
        pair.1.len() as int
    }
}

/// What the scan finds at one position of a line.
pub enum Move {
    /// A character near the position is longer than one byte: nothing is tested here.
    Skip,
    /// The opening delimiter of the pair with this index stands here, outside a comment.
    Open(int),
    /// The closing delimiter of the pair with this index stands here, inside a comment.
    Close(int),
    /// No delimiter stands here.
    Pass,
}

/// What the scan finds at `pos` when it tries the pairs from index `from` on,
/// in their order: the first pair that decides wins.
pub open spec fn move_at(
    line: Seq<u8>,
    pairs: Seq<(Seq<u8>, Seq<u8>)>,
    from: int,
    pos: int,
    in_block: bool,
) -> Move
    decreases pairs.len() - from,
{
    if from < 0 || from >= pairs.len() {
        Move::Pass
    } else if !window_ok(line, pos, pair_width(pairs[from])) {
        Move::Skip
    } else if !in_block && occurs_at(line, pairs[from].0, pos) {
        Move::Open(from)
    } else if in_block && occurs_at(line, pairs[from].1, pos) {
        Move::Close(from)
    } else {
        move_at(line, pairs, from + 1, pos, in_block)
    }
}

/// Where the scan of a line stands.
pub struct Scan {
    /// The position that is looked at next.
    pub pos: int,
    /// Whether that position lies inside a block comment.
    pub in_block: bool,
    /// Whether a character of code was seen so far.
    pub found_code: bool,
}

/// One step of the scan. A delimiter is stepped over whole and switches the
/// comment state; any other position is one byte, and counts as code when it
/// lies outside a comment and is not whitespace.
pub open spec fn step(line: Seq<u8>, pairs: Seq<(Seq<u8>, Seq<u8>)>, s: Scan) -> Scan {
    match move_at(line, pairs, 0, s.pos, s.in_block) {
        Move::Skip => Scan { pos: s.pos + 1, in_block: s.in_block, found_code: s.found_code },
        Move::Open(k) => Scan {
            pos: s.pos + pairs[k].0.len(),
            in_block: true,
            found_code: s.found_code,
        },
        Move::Close(k) => Scan {
            pos: s.pos + pairs[k].1.len(),
            in_block: false,
            found_code: s.found_code,
        },
        Move::Pass => Scan {
            pos: s.pos + 1,
            in_block: s.in_block,
            found_code: s.found_code || (!s.in_block && !whitespace_at(line, s.pos)),
        },
    }
}

/// The scan from `s` to the end of the line.
pub open spec fn scan(line: Seq<u8>, pairs: Seq<(Seq<u8>, Seq<u8>)>, s: Scan) -> Scan
    decreases line.len() - s.pos,
    when pairs_wf(pairs)
{
    if s.pos >= line.len() {
        s
    } else {
        proof {
            lemma_move_at(line, pairs, 0, s.pos, s.in_block);
        }
        scan(line, pairs, step(line, pairs, s))
    }
}

/// A delimiter that the scan finds belongs to a pair at or after `from`, and
/// stands at the position.
pub proof fn lemma_move_at(
    line: Seq<u8>,
    pairs: Seq<(Seq<u8>, Seq<u8>)>,
    from: int,
    pos: int,
    in_block: bool,
)
    requires
        0 <= from,
    ensures
        match move_at(line, pairs, from, pos, in_block) {
            Move::Open(k) => from <= k < pairs.len() && !in_block && occurs_at(
                line,
                pairs[k].0,
                pos,
            ),
            Move::Close(k) => from <= k < pairs.len() && in_block && occurs_at(
                line,
                pairs[k].1,
                pos,
            ),
            Move::Skip => from < pairs.len(),
            Move::Pass => true,
        },
    decreases pairs.len() - from,
{
    if from < pairs.len() {
        lemma_move_at(line, pairs, from + 1, pos, in_block);
    }
}

/// The kind of one line, and whether the next line starts inside a block
/// comment. `line` is the line as the splitter yields it; `in_block` tells
/// whether it starts inside a block comment.
pub open spec fn line_class(
    line: Seq<u8>,
    markers: Seq<Seq<u8>>,
    pairs: Seq<(Seq<u8>, Seq<u8>)>,
    in_block: bool,
) -> (LineKind, bool) {
    let t = trim_start(line);
    if t.len() == 0 {
        (LineKind::Blank, in_block)
    } else if !in_block && starts_with_marker(t, markers) && !starts_with_opener(t, pairs) {
        (LineKind::Comment, in_block)
    } else if pairs.len() == 0 {
        (LineKind::Code, in_block)
    } else if !in_block && !holds_delimiter(t, pairs) {
        (LineKind::Code, in_block)
    } else {
        let s = scan(t, pairs, Scan { pos: 0, in_block: in_block, found_code: false });
        (
            if s.found_code {
                LineKind::Code
            } else {
                LineKind::Comment
            },
            s.in_block,
        )
    }
}

/// Whether the line after `lines` starts inside a block comment. A file
/// starts outside.
pub open spec fn state_after(
    lines: Seq<Seq<u8>>,
    markers: Seq<Seq<u8>>,
    pairs: Seq<(Seq<u8>, Seq<u8>)>,
) -> bool
    decreases lines.len(),
{
    if lines.len() == 0 {
        false
    } else {
        line_class(lines.last(), markers, pairs, state_after(lines.drop_last(), markers, pairs)).1
    }
}

/// The kinds of the lines of a file, in order.
pub open spec fn line_kinds(
    lines: Seq<Seq<u8>>,
    markers: Seq<Seq<u8>>,
    pairs: Seq<(Seq<u8>, Seq<u8>)>,
) -> Seq<LineKind>
    decreases lines.len(),
{
    if lines.len() == 0 {
        Seq::empty()
    } else {
        line_kinds(lines.drop_last(), markers, pairs).push(
            line_class(
                lines.last(),
                markers,
                pairs,
                state_after(lines.drop_last(), markers, pairs),
            ).0,
        )
    }
}

/// Every line is well-formed UTF-8.
pub open spec fn all_utf8(lines: Seq<Seq<u8>>) -> bool {
    forall|i: int| 0 <= i < lines.len() ==> valid_utf8(#[trigger] lines[i])
}

/// There is one kind for each line.
pub proof fn lemma_line_kinds_len(
    lines: Seq<Seq<u8>>,
    markers: Seq<Seq<u8>>,
    pairs: Seq<(Seq<u8>, Seq<u8>)>,
)
    ensures
        line_kinds(lines, markers, pairs).len() == lines.len(),
    decreases lines.len(),
{
    if lines.len() > 0 {
        lemma_line_kinds_len(lines.drop_last(), markers, pairs);
    }
}

/// A line is blank exactly when nothing but whitespace stands in it,
/// whatever the syntax, and inside a block comment too. A blank line leaves
/// the comment state as it is.
pub proof fn lemma_blank_line(
    line: Seq<u8>,
    markers: Seq<Seq<u8>>,
    pairs: Seq<(Seq<u8>, Seq<u8>)>,
    in_block: bool,
)
    ensures
        line_class(line, markers, pairs, in_block).0 == LineKind::Blank <==> trim_start(line).len()
            == 0,
        trim_start(line).len() == 0 ==> line_class(line, markers, pairs, in_block).1 == in_block,
{
}

/// The kind of the line at place `i` is decided by that line and by the state
/// that the lines before it leave.
pub proof fn lemma_line_kinds_index(
    lines: Seq<Seq<u8>>,
    markers: Seq<Seq<u8>>,
    pairs: Seq<(Seq<u8>, Seq<u8>)>,
    i: int,
)
    requires
        0 <= i < lines.len(),
    ensures
        line_kinds(lines, markers, pairs).len() == lines.len(),
        line_kinds(lines, markers, pairs)[i] == line_class(
            lines[i],
            markers,
            pairs,
            state_after(lines.take(i), markers, pairs),
        ).0,
    decreases lines.len(),
{
    lemma_line_kinds_len(lines, markers, pairs);
    lemma_line_kinds_len(lines.drop_last(), markers, pairs);
    if i == lines.len() - 1 {
        assert(lines.take(i) =~= lines.drop_last());
    } else {
        lemma_line_kinds_index(lines.drop_last(), markers, pairs, i);
        assert(lines.drop_last().take(i) =~= lines.take(i));
    }
}

/// Without block-comment pairs no line ends inside a block comment.
pub proof fn lemma_no_pairs_no_block(lines: Seq<Seq<u8>>, markers: Seq<Seq<u8>>)
    ensures
        !state_after(lines, markers, Seq::empty()),
    decreases lines.len(),
{
    if lines.len() > 0 {
        lemma_no_pairs_no_block(lines.drop_last(), markers);
    }
}

/// What the scan finds at one position, with the index of the pair as a
/// machine integer.
pub enum Hit {
    Skip,
    Open(usize),
    Close(usize),
    Pass,
}

impl View for Hit {
    type V = Move;

    open spec fn view(&self) -> Move {
        match self {
            Hit::Skip => Move::Skip,
            Hit::Open(k) => Move::Open(*k as int),
            Hit::Close(k) => Move::Close(*k as int),
            Hit::Pass => Move::Pass,
        }
    }
}

/// Tells whether the line starts with one of the markers of the syntax.
pub fn begins_with_marker(line: &[u8], syntax: &CommentSyntax) -> (r: bool)
    ensures
        r == starts_with_marker(line@, syntax.markers()),
{
    let n: usize = syntax.marker_count();
    let mut k: usize = 0;
    while k < n
        invariant
            k <= n == syntax.markers().len(),
            n == syntax.marker_strs().len(),
            forall|j: int| 0 <= j < k ==> !occurs_at(line@, #[trigger] syntax.markers()[j], 0),
        decreases n - k,
    {
        if matches_at(line, syntax.marker(k).as_bytes(), 0) {
            assert(occurs_at(line@, syntax.markers()[k as int], 0));
            return true;
        }
        k += 1;
    }
    false
}

/// Tells whether the line starts with an opening delimiter of the syntax.
pub fn begins_with_opener(line: &[u8], syntax: &CommentSyntax) -> (r: bool)
    ensures
        r == starts_with_opener(line@, syntax.pairs()),
{
    let n: usize = syntax.pair_count();
    let mut k: usize = 0;
    while k < n
        invariant
            k <= n == syntax.pairs().len(),
            n == syntax.pair_strs().len(),
            forall|j: int| 0 <= j < k ==> !occurs_at(line@, (#[trigger] syntax.pairs()[j]).0, 0),
        decreases n - k,
    {
        if matches_at(line, syntax.pair(k).0.as_bytes(), 0) {
            assert(occurs_at(line@, syntax.pairs()[k as int].0, 0));
            return true;
        }
        k += 1;
    }
    false
}

/// Tells whether a delimiter of the syntax stands somewhere in the line.
pub fn has_delimiter(line: &[u8], syntax: &CommentSyntax) -> (r: bool)
    ensures
        r == holds_delimiter(line@, syntax.pairs()),
{
    let n: usize = syntax.pair_count();
    let mut k: usize = 0;
    while k < n
        invariant
            k <= n == syntax.pairs().len(),
            n == syntax.pair_strs().len(),
            forall|j: int|
                0 <= j < k ==> !occurs_in(line@, (#[trigger] syntax.pairs()[j]).0) && !occurs_in(
                    line@,
                    syntax.pairs()[j].1,
                ),
        decreases n - k,
    {
        let p = syntax.pair(k);
        if contains(line, p.0.as_bytes()) || contains(line, p.1.as_bytes()) {
            assert(occurs_in(line@, syntax.pairs()[k as int].0) || occurs_in(
                line@,
                syntax.pairs()[k as int].1,
            ));
            return true;
        }
        k += 1;
    }
    false
}

/// Tells whether a whitespace character starts at `pos`.
pub fn is_whitespace_at(line: &[u8], pos: usize) -> (r: bool)
    requires
        valid_utf8(line@),
        pos < line@.len(),
    ensures
        r == whitespace_at(line@, pos as int),
{
    let b: u8 = line[pos];
    proof {
        is_char_boundary_iff_not_is_continuation_byte(line@, pos as int);
        assert(tail(line@, pos as int)[0] == b);
    }
    if 0x80 <= b && b <= 0xbf {
        false
    } else {
        proof {
            lemma_tail_valid(line@, pos as int);
        }
        let (c, _n) = scalar_at(line, pos);
        scalar_is_whitespace(c)
    }
}

/// Finds what stands at `pos`: tries the pairs of the syntax in their order.
pub fn find_move(line: &[u8], syntax: &CommentSyntax, pos: usize, in_block: bool) -> (hit: Hit)
    requires
        valid_utf8(line@),
        pos <= line@.len(),
    ensures
        hit@ == move_at(line@, syntax.pairs(), 0, pos as int, in_block),
{
    let n: usize = syntax.pair_count();
    let mut k: usize = 0;
    while k < n
        invariant
            k <= n == syntax.pairs().len(),
            n == syntax.pair_strs().len(),
            valid_utf8(line@),
            pos <= line@.len(),
            move_at(line@, syntax.pairs(), 0, pos as int, in_block) == move_at(
                line@,
                syntax.pairs(),
                k as int,
                pos as int,
                in_block,
            ),
        decreases n - k,
    {
        let p = syntax.pair(k);
        let open = p.0.as_bytes();
        let close = p.1.as_bytes();
        let width: usize = if open.len() >= close.len() {
            open.len()
        } else {
            close.len()
        };
        assert(syntax.pairs()[k as int] == (open@, close@));
        if !window_on_boundaries(line, pos, width) {
            return Hit::Skip;
        }
        if !in_block && matches_at(line, open, pos) {
            return Hit::Open(k);
        }
        if in_block && matches_at(line, close, pos) {
            return Hit::Close(k);
        }
        k += 1;
    }
    Hit::Pass
}

/// Scans a line from its start: tells whether it holds code, and whether it
/// ends inside a block comment.
pub fn scan_line(line: &[u8], syntax: &CommentSyntax, in_block: bool) -> (r: (bool, bool))
    requires
        valid_utf8(line@),
        syntax.wf(),
    ensures
        r.0 == scan(
            line@,
            syntax.pairs(),
            Scan { pos: 0, in_block: in_block, found_code: false },
        ).found_code,
        r.1 == scan(
            line@,
            syntax.pairs(),
            Scan { pos: 0, in_block: in_block, found_code: false },
        ).in_block,
{
    let len: usize = line.len();
    let mut pos: usize = 0;
    let mut inside: bool = in_block;
    let mut found: bool = false;
    while pos < len
        invariant
            pos <= len == line@.len(),
            valid_utf8(line@),
            syntax.wf(),
            scan(line@, syntax.pairs(), Scan { pos: 0, in_block: in_block, found_code: false })
                == scan(
                line@,
                syntax.pairs(),
                Scan { pos: pos as int, in_block: inside, found_code: found },
            ),
        decreases len - pos,
    {
        let ghost before = Scan { pos: pos as int, in_block: inside, found_code: found };
        proof {
            lemma_move_at(line@, syntax.pairs(), 0, pos as int, inside);
        }
        match find_move(line, syntax, pos, inside) {
            Hit::Skip => {
                pos += 1;
            },
            Hit::Open(k) => {
                let n: usize = syntax.pair(k).0.as_bytes().len();
                assert(syntax.pairs()[k as int].0.len() == n);
                pos += n;
                inside = true;
            },
            Hit::Close(k) => {
                let n: usize = syntax.pair(k).1.as_bytes().len();
                assert(syntax.pairs()[k as int].1.len() == n);
                pos += n;
                inside = false;
            },
            Hit::Pass => {
                if !inside && !is_whitespace_at(line, pos) {
                    found = true;
                }
                pos += 1;
            },
        }
        assert(Scan { pos: pos as int, in_block: inside, found_code: found } == step(
            line@,
            syntax.pairs(),
            before,
        ));
    }
    (found, inside)
}

/// Classifies one line as the splitter yields it: its kind, and whether the
/// next line starts inside a block comment.
pub fn classify_line(line: &[u8], syntax: &CommentSyntax, in_block: bool) -> (r: (LineKind, bool))
    requires
        valid_utf8(line@),
        syntax.wf(),
    ensures
        r == line_class(line@, syntax.markers(), syntax.pairs(), in_block),
{
    let t = trim_line(line);
    if t.len() == 0 {
        return (LineKind::Blank, in_block);
    }
    if !in_block && begins_with_marker(t, syntax) && !begins_with_opener(t, syntax) {
        return (LineKind::Comment, in_block);
    }
    if syntax.pair_count() == 0 {
        return (LineKind::Code, in_block);
    }
    if !in_block && !has_delimiter(t, syntax) {
        return (LineKind::Code, in_block);
    }
    let (found, inside) = scan_line(t, syntax, in_block);
    if found {
        (LineKind::Code, inside)
    } else {
        (LineKind::Comment, inside)
    }
}

} // verus!
