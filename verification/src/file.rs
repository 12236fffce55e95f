//! Whole files: the kinds of all lines of a buffer, and their count.

use crate::classify::{
    all_utf8, classify_line, lemma_blank_line, lemma_line_kinds_index, lemma_line_kinds_len,
    lemma_no_pairs_no_block, line_kinds, starts_with_marker, state_after,
};
use crate::lang::{
    counter_config_for_lang, detected_ext, ext_lang, lang_from_ext, lang_markers, lang_pairs, Lang,
};
use crate::lines::{file_lines, ByteLines};
use crate::syntax::{marker_bytes, pair_bytes, CommentSyntax};
use crate::text::{is_utf8, lowercase_of, trim_start};
use crate::tally::{kind_count, lemma_kind_counts_sum, Count, LineKind};
use vstd::prelude::*;
use vstd::utf8::*;

verus! {

/// The kinds of the lines of a file, or `None` where a line is not
/// well-formed UTF-8.
pub open spec fn file_kinds(
    bytes: Seq<u8>,
    markers: Seq<Seq<u8>>,
    pairs: Seq<(Seq<u8>, Seq<u8>)>,
) -> Option<Seq<LineKind>> {
    if all_utf8(file_lines(bytes)) {
        Some(line_kinds(file_lines(bytes), markers, pairs))
    } else {
        None
    }
}

/// True when `c` is the count of the file: the tally of its lines' kinds, or
/// the count of nothing where a line is not well-formed UTF-8.
pub open spec fn counts_file(
    c: Count,
    bytes: Seq<u8>,
    markers: Seq<Seq<u8>>,
    pairs: Seq<(Seq<u8>, Seq<u8>)>,
) -> bool {
    match file_kinds(bytes, markers, pairs) {
        Some(kinds) => c.tallies(kinds),
        None => c == Count::zero(),
    }
}

/// Classifies every line of a file. Gives no kinds at all where a line is not
/// well-formed UTF-8.
pub fn classify(bytes: &[u8], syntax: &CommentSyntax) -> (kinds: Option<Vec<LineKind>>)
    requires
        syntax.wf(),
    ensures
        match kinds {
            Some(v) => file_kinds(bytes@, syntax.markers(), syntax.pairs()) == Some(v@),
            None => file_kinds(bytes@, syntax.markers(), syntax.pairs()) is None,
        },
{
    let mut state = ByteLines(bytes).lines();
    let mut kinds: Vec<LineKind> = Vec::new();
    let mut in_block: bool = false;
    let ghost mut done: Seq<Seq<u8>> = Seq::empty();
    let ghost markers = syntax.markers();
    let ghost pairs = syntax.pairs();
    loop
        invariant
            syntax.wf(),
            markers == syntax.markers(),
            pairs == syntax.pairs(),
            state.buffer() == bytes@,
            file_lines(bytes@) == done + state.remaining(),
            all_utf8(done),
            in_block == state_after(done, markers, pairs),
            kinds@ == line_kinds(done, markers, pairs),
        ensures
            file_lines(bytes@) == done,
            all_utf8(done),
            kinds@ == line_kinds(done, markers, pairs),
        decreases bytes@.len() - state.position(),
    {
        let ghost before = state.remaining();
        match state.next() {
            None => {
                proof {
                    assert(done + before =~= done);
                }
                break ;
            },
            Some(line) => {
                proof {
                    assert(done + before =~= done.push(line@) + state.remaining());
                    assert(file_lines(bytes@)[done.len() as int] == line@);
                }
                if !is_utf8(line) {
                    return None;
                }
                let (kind, inside) = classify_line(line, syntax, in_block);
                proof {
                    assert(done.push(line@).drop_last() =~= done);
                    done = done.push(line@);
                }
                kinds.push(kind);
                in_block = inside;
            },
        }
    }
    Some(kinds)
}

/// Counts the code, comment and blank lines of a file. The count is that of
/// nothing where a line is not well-formed UTF-8.
pub fn count(bytes: &[u8], syntax: &CommentSyntax) -> (c: Count)
    requires
        syntax.wf(),
        file_lines(bytes@).len() <= u32::MAX,
    ensures
        counts_file(c, bytes@, syntax.markers(), syntax.pairs()),
        c.balanced(),
        all_utf8(file_lines(bytes@)) ==> c.lines == file_lines(bytes@).len(),
{
    let mut state = ByteLines(bytes).lines();
    let mut c = Count { code: 0, comment: 0, blank: 0, lines: 0 };
    let mut in_block: bool = false;
    let ghost mut done: Seq<Seq<u8>> = Seq::empty();
    let ghost markers = syntax.markers();
    let ghost pairs = syntax.pairs();
    loop
        invariant
            syntax.wf(),
            markers == syntax.markers(),
            pairs == syntax.pairs(),
            file_lines(bytes@).len() <= u32::MAX,
            state.buffer() == bytes@,
            state.position() <= bytes@.len(),
            file_lines(bytes@) == done + state.remaining(),
            all_utf8(done),
            in_block == state_after(done, markers, pairs),
            c.tallies(line_kinds(done, markers, pairs)),
            c.balanced(),
        ensures
            file_lines(bytes@) == done,
            all_utf8(done),
            c.tallies(line_kinds(done, markers, pairs)),
            c.balanced(),
        decreases bytes@.len() - state.position(),
    {
        let ghost before = state.remaining();
        match state.next() {
            None => {
                proof {
                    assert(done + before =~= done);
                }
                break ;
            },
            Some(line) => {
                proof {
                    assert(done + before =~= done.push(line@) + state.remaining());
                    assert(file_lines(bytes@)[done.len() as int] == line@);
                    lemma_line_kinds_len(done, markers, pairs);
                }
                if !is_utf8(line) {
                    return Count { code: 0, comment: 0, blank: 0, lines: 0 };
                }
                let (kind, inside) = classify_line(line, syntax, in_block);
                c.add_line(kind);
                proof {
                    assert(done.push(line@).drop_last() =~= done);
                    assert(line_kinds(done, markers, pairs).push(kind).drop_last() =~= line_kinds(
                        done,
                        markers,
                        pairs,
                    ));
                    done = done.push(line@);
                    lemma_line_kinds_len(done, markers, pairs);
                }
                in_block = inside;
            },
        }
    }
    proof {
        lemma_line_kinds_len(done, markers, pairs);
    }
    c
}

/// The count of a file is balanced: its lines are its code, comment and blank
/// lines together.
pub proof fn lemma_count_balanced(
    c: Count,
    bytes: Seq<u8>,
    markers: Seq<Seq<u8>>,
    pairs: Seq<(Seq<u8>, Seq<u8>)>,
)
    requires
        counts_file(c, bytes, markers, pairs),
    ensures
        c.lines == c.code + c.comment + c.blank,
{
    match file_kinds(bytes, markers, pairs) {
        Some(kinds) => {
            lemma_kind_counts_sum(kinds);
        },
        None => {},
    }
}

/// The count of a file whose lines are all well-formed UTF-8 has as many lines
/// as the splitter yields.
pub proof fn lemma_count_lines(
    c: Count,
    bytes: Seq<u8>,
    markers: Seq<Seq<u8>>,
    pairs: Seq<(Seq<u8>, Seq<u8>)>,
)
    requires
        counts_file(c, bytes, markers, pairs),
        all_utf8(file_lines(bytes)),
    ensures
        c.lines == file_lines(bytes).len(),
{
    lemma_line_kinds_len(file_lines(bytes), markers, pairs);
}

/// A file has one count: two counts of the same bytes under the same syntax
/// are equal.
pub proof fn lemma_count_deterministic(
    c1: Count,
    c2: Count,
    bytes: Seq<u8>,
    markers: Seq<Seq<u8>>,
    pairs: Seq<(Seq<u8>, Seq<u8>)>,
)
    requires
        counts_file(c1, bytes, markers, pairs),
        counts_file(c2, bytes, markers, pairs),
    ensures
        c1 == c2,
{
}

/// The kind of a line that earlier passes found to be `a` and a later pass
/// `b`: a line of code becomes a comment where the later pass found one, and
/// every other line stays what it was.
pub open spec fn merged_kind(a: LineKind, b: LineKind) -> LineKind {
    if a == LineKind::Code && b == LineKind::Comment {
        LineKind::Comment
    } else {
        a
    }
}

/// The kinds of the lines after a further pass, line by line.
pub open spec fn merge_kinds(a: Seq<LineKind>, b: Seq<LineKind>) -> Seq<LineKind>
    recommends
        a.len() == b.len(),
{
    Seq::new(a.len(), |i: int| merged_kind(a[i], b[i]))
}

/// The kinds of the lines after one pass for each syntax, in order. Before
/// the first pass every line that is not blank is code.
pub open spec fn pass_kinds(lines: Seq<Seq<u8>>, passes: Seq<CommentSyntax>) -> Seq<LineKind>
    decreases passes.len(),
{
    if passes.len() == 0 {
        line_kinds(
            lines,
            CommentSyntax::NoComments.markers(),
            CommentSyntax::NoComments.pairs(),
        )
    } else {
        merge_kinds(
            pass_kinds(lines, passes.drop_last()),
            line_kinds(lines, passes.last().markers(), passes.last().pairs()),
        )
    }
}

/// There is one kind for each line after any number of passes.
pub proof fn lemma_pass_kinds_len(lines: Seq<Seq<u8>>, passes: Seq<CommentSyntax>)
    ensures
        pass_kinds(lines, passes).len() == lines.len(),
    decreases passes.len(),
{
    if passes.len() == 0 {
        lemma_line_kinds_len(
            lines,
            CommentSyntax::NoComments.markers(),
            CommentSyntax::NoComments.pairs(),
        );
    } else {
        lemma_pass_kinds_len(lines, passes.drop_last());
    }
}

/// Before the first pass a line is blank where nothing but whitespace stands
/// in it, and code else.
pub proof fn lemma_no_pass_kinds(lines: Seq<Seq<u8>>, i: int)
    requires
        0 <= i < lines.len(),
    ensures
        pass_kinds(lines, Seq::empty()).len() == lines.len(),
        pass_kinds(lines, Seq::empty())[i] == if trim_start(lines[i]).len() == 0 {
            LineKind::Blank
        } else {
            LineKind::Code
        },
{
    let markers = CommentSyntax::NoComments.markers();
    let pairs = CommentSyntax::NoComments.pairs();
    assert(pairs =~= Seq::empty());
    assert(markers.len() == 0);
    lemma_line_kinds_index(lines, markers, pairs, i);
    lemma_no_pairs_no_block(lines.take(i), markers);
    assert(!starts_with_marker(trim_start(lines[i]), markers));
}

/// One pass alone finds what the plain classification finds.
pub proof fn lemma_one_pass(lines: Seq<Seq<u8>>, syntax: CommentSyntax)
    ensures
        pass_kinds(lines, seq![syntax]) == line_kinds(lines, syntax.markers(), syntax.pairs()),
{
    let plain = line_kinds(lines, syntax.markers(), syntax.pairs());
    let before = pass_kinds(lines, Seq::empty());
    assert(seq![syntax].drop_last() =~= Seq::<CommentSyntax>::empty());
    assert(seq![syntax].last() == syntax);
    lemma_line_kinds_len(lines, syntax.markers(), syntax.pairs());
    lemma_pass_kinds_len(lines, Seq::empty());
    assert forall|i: int| 0 <= i < lines.len() implies merged_kind(before[i], plain[i])
        == plain[i] by {
        lemma_no_pass_kinds(lines, i);
        lemma_line_kinds_index(lines, syntax.markers(), syntax.pairs(), i);
        lemma_blank_line(
            lines[i],
            syntax.markers(),
            syntax.pairs(),
            state_after(lines.take(i), syntax.markers(), syntax.pairs()),
        );
    }
    assert(merge_kinds(before, plain) =~= plain);
}

/// A further pass moves lines from code to comment and changes nothing else:
/// the code count falls by exactly the number of comments that the pass adds,
/// and the blank count stays.
pub proof fn lemma_merge_kinds_counts(a: Seq<LineKind>, b: Seq<LineKind>)
    requires
        a.len() == b.len(),
    ensures
        merge_kinds(a, b).len() == a.len(),
        kind_count(merge_kinds(a, b), LineKind::Blank) == kind_count(a, LineKind::Blank),
        kind_count(merge_kinds(a, b), LineKind::Comment) >= kind_count(a, LineKind::Comment),
        kind_count(merge_kinds(a, b), LineKind::Code) == kind_count(a, LineKind::Code) - (
        kind_count(merge_kinds(a, b), LineKind::Comment) - kind_count(a, LineKind::Comment)),
    decreases a.len(),
{
    if a.len() > 0 {
        lemma_merge_kinds_counts(a.drop_last(), b.drop_last());
        assert(merge_kinds(a, b).drop_last() =~= merge_kinds(a.drop_last(), b.drop_last()));
    }
}

/// Puts the kinds that a further pass found onto those found so far.
pub fn combine_kinds(a: &Vec<LineKind>, b: &Vec<LineKind>) -> (m: Vec<LineKind>)
    requires
        a@.len() == b@.len(),
    ensures
        m@ == merge_kinds(a@, b@),
{
    let n: usize = a.len();
    let mut m: Vec<LineKind> = Vec::new();
    let mut i: usize = 0;
    while i < n
        invariant
            i <= n == a@.len(),
            n == b@.len(),
            m@.len() == i,
            forall|j: int| 0 <= j < i ==> m@[j] == merged_kind(a@[j], b@[j]),
        decreases n - i,
    {
        let kind = match (a[i], b[i]) {
            (LineKind::Code, LineKind::Comment) => LineKind::Comment,
            (k, _) => k,
        };
        m.push(kind);
        i += 1;
    }
    proof {
        assert(m@ =~= merge_kinds(a@, b@));
    }
    m
}

/// Counts the lines of a file in one pass for each syntax: a line is a
/// comment where any pass finds a comment. The count is that of nothing where
/// a line is not well-formed UTF-8.
pub fn count_passes(bytes: &[u8], passes: &[CommentSyntax]) -> (c: Count)
    requires
        forall|i: int| 0 <= i < passes@.len() ==> (#[trigger] passes@[i]).wf(),
        file_lines(bytes@).len() <= u32::MAX,
    ensures
        c.balanced(),
        all_utf8(file_lines(bytes@)) ==> c.tallies(pass_kinds(file_lines(bytes@), passes@)),
        !all_utf8(file_lines(bytes@)) ==> c == Count::zero(),
{
    let base = CommentSyntax::NoComments;
    let mut kinds = match classify(bytes, &base) {
        Some(k) => k,
        None => {
            return Count { code: 0, comment: 0, blank: 0, lines: 0 };
        },
    };
    proof {
        assert(passes@.take(0) =~= Seq::<CommentSyntax>::empty());
    }
    let mut i: usize = 0;
    while i < passes.len()
        invariant
            i <= passes@.len(),
            file_lines(bytes@).len() <= u32::MAX,
            forall|j: int| 0 <= j < passes@.len() ==> (#[trigger] passes@[j]).wf(),
            all_utf8(file_lines(bytes@)),
            kinds@ == pass_kinds(file_lines(bytes@), passes@.take(i as int)),
        decreases passes@.len() - i,
    {
        let next = match classify(bytes, &passes[i]) {
            Some(k) => k,
            None => {
                return Count { code: 0, comment: 0, blank: 0, lines: 0 };
            },
        };
        proof {
            lemma_pass_kinds_len(file_lines(bytes@), passes@.take(i as int));
            lemma_line_kinds_len(
                file_lines(bytes@),
                passes@[i as int].markers(),
                passes@[i as int].pairs(),
            );
            assert(passes@.take(i + 1).drop_last() =~= passes@.take(i as int));
            assert(passes@.take(i + 1).last() == passes@[i as int]);
        }
        kinds = combine_kinds(&kinds, &next);
        i += 1;
    }
    proof {
        assert(passes@.take(i as int) =~= passes@);
        lemma_pass_kinds_len(file_lines(bytes@), passes@);
    }
    Count::of_kinds(&kinds)
}

/// The language of a file and its count under the comment syntax of that
/// language, or `None` for a file of no language that is known.
pub fn count_file(file_name: &str, extension: Option<&str>, contents: &[u8]) -> (r: Option<
    (Lang, Count),
>)
    requires
        file_lines(contents@).len() <= u32::MAX,
    ensures
        match r {
            Some((lang, c)) => {
                &&& lang != Lang::Unrecognized
                &&& counts_file(
                    c,
                    contents@,
                    marker_bytes(lang_markers(lang)),
                    pair_bytes(lang_pairs(lang)),
                )
                &&& c.balanced()
            },
            None => true,
        },
        ext_lang(
            detected_ext(
                lowercase_of(file_name@),
                match extension {
                    Some(e) => Some(lowercase_of(e@)),
                    None => None,
                },
                contents@,
            ),
        ) == match r {
            Some((lang, c)) => lang,
            None => Lang::Unrecognized,
        },
{
    let lang = lang_from_ext(file_name, extension, contents);
    if lang == Lang::Unrecognized {
        return None;
    }
    let syntax = counter_config_for_lang(lang);
    let c = count(contents, &syntax);
    Some((lang, c))
}

} // verus!
