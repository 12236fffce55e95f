//! Totals per language: how many files of a language were counted, and the
//! sum of their counts.

use crate::lang::Lang;
use crate::tally::Count;
use vstd::prelude::*;

verus! {

/// The files of one language and the sum of their counts.
#[derive(Debug, PartialEq, Eq, Structural, Clone, Copy)]
pub struct LangTotal {
    pub files: u32,
    pub count: Count,
}

impl LangTotal {
    /// The total of no files.
    pub open spec fn zero() -> LangTotal {
        LangTotal { files: 0, count: Count::zero() }
    }

    /// One more file with the count `c` fits the counters.
    pub open spec fn can_add(self, c: Count) -> bool {
        self.files < u32::MAX && self.count.can_merge(c)
    }

    /// The total with one more file, whose count is `c`.
    pub open spec fn added(self, c: Count) -> LangTotal
        recommends
            self.can_add(c),
    {
        LangTotal { files: (self.files + 1) as u32, count: self.count.merged(c) }
    }

    /// The sums of `self` and `o` all fit their counters.
    pub open spec fn can_merge(self, o: LangTotal) -> bool {
        self.files + o.files <= u32::MAX && self.count.can_merge(o.count)
    }

    /// The files and counts of `self` and `o` added.
    pub open spec fn merged(self, o: LangTotal) -> LangTotal
        recommends
            self.can_merge(o),
    {
        LangTotal { files: (self.files + o.files) as u32, count: self.count.merged(o.count) }
    }

    /// The total of no files.
    pub fn new() -> (t: LangTotal)
        ensures
            t == LangTotal::zero(),
    {
        LangTotal { files: 0, count: Count { code: 0, comment: 0, blank: 0, lines: 0 } }
    }

    /// Tells whether one more file with the count `c` fits the counters.
    pub fn fits(&self, c: &Count) -> (r: bool)
        ensures
            r == self.can_add(*c),
    {
        self.files < u32::MAX && self.count.fits(c)
    }

    /// Counts one more file, whose count is `c`.
    pub fn add_file(&mut self, c: &Count)
        requires
            old(self).can_add(*c),
        ensures
            *final(self) == old(self).added(*c),
    {
        self.files += 1;
        self.count.merge(c);
    }

    /// Adds the files and counts of `o`.
    pub fn merge(&mut self, o: &LangTotal)
        requires
            old(self).can_merge(*o),
        ensures
            *final(self) == old(self).merged(*o),
    {
        self.files += o.files;
        self.count.merge(&o.count);
    }
}

/// The place of the first total of `lang` at or after `from`, or the length
/// of `totals` where there is none.
pub open spec fn place_from(totals: Seq<(Lang, LangTotal)>, lang: Lang, from: int) -> int
    decreases totals.len() - from,
{
    if from >= totals.len() || totals[from].0 == lang {
        from
    } else {
        place_from(totals, lang, from + 1)
    }
}

/// The place of the total of `lang`, or the length of `totals` where it has none.
pub open spec fn place_of(totals: Seq<(Lang, LangTotal)>, lang: Lang) -> int {
    place_from(totals, lang, 0)
}

/// The total of `lang`: that of no files where none was counted.
pub open spec fn total_of(totals: Seq<(Lang, LangTotal)>, lang: Lang) -> LangTotal {
    if 0 <= place_of(totals, lang) < totals.len() {
        totals[place_of(totals, lang)].1
    } else {
        LangTotal::zero()
    }
}

/// The totals after one more file of `lang` with the count `c`: the total of
/// `lang` grows where it is, and a language seen for the first time comes last.
pub open spec fn with_file(totals: Seq<(Lang, LangTotal)>, lang: Lang, c: Count) -> Seq<
    (Lang, LangTotal),
> {
    if 0 <= place_of(totals, lang) < totals.len() {
        totals.update(place_of(totals, lang), (lang, total_of(totals, lang).added(c)))
    } else {
        totals.push((lang, LangTotal::zero().added(c)))
    }
}

/// The sum of the files over all languages.
pub open spec fn files_sum(totals: Seq<(Lang, LangTotal)>) -> int
    decreases totals.len(),
{
    if totals.len() == 0 {
        0
    } else {
        files_sum(totals.drop_last()) + totals.last().1.files
    }
}

/// The sum of the code lines over all languages.
pub open spec fn code_sum(totals: Seq<(Lang, LangTotal)>) -> int
    decreases totals.len(),
{
    if totals.len() == 0 {
        0
    } else {
        code_sum(totals.drop_last()) + totals.last().1.count.code
    }
}

/// The sum of the comment lines over all languages.
pub open spec fn comment_sum(totals: Seq<(Lang, LangTotal)>) -> int
    decreases totals.len(),
{
    if totals.len() == 0 {
        0
    } else {
        comment_sum(totals.drop_last()) + totals.last().1.count.comment
    }
}

/// The sum of the blank lines over all languages.
pub open spec fn blank_sum(totals: Seq<(Lang, LangTotal)>) -> int
    decreases totals.len(),
{
    if totals.len() == 0 {
        0
    } else {
        blank_sum(totals.drop_last()) + totals.last().1.count.blank
    }
}

/// The sum of the lines over all languages.
pub open spec fn lines_sum(totals: Seq<(Lang, LangTotal)>) -> int
    decreases totals.len(),
{
    if totals.len() == 0 {
        0
    } else {
        lines_sum(totals.drop_last()) + totals.last().1.count.lines
    }
}

/// True when `t` holds the sums over all languages.
pub open spec fn sums_up(t: LangTotal, totals: Seq<(Lang, LangTotal)>) -> bool {
    &&& t.files == files_sum(totals)
    &&& t.count.code == code_sum(totals)
    &&& t.count.comment == comment_sum(totals)
    &&& t.count.blank == blank_sum(totals)
    &&& t.count.lines == lines_sum(totals)
}

/// No language has two totals.
pub open spec fn distinct_langs(totals: Seq<(Lang, LangTotal)>) -> bool {
    forall|i: int, j: int|
        0 <= i < j < totals.len() ==> (#[trigger] totals[i]).0 != (#[trigger] totals[j]).0
}

/// The place of a language lies in the sequence or at its end; a place in the
/// sequence holds the language, and no place before it does.
pub proof fn lemma_place_from(totals: Seq<(Lang, LangTotal)>, lang: Lang, from: int)
    requires
        0 <= from <= totals.len(),
    ensures
        from <= place_from(totals, lang, from) <= totals.len(),
        place_from(totals, lang, from) < totals.len() ==> totals[place_from(
            totals,
            lang,
            from,
        )].0 == lang,
        forall|j: int| from <= j < place_from(totals, lang, from) ==> totals[j].0 != lang,
    decreases totals.len() - from,
{
    if from < totals.len() && totals[from].0 != lang {
        lemma_place_from(totals, lang, from + 1);
    }
}

/// A place that holds the language, or the end, with no place before it that
/// holds the language, is the place of the language.
pub proof fn lemma_place_is(totals: Seq<(Lang, LangTotal)>, lang: Lang, from: int, at: int)
    requires
        0 <= from <= at <= totals.len(),
        at < totals.len() ==> totals[at].0 == lang,
        forall|j: int| from <= j < at ==> totals[j].0 != lang,
    ensures
        place_from(totals, lang, from) == at,
    decreases at - from,
{
    if from < at {
        lemma_place_is(totals, lang, from + 1, at);
    }
}

/// After one more file of `lang`, the total of `lang` has grown by that file
/// and the total of every other language is what it was.
pub proof fn lemma_total_of_with_file(
    totals: Seq<(Lang, LangTotal)>,
    lang: Lang,
    c: Count,
    other: Lang,
)
    ensures
        total_of(with_file(totals, lang, c), other) == if other == lang {
            total_of(totals, lang).added(c)
        } else {
            total_of(totals, other)
        },
{
    let after = with_file(totals, lang, c);
    let p = place_of(totals, lang);
    let q = place_of(totals, other);
    lemma_place_from(totals, lang, 0);
    lemma_place_from(totals, other, 0);
    if p < totals.len() {
        assert(after.len() == totals.len());
        assert forall|j: int| 0 <= j < after.len() implies after[j].0 == totals[j].0 by {}
        lemma_place_is(after, other, 0, q);
    } else {
        assert(after.len() == totals.len() + 1);
        if other == lang {
            lemma_place_is(after, other, 0, totals.len() as int);
        } else if q < totals.len() {
            lemma_place_is(after, other, 0, q);
        } else {
            lemma_place_is(after, other, 0, after.len() as int);
        }
    }
}

/// One more file adds one file and its count to the sums over all languages.
pub proof fn lemma_sums_with_file(totals: Seq<(Lang, LangTotal)>, lang: Lang, c: Count)
    requires
        total_of(totals, lang).can_add(c),
    ensures
        files_sum(with_file(totals, lang, c)) == files_sum(totals) + 1,
        code_sum(with_file(totals, lang, c)) == code_sum(totals) + c.code,
        comment_sum(with_file(totals, lang, c)) == comment_sum(totals) + c.comment,
        blank_sum(with_file(totals, lang, c)) == blank_sum(totals) + c.blank,
        lines_sum(with_file(totals, lang, c)) == lines_sum(totals) + c.lines,
{
    let p = place_of(totals, lang);
    lemma_place_from(totals, lang, 0);
    if p < totals.len() {
        lemma_sums_update(totals, p, (lang, total_of(totals, lang).added(c)));
    } else {
        assert(with_file(totals, lang, c).drop_last() =~= totals);
    }
}

/// Replacing one total changes each sum by the difference of the two.
pub proof fn lemma_sums_update(totals: Seq<(Lang, LangTotal)>, at: int, to: (Lang, LangTotal))
    requires
        0 <= at < totals.len(),
    ensures
        files_sum(totals.update(at, to)) == files_sum(totals) - totals[at].1.files + to.1.files,
        code_sum(totals.update(at, to)) == code_sum(totals) - totals[at].1.count.code
            + to.1.count.code,
        comment_sum(totals.update(at, to)) == comment_sum(totals) - totals[at].1.count.comment
            + to.1.count.comment,
        blank_sum(totals.update(at, to)) == blank_sum(totals) - totals[at].1.count.blank
            + to.1.count.blank,
        lines_sum(totals.update(at, to)) == lines_sum(totals) - totals[at].1.count.lines
            + to.1.count.lines,
    decreases totals.len(),
{
    if at == totals.len() - 1 {
        assert(totals.update(at, to).drop_last() =~= totals.drop_last());
    } else {
        lemma_sums_update(totals.drop_last(), at, to);
        assert(totals.update(at, to).drop_last() =~= totals.drop_last().update(at, to));
    }
}

/// The total of a language is no more than the sum over all languages.
pub proof fn lemma_total_within_sums(totals: Seq<(Lang, LangTotal)>, lang: Lang)
    ensures
        total_of(totals, lang).files <= files_sum(totals),
        total_of(totals, lang).count.code <= code_sum(totals),
        total_of(totals, lang).count.comment <= comment_sum(totals),
        total_of(totals, lang).count.blank <= blank_sum(totals),
        total_of(totals, lang).count.lines <= lines_sum(totals),
{
    let p = place_of(totals, lang);
    lemma_place_from(totals, lang, 0);
    lemma_sums_bound(totals);
    if p < totals.len() {
        lemma_sums_update(totals, p, (lang, LangTotal::zero()));
        lemma_sums_bound(totals.update(p, (lang, LangTotal::zero())));
    }
}

/// No sum is negative.
pub proof fn lemma_sums_bound(totals: Seq<(Lang, LangTotal)>)
    ensures
        files_sum(totals) >= 0,
        code_sum(totals) >= 0,
        comment_sum(totals) >= 0,
        blank_sum(totals) >= 0,
        lines_sum(totals) >= 0,
    decreases totals.len(),
{
    if totals.len() > 0 {
        lemma_sums_bound(totals.drop_last());
    }
}

/// Files of two languages can be counted in either order: the total of every
/// language comes out the same, and so do the sums over all languages.
pub proof fn lemma_with_file_commutes(
    totals: Seq<(Lang, LangTotal)>,
    lang1: Lang,
    c1: Count,
    lang2: Lang,
    c2: Count,
    lang: Lang,
)
    requires
        total_of(totals, lang1).can_add(c1),
        total_of(with_file(totals, lang1, c1), lang2).can_add(c2),
    ensures
        total_of(totals, lang2).can_add(c2),
        total_of(with_file(totals, lang2, c2), lang1).can_add(c1),
        total_of(with_file(with_file(totals, lang1, c1), lang2, c2), lang) == total_of(
            with_file(with_file(totals, lang2, c2), lang1, c1),
            lang,
        ),
        files_sum(with_file(with_file(totals, lang1, c1), lang2, c2)) == files_sum(
            with_file(with_file(totals, lang2, c2), lang1, c1),
        ),
        code_sum(with_file(with_file(totals, lang1, c1), lang2, c2)) == code_sum(
            with_file(with_file(totals, lang2, c2), lang1, c1),
        ),
        comment_sum(with_file(with_file(totals, lang1, c1), lang2, c2)) == comment_sum(
            with_file(with_file(totals, lang2, c2), lang1, c1),
        ),
        blank_sum(with_file(with_file(totals, lang1, c1), lang2, c2)) == blank_sum(
            with_file(with_file(totals, lang2, c2), lang1, c1),
        ),
        lines_sum(with_file(with_file(totals, lang1, c1), lang2, c2)) == lines_sum(
            with_file(with_file(totals, lang2, c2), lang1, c1),
        ),
{
    let a = with_file(totals, lang1, c1);
    let b = with_file(totals, lang2, c2);
    lemma_total_of_with_file(totals, lang1, c1, lang2);
    lemma_total_of_with_file(totals, lang2, c2, lang1);
    lemma_total_of_with_file(totals, lang1, c1, lang);
    lemma_total_of_with_file(totals, lang2, c2, lang);
    lemma_total_of_with_file(a, lang2, c2, lang);
    lemma_total_of_with_file(b, lang1, c1, lang);
    lemma_sums_with_file(totals, lang1, c1);
    lemma_sums_with_file(a, lang2, c2);
    lemma_sums_with_file(totals, lang2, c2);
    lemma_sums_with_file(b, lang1, c1);
}

/// Numbers of files and lines, as large as they may come.
pub struct Sums {
    pub files: int,
    pub code: int,
    pub comment: int,
    pub blank: int,
    pub lines: int,
}

impl Sums {
    /// The sums of nothing.
    pub open spec fn zero() -> Sums {
        Sums { files: 0, code: 0, comment: 0, blank: 0, lines: 0 }
    }

    /// The sums of `self` and `o`, number by number.
    pub open spec fn plus(self, o: Sums) -> Sums {
        Sums {
            files: self.files + o.files,
            code: self.code + o.code,
            comment: self.comment + o.comment,
            blank: self.blank + o.blank,
            lines: self.lines + o.lines,
        }
    }

    /// Every number fits a counter.
    pub open spec fn fits(self) -> bool {
        &&& 0 <= self.files <= u32::MAX
        &&& 0 <= self.code <= u32::MAX
        &&& 0 <= self.comment <= u32::MAX
        &&& 0 <= self.blank <= u32::MAX
        &&& 0 <= self.lines <= u32::MAX
    }

    /// No number of `self` is above that of `o`, and none is below zero.
    pub open spec fn within(self, o: Sums) -> bool {
        &&& 0 <= self.files <= o.files
        &&& 0 <= self.code <= o.code
        &&& 0 <= self.comment <= o.comment
        &&& 0 <= self.blank <= o.blank
        &&& 0 <= self.lines <= o.lines
    }

    /// The numbers are those of the total.
    pub open spec fn of_total(t: LangTotal) -> Sums {
        Sums {
            files: t.files as int,
            code: t.count.code as int,
            comment: t.count.comment as int,
            blank: t.count.blank as int,
            lines: t.count.lines as int,
        }
    }
}

/// What one file adds to the sums of a language, or to the sums of all
/// languages where `lang` is `None`.
pub open spec fn share(file: (Lang, Count), lang: Option<Lang>) -> Sums {
    if lang is None || lang == Some(file.0) {
        Sums {
            files: 1,
            code: file.1.code as int,
            comment: file.1.comment as int,
            blank: file.1.blank as int,
            lines: file.1.lines as int,
        }
    } else {
        Sums::zero()
    }
}

/// The sums over the files of a language, or over all files where `lang` is `None`.
pub open spec fn sums_of(files: Seq<(Lang, Count)>, lang: Option<Lang>) -> Sums
    decreases files.len(),
{
    if files.len() == 0 {
        Sums::zero()
    } else {
        sums_of(files.drop_last(), lang).plus(share(files.last(), lang))
    }
}

/// The totals after the files of a run were counted one after the other.
pub open spec fn with_files(totals: Seq<(Lang, LangTotal)>, files: Seq<(Lang, Count)>) -> Seq<
    (Lang, LangTotal),
>
    decreases files.len(),
{
    if files.len() == 0 {
        totals
    } else {
        with_file(with_files(totals, files.drop_last()), files.last().0, files.last().1)
    }
}

/// The sums of one language are within the sums of all, and the sums of a
/// part of a run are within those of the whole.
pub proof fn lemma_sums_of_within(files: Seq<(Lang, Count)>, lang: Option<Lang>)
    ensures
        sums_of(files, lang).within(sums_of(files, None)),
        files.len() > 0 ==> sums_of(files.drop_last(), None).within(sums_of(files, None)),
    decreases files.len(),
{
    if files.len() > 0 {
        lemma_sums_of_within(files.drop_last(), lang);
        lemma_sums_of_within(files.drop_last(), None);
    }
}

/// Taking one file out of a run takes its share out of the sums.
pub proof fn lemma_sums_of_remove(files: Seq<(Lang, Count)>, at: int, lang: Option<Lang>)
    requires
        0 <= at < files.len(),
    ensures
        sums_of(files, lang) == sums_of(files.remove(at), lang).plus(share(files[at], lang)),
    decreases files.len(),
{
    if at == files.len() - 1 {
        assert(files.remove(at) =~= files.drop_last());
    } else {
        lemma_sums_of_remove(files.drop_last(), at, lang);
        assert(files.remove(at).drop_last() =~= files.drop_last().remove(at));
        assert(files.remove(at).last() == files.last());
    }
}

/// The sums over a run do not depend on the order of its files.
pub proof fn lemma_sums_of_any_order(
    a: Seq<(Lang, Count)>,
    b: Seq<(Lang, Count)>,
    lang: Option<Lang>,
)
    requires
        a.to_multiset() == b.to_multiset(),
    ensures
        sums_of(a, lang) == sums_of(b, lang),
    decreases a.len(),
{
    a.to_multiset_ensures();
    b.to_multiset_ensures();
    if a.len() == 0 {
        assert(b.len() == 0);
    } else {
        let x = a.last();
        let front = a.drop_last();
        front.to_multiset_ensures();
        assert(a =~= front.push(x));
        assert(a.to_multiset() =~= front.to_multiset().insert(x));
        assert(b.to_multiset().count(x) > 0);
        assert(b.contains(x));
        let at = choose|i: int| 0 <= i < b.len() && b[i] == x;
        assert(b.remove(at).to_multiset() =~= front.to_multiset());
        lemma_sums_of_any_order(front, b.remove(at), lang);
        lemma_sums_of_remove(b, at, lang);
    }
}

/// After a run whose sums fit the counters, the total of every language
/// holds the sums over the files of that language.
pub proof fn lemma_with_files_totals(files: Seq<(Lang, Count)>, lang: Lang)
    requires
        sums_of(files, None).fits(),
    ensures
        Sums::of_total(total_of(with_files(Seq::empty(), files), lang)) == sums_of(
            files,
            Some(lang),
        ),
    decreases files.len(),
{
    if files.len() == 0 {
        lemma_place_from(Seq::<(Lang, LangTotal)>::empty(), lang, 0);
    } else {
        let front = files.drop_last();
        let last = files.last();
        lemma_sums_of_within(files, Some(lang));
        lemma_sums_of_within(files, Some(last.0));
        lemma_with_files_totals(front, lang);
        lemma_with_files_totals(front, last.0);
        lemma_total_of_with_file(with_files(Seq::empty(), front), last.0, last.1, lang);
    }
}

/// After a run whose sums fit the counters, the sums over all languages are
/// the sums over all files.
pub proof fn lemma_with_files_sums(files: Seq<(Lang, Count)>)
    requires
        sums_of(files, None).fits(),
    ensures
        files_sum(with_files(Seq::empty(), files)) == sums_of(files, None).files,
        code_sum(with_files(Seq::empty(), files)) == sums_of(files, None).code,
        comment_sum(with_files(Seq::empty(), files)) == sums_of(files, None).comment,
        blank_sum(with_files(Seq::empty(), files)) == sums_of(files, None).blank,
        lines_sum(with_files(Seq::empty(), files)) == sums_of(files, None).lines,
    decreases files.len(),
{
    if files.len() > 0 {
        let front = files.drop_last();
        let last = files.last();
        lemma_sums_of_within(files, Some(last.0));
        lemma_sums_of_within(front, Some(last.0));
        lemma_with_files_sums(front);
        lemma_with_files_totals(front, last.0);
        lemma_sums_with_file(with_files(Seq::empty(), front), last.0, last.1);
    }
}

/// The files of a run can be counted in any order: where the sums of the run
/// fit the counters, the total of every language comes out the same.
pub proof fn lemma_totals_any_order(a: Seq<(Lang, Count)>, b: Seq<(Lang, Count)>, lang: Lang)
    requires
        a.to_multiset() == b.to_multiset(),
        sums_of(a, None).fits(),
    ensures
        sums_of(b, None).fits(),
        total_of(with_files(Seq::empty(), a), lang) == total_of(
            with_files(Seq::empty(), b),
            lang,
        ),
{
    lemma_sums_of_any_order(a, b, None);
    lemma_sums_of_any_order(a, b, Some(lang));
    lemma_with_files_totals(a, lang);
    lemma_with_files_totals(b, lang);
}

/// Adding the totals of two languages does not depend on their order.
pub proof fn lemma_total_merge_commutative(a: LangTotal, b: LangTotal)
    ensures
        a.can_merge(b) == b.can_merge(a),
        a.merged(b) == b.merged(a),
{
}

/// Adding three totals gives the same sums however they are grouped.
pub proof fn lemma_total_merge_associative(a: LangTotal, b: LangTotal, c: LangTotal)
    requires
        a.can_merge(b),
        a.merged(b).can_merge(c),
    ensures
        b.can_merge(c),
        a.can_merge(b.merged(c)),
        a.merged(b).merged(c) == a.merged(b.merged(c)),
{
}

/// The totals of a run, one for each language seen, in the order in which the
/// languages were first seen, with the sums over all of them.
pub struct Totals {
    by_lang: Vec<(Lang, LangTotal)>,
    all: LangTotal,
}

impl View for Totals {
    type V = Seq<(Lang, LangTotal)>;

    closed spec fn view(&self) -> Seq<(Lang, LangTotal)> {
        self.by_lang@
    }
}

impl Totals {
    /// What is kept holds together: no language has two totals, and the sums
    /// are those over all languages.
    pub open spec fn wf(self) -> bool {
        &&& distinct_langs(self@)
        &&& sums_up(self.sums(), self@)
    }

    /// The sums over all languages, as kept.
    pub closed spec fn sums(self) -> LangTotal {
        self.all
    }

    /// The totals of a run in which no file was counted yet.
    pub fn new() -> (t: Totals)
        ensures
            t.wf(),
            t@ == Seq::<(Lang, LangTotal)>::empty(),
            t.sums() == LangTotal::zero(),
    {
        Totals { by_lang: Vec::new(), all: LangTotal::new() }
    }

    /// One more file with the count `c` fits the sums over all languages, and
    /// so the total of any one of them.
    pub open spec fn can_merge(self, c: Count) -> bool {
        self.sums().can_add(c)
    }

    /// Tells whether one more file with the count `c` fits.
    pub fn accepts(&self, c: &Count) -> (r: bool)
        ensures
            r == self.can_merge(*c),
    {
        self.all.fits(c)
    }

    /// The number of languages seen.
    pub fn len(&self) -> (n: usize)
        ensures
            n == self@.len(),
    {
        self.by_lang.len()
    }

    /// The language and total at place `i`, in the order of first appearance.
    pub fn entry(&self, i: usize) -> (e: (Lang, LangTotal))
        requires
            i < self@.len(),
        ensures
            e == self@[i as int],
    {
        self.by_lang[i]
    }

    /// The total of a language: that of no files where none was counted.
    pub fn get(&self, lang: Lang) -> (t: LangTotal)
        ensures
            t == total_of(self@, lang),
    {
        let i: usize = self.find(lang);
        if i < self.by_lang.len() {
            self.by_lang[i].1
        } else {
            LangTotal::new()
        }
    }

    /// The place of a language, or the number of languages where it was not seen.
    pub fn find(&self, lang: Lang) -> (i: usize)
        ensures
            i == place_of(self@, lang),
            i <= self@.len(),
    {
        let n: usize = self.by_lang.len();
        let mut i: usize = 0;
        while i < n
            invariant
                i <= n == self.by_lang@.len(),
                forall|j: int| 0 <= j < i ==> self.by_lang@[j].0 != lang,
            decreases n - i,
        {
            if self.by_lang[i].0 == lang {
                proof {
                    lemma_place_is(self.by_lang@, lang, 0, i as int);
                }
                return i;
            }
            i += 1;
        }
        proof {
            lemma_place_is(self.by_lang@, lang, 0, n as int);
        }
        n
    }

    /// Counts one more file of `lang`, whose count is `c`.
    pub fn merge(&mut self, lang: Lang, c: &Count)
        requires
            old(self).wf(),
            old(self).can_merge(*c),
        ensures
            final(self).wf(),
            final(self)@ == with_file(old(self)@, lang, *c),
            final(self).sums() == old(self).sums().added(*c),
    {
        proof {
            lemma_total_within_sums(self.by_lang@, lang);
            lemma_sums_with_file(self.by_lang@, lang, *c);
            lemma_place_from(self.by_lang@, lang, 0);
        }
        let i: usize = self.find(lang);
        let ghost before = self.by_lang@;
        self.all.add_file(c);
        if i < self.by_lang.len() {
            let mut t: LangTotal = self.by_lang[i].1;
            t.add_file(c);
            self.by_lang.set(i, (lang, t));
        } else {
            let mut t = LangTotal::new();
            t.add_file(c);
            self.by_lang.push((lang, t));
        }
        proof {
            assert(self.by_lang@ =~= with_file(before, lang, *c));
        }
    }

    /// The sums over all languages: the files counted and the sum of their counts.
    pub fn grand_total(&self) -> (t: LangTotal)
        ensures
            t == self.sums(),
            self.wf() ==> sums_up(t, self@),
    {
        self.all
    }
}

} // verus!
