//! Line kinds and the four counters kept for a file or a language.

use vstd::prelude::*;

verus! {

/// What one line of a file was found to be.
#[derive(Debug, PartialEq, Eq, Structural, Clone, Copy)]
pub enum LineKind {
    Code,
    Comment,
    Blank,
}

/// How many of `kinds` are `kind`.
pub open spec fn kind_count(kinds: Seq<LineKind>, kind: LineKind) -> nat
    decreases kinds.len(),
{
    if kinds.len() == 0 {
        0
    } else {
        kind_count(kinds.drop_last(), kind) + if kinds.last() == kind {
            1nat
        } else {
            0nat
        }
    }
}

/// Every line is of exactly one kind: the three counts add up to the number of lines.
pub proof fn lemma_kind_counts_sum(kinds: Seq<LineKind>)
    ensures
        kind_count(kinds, LineKind::Code) + kind_count(kinds, LineKind::Comment) + kind_count(
            kinds,
            LineKind::Blank,
        ) == kinds.len(),
    decreases kinds.len(),
{
    if kinds.len() > 0 {
        lemma_kind_counts_sum(kinds.drop_last());
    }
}

/// The counters of one file, or the sum of the counters of many.
#[derive(Debug, PartialEq, Eq, Structural, Clone, Copy)]
pub struct Count {
    pub code: u32,
    pub comment: u32,
    pub blank: u32,
    pub lines: u32,
}

impl Default for Count {
    fn default() -> (c: Count)
        ensures
            c == Count::zero(),
    {
        Count { code: 0, comment: 0, blank: 0, lines: 0 }
    }
}

impl Count {
    /// The count of nothing: all four counters at zero.
    pub open spec fn zero() -> Count {
        Count { code: 0, comment: 0, blank: 0, lines: 0 }
    }

    /// The lines are exactly the code, comment and blank lines together.
    pub open spec fn balanced(self) -> bool {
        self.lines == self.code + self.comment + self.blank
    }

    /// The counters are those of a file whose lines are of the given kinds.
    pub open spec fn tallies(self, kinds: Seq<LineKind>) -> bool {
        &&& self.code == kind_count(kinds, LineKind::Code)
        &&& self.comment == kind_count(kinds, LineKind::Comment)
        &&& self.blank == kind_count(kinds, LineKind::Blank)
        &&& self.lines == kinds.len()
    }

    /// The four sums of `self` and `o` all fit their counters.
    pub open spec fn can_merge(self, o: Count) -> bool {
        &&& self.code + o.code <= u32::MAX
        &&& self.comment + o.comment <= u32::MAX
        &&& self.blank + o.blank <= u32::MAX
        &&& self.lines + o.lines <= u32::MAX
    }

    /// The counters of `self` and `o` added one by one.
    pub open spec fn merged(self, o: Count) -> Count
        recommends
            self.can_merge(o),
    {
        Count {
            code: (self.code + o.code) as u32,
            comment: (self.comment + o.comment) as u32,
            blank: (self.blank + o.blank) as u32,
            lines: (self.lines + o.lines) as u32,
        }
    }

    /// Tells whether the four sums of `self` and `o` all fit their counters.
    pub fn fits(&self, o: &Count) -> (r: bool)
        ensures
            r == self.can_merge(*o),
    {
        o.code <= u32::MAX - self.code && o.comment <= u32::MAX - self.comment && o.blank
            <= u32::MAX - self.blank && o.lines <= u32::MAX - self.lines
    }

    /// Adds the counters of `o` to those of `self`.
    pub fn merge(&mut self, o: &Count)
        requires
            old(self).can_merge(*o),
        ensures
            *final(self) == old(self).merged(*o),
            old(self).balanced() && o.balanced() ==> final(self).balanced(),
    {
        self.code += o.code;
        self.comment += o.comment;
        self.blank += o.blank;
        self.lines += o.lines;
    }

    /// Counts one more line of the given kind.
    pub fn add_line(&mut self, kind: LineKind)
        requires
            old(self).lines < u32::MAX,
            old(self).balanced(),
        ensures
            final(self).balanced(),
            final(self).lines == old(self).lines + 1,
            final(self).code == old(self).code + if kind == LineKind::Code { 1int } else { 0int },
            final(self).comment == old(self).comment + if kind == LineKind::Comment { 1int } else { 0int },
            final(self).blank == old(self).blank + if kind == LineKind::Blank { 1int } else { 0int },
    {
        self.lines += 1;
        match kind {
            LineKind::Code => {
                self.code += 1;
            },
            LineKind::Comment => {
                self.comment += 1;
            },
            LineKind::Blank => {
                self.blank += 1;
            },
        }
    }

    /// The counters of a file whose lines are of the given kinds.
    pub fn of_kinds(kinds: &Vec<LineKind>) -> (c: Count)
        requires
            kinds.len() <= u32::MAX,
        ensures
            c.tallies(kinds@),
            c.balanced(),
    {
        let mut c = Count { code: 0, comment: 0, blank: 0, lines: 0 };
        let mut i: usize = 0;
        while i < kinds.len()
            invariant
                i <= kinds.len() <= u32::MAX,
                c.tallies(kinds@.take(i as int)),
                c.balanced(),
            decreases kinds.len() - i,
        {
            proof {
                assert(kinds@.take(i + 1).drop_last() == kinds@.take(i as int));
            }
            c.add_line(kinds[i]);
            i += 1;
        }
        proof {
            assert(kinds@.take(i as int) == kinds@);
        }
        c
    }
}

/// Merging counters does not depend on the order of the two.
pub proof fn lemma_merge_commutative(a: Count, b: Count)
    ensures
        a.can_merge(b) == b.can_merge(a),
        a.merged(b) == b.merged(a),
{
}

/// Merging three counters gives the same sums however they are grouped.
pub proof fn lemma_merge_associative(a: Count, b: Count, c: Count)
    requires
        a.can_merge(b),
        a.merged(b).can_merge(c),
    ensures
        b.can_merge(c),
        a.can_merge(b.merged(c)),
        a.merged(b).merged(c) == a.merged(b.merged(c)),
{
}

/// Merging the count of nothing changes nothing.
pub proof fn lemma_merge_zero(a: Count)
    ensures
        a.can_merge(Count::zero()),
        a.merged(Count::zero()) == a,
        Count::zero().merged(a) == a,
{
}

} // verus!
