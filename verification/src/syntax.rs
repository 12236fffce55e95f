//! The comment syntax of a language: the markers that start a line comment and
//! the pairs of delimiters that open and close a block comment.

use smallvec::SmallVec;
use vstd::prelude::*;
use vstd::string::*;

verus! {

/// The line-comment markers of a language, in the order they were given.
/// They are kept in a `smallvec::SmallVec`, which the proofs do not look
/// into: what it holds is told by `marker_items`.
#[verifier::external_body]
#[derive(Debug)]
pub struct Markers {
    items: SmallVec<[&'static str; 3]>,
}

/// The block-comment delimiter pairs of a language, in the order they were
/// given. They are kept in a `smallvec::SmallVec`, which the proofs do not
/// look into: what it holds is told by `delimiter_items`.
#[verifier::external_body]
#[derive(Debug)]
pub struct Delimiters {
    items: SmallVec<[(&'static str, &'static str); 3]>,
}

/// The markers that a `Markers` holds, first pushed first.
pub uninterp spec fn marker_items(m: Markers) -> Seq<&'static str>;

/// The pairs that a `Delimiters` holds, first pushed first.
pub uninterp spec fn delimiter_items(d: Delimiters) -> Seq<(&'static str, &'static str)>;

impl Markers {
    /// `SmallVec::new` makes a vector that holds nothing.
    #[verifier::external_body]
    pub(crate) fn new() -> (m: Markers)
        ensures
            marker_items(m) == Seq::<&'static str>::empty(),
    {
        Markers { items: SmallVec::new() }
    }

    /// `SmallVec::push` appends the item behind those already held, which
    /// stay as they are.
    #[verifier::external_body]
    pub(crate) fn push(&mut self, marker: &'static str)
        ensures
            marker_items(*final(self)) == marker_items(*old(self)).push(marker),
    {
        self.items.push(marker)
    }

    /// `SmallVec::len` is the number of items held.
    #[verifier::external_body]
    pub(crate) fn len(&self) -> (n: usize)
        ensures
            n == marker_items(*self).len(),
    {
        self.items.len()
    }

    /// Indexing a `SmallVec` below its length gives the item at that place.
    #[verifier::external_body]
    pub(crate) fn get(&self, i: usize) -> (marker: &'static str)
        requires
            i < marker_items(*self).len(),
        ensures
            marker == marker_items(*self)[i as int],
    {
        self.items[i]
    }
}

impl Delimiters {
    /// `SmallVec::new` makes a vector that holds nothing.
    #[verifier::external_body]
    pub(crate) fn new() -> (d: Delimiters)
        ensures
            delimiter_items(d) == Seq::<(&'static str, &'static str)>::empty(),
    {
        Delimiters { items: SmallVec::new() }
    }

    /// `SmallVec::push` appends the item behind those already held, which
    /// stay as they are.
    #[verifier::external_body]
    pub(crate) fn push(&mut self, pair: (&'static str, &'static str))
        ensures
            delimiter_items(*final(self)) == delimiter_items(*old(self)).push(pair),
    {
        self.items.push(pair)
    }

    /// `SmallVec::len` is the number of items held.
    #[verifier::external_body]
    pub(crate) fn len(&self) -> (n: usize)
        ensures
            n == delimiter_items(*self).len(),
    {
        self.items.len()
    }

    /// Indexing a `SmallVec` below its length gives the item at that place.
    #[verifier::external_body]
    pub(crate) fn get(&self, i: usize) -> (pair: (&'static str, &'static str))
        requires
            i < delimiter_items(*self).len(),
        ensures
            pair == delimiter_items(*self)[i as int],
    {
        self.items[i]
    }
}

/// The bytes of each marker.
pub open spec fn marker_bytes(items: Seq<&'static str>) -> Seq<Seq<u8>> {
    Seq::new(items.len(), |i: int| items[i].spec_bytes())
}

/// The bytes of each pair's opening and closing delimiter.
pub open spec fn pair_bytes(items: Seq<(&'static str, &'static str)>) -> Seq<(Seq<u8>, Seq<u8>)> {
    Seq::new(items.len(), |i: int| (items[i].0.spec_bytes(), items[i].1.spec_bytes()))
}

/// No marker is empty.
pub open spec fn markers_wf(markers: Seq<Seq<u8>>) -> bool {
    forall|i: int| 0 <= i < markers.len() ==> (#[trigger] markers[i]).len() > 0
}

/// No delimiter is empty.
pub open spec fn pairs_wf(pairs: Seq<(Seq<u8>, Seq<u8>)>) -> bool {
    forall|i: int|
        0 <= i < pairs.len() ==> (#[trigger] pairs[i]).0.len() > 0 && pairs[i].1.len() > 0
}

/// How comments are written in one language.
#[derive(Debug)]
pub enum CommentSyntax {
    /// The language has no comments.
    NoComments,
    /// Comments run from a marker to the end of the line.
    LineOnly(Markers),
    /// Comments stand between an opening and a closing delimiter.
    BlockOnly(Delimiters),
    /// The language has both.
    LineAndBlock(Markers, Delimiters),
}

impl CommentSyntax {
    /// The line-comment markers, in order.
    pub open spec fn marker_strs(self) -> Seq<&'static str> {
        match self {
            CommentSyntax::LineOnly(m) => marker_items(m),
            CommentSyntax::LineAndBlock(m, _) => marker_items(m),
            _ => Seq::empty(),
        }
    }

    /// The block-comment pairs, in order.
    pub open spec fn pair_strs(self) -> Seq<(&'static str, &'static str)> {
        match self {
            CommentSyntax::BlockOnly(d) => delimiter_items(d),
            CommentSyntax::LineAndBlock(_, d) => delimiter_items(d),
            _ => Seq::empty(),
        }
    }

    /// The line-comment markers as bytes.
    pub open spec fn markers(self) -> Seq<Seq<u8>> {
        marker_bytes(self.marker_strs())
    }

    /// The block-comment pairs as bytes.
    pub open spec fn pairs(self) -> Seq<(Seq<u8>, Seq<u8>)> {
        pair_bytes(self.pair_strs())
    }

    /// No marker and no delimiter is empty.
    pub open spec fn wf(self) -> bool {
        markers_wf(self.markers()) && pairs_wf(self.pairs())
    }

    /// The variant is the one that the markers and pairs held call for.
    pub open spec fn variant_fits(self) -> bool {
        match self {
            CommentSyntax::NoComments => true,
            CommentSyntax::LineOnly(m) => marker_items(m).len() > 0,
            CommentSyntax::BlockOnly(d) => delimiter_items(d).len() > 0,
            CommentSyntax::LineAndBlock(m, d) => marker_items(m).len() > 0 && delimiter_items(
                d,
            ).len() > 0,
        }
    }

    /// The syntax with the given markers and pairs, each kept in its order.
    pub fn new(markers: Vec<&'static str>, pairs: Vec<(&'static str, &'static str)>) -> (syntax:
        CommentSyntax)
        ensures
            syntax.marker_strs() == markers@,
            syntax.pair_strs() == pairs@,
            syntax.variant_fits(),
            syntax is NoComments <==> markers@.len() == 0 && pairs@.len() == 0,
            syntax is LineOnly <==> markers@.len() > 0 && pairs@.len() == 0,
            syntax is BlockOnly <==> markers@.len() == 0 && pairs@.len() > 0,
            syntax is LineAndBlock <==> markers@.len() > 0 && pairs@.len() > 0,
    {
        let mut m = Markers::new();
        let mut i: usize = 0;
        while i < markers.len()
            invariant
                i <= markers@.len(),
                marker_items(m) == markers@.take(i as int),
            decreases markers@.len() - i,
        {
            m.push(markers[i]);
            proof {
                assert(markers@.take(i as int).push(markers@[i as int]) == markers@.take(i + 1));
            }
            i += 1;
        }
        let mut d = Delimiters::new();
        let mut j: usize = 0;
        while j < pairs.len()
            invariant
                j <= pairs@.len(),
                delimiter_items(d) == pairs@.take(j as int),
            decreases pairs@.len() - j,
        {
            d.push(pairs[j]);
            proof {
                assert(pairs@.take(j as int).push(pairs@[j as int]) == pairs@.take(j + 1));
            }
            j += 1;
        }
        proof {
            assert(markers@.take(i as int) == markers@);
            assert(pairs@.take(j as int) == pairs@);
        }
        if markers.len() == 0 {
            if pairs.len() == 0 {
                CommentSyntax::NoComments
            } else {
                CommentSyntax::BlockOnly(d)
            }
        } else if pairs.len() == 0 {
            CommentSyntax::LineOnly(m)
        } else {
            CommentSyntax::LineAndBlock(m, d)
        }
    }

    /// The number of line-comment markers.
    pub fn marker_count(&self) -> (n: usize)
        ensures
            n == self.marker_strs().len(),
    {
        match self {
            CommentSyntax::LineOnly(m) => m.len(),
            CommentSyntax::LineAndBlock(m, _) => m.len(),
            _ => 0,
        }
    }

    /// The marker at place `i`.
    pub fn marker(&self, i: usize) -> (s: &'static str)
        requires
            i < self.marker_strs().len(),
        ensures
            s == self.marker_strs()[i as int],
    {
        match self {
            CommentSyntax::LineOnly(m) => m.get(i),
            CommentSyntax::LineAndBlock(m, _) => m.get(i),
            _ => "",
        }
    }

    /// The number of block-comment pairs.
    pub fn pair_count(&self) -> (n: usize)
        ensures
            n == self.pair_strs().len(),
    {
        match self {
            CommentSyntax::BlockOnly(d) => d.len(),
            CommentSyntax::LineAndBlock(_, d) => d.len(),
            _ => 0,
        }
    }

    /// The pair at place `i`.
    pub fn pair(&self, i: usize) -> (p: (&'static str, &'static str))
        requires
            i < self.pair_strs().len(),
        ensures
            p == self.pair_strs()[i as int],
    {
        match self {
            CommentSyntax::BlockOnly(d) => d.get(i),
            CommentSyntax::LineAndBlock(_, d) => d.get(i),
            _ => ("", ""),
        }
    }

    /// Tells whether no marker and no delimiter is empty.
    pub fn well_formed(&self) -> (r: bool)
        ensures
            r == self.wf(),
    {
        let nm: usize = self.marker_count();
        let mut i: usize = 0;
        while i < nm
            invariant
                i <= nm == self.marker_strs().len(),
                forall|k: int| 0 <= k < i ==> (#[trigger] self.markers()[k]).len() > 0,
            decreases nm - i,
        {
            if self.marker(i).as_bytes().len() == 0 {
                assert(self.markers()[i as int].len() == 0);
                return false;
            }
            i += 1;
        }
        let np: usize = self.pair_count();
        let mut j: usize = 0;
        while j < np
            invariant
                j <= np == self.pair_strs().len(),
                markers_wf(self.markers()),
                forall|k: int|
                    0 <= k < j ==> (#[trigger] self.pairs()[k]).0.len() > 0 && self.pairs()[k].1.len()
                        > 0,
            decreases np - j,
        {
            let p = self.pair(j);
            if p.0.as_bytes().len() == 0 || p.1.as_bytes().len() == 0 {
                assert(self.pairs()[j as int].0.len() == 0 || self.pairs()[j as int].1.len() == 0);
                return false;
            }
            j += 1;
        }
        true
    }
}

} // verus!
