//! What the options of a run ask for: which files are walked, and which of
//! them are kept.

use vstd::prelude::*;
use vstd::string::*;

verus! {

/// What a walk of the directories respects: the ignore files, and the hiding
/// of hidden files. One request to lift the restrictions gives up the ignore
/// files, a second one the hiding as well.
pub fn walk_flags(unrestricted: u64) -> (flags: (bool, bool))
    ensures
        flags.0 == (unrestricted == 0),
        flags.1 == (unrestricted <= 1),
{
    if unrestricted == 0 {
        (true, true)
    } else if unrestricted == 1 {
        (false, true)
    } else {
        (false, false)
    }
}

/// A file is kept where it matches what is to be included, if anything is,
/// and does not match what is to be excluded, if anything is.
pub fn keeps(included: Option<bool>, excluded: Option<bool>) -> (keep: bool)
    ensures
        keep == ((included is None || included == Some(true)) && (excluded is None || excluded
            == Some(false))),
{
    let within = match included {
        None => true,
        Some(hit) => hit,
    };
    let without = match excluded {
        None => true,
        Some(hit) => !hit,
    };
    within && without
}

/// A pattern set in brackets, so that it stands for itself among others.
pub open spec fn grouped(pattern: Seq<char>) -> Seq<char> {
    seq!['('] + pattern + seq![')']
}

/// The pattern that matches what any of the given patterns matches: each in
/// brackets, with a bar between one and the next.
pub open spec fn any_of(patterns: Seq<String>) -> Seq<char>
    decreases patterns.len(),
{
    if patterns.len() == 0 {
        Seq::empty()
    } else if patterns.len() == 1 {
        grouped(patterns[0]@)
    } else {
        any_of(patterns.drop_last()) + seq!['|'] + grouped(patterns.last()@)
    }
}

/// Puts patterns together into one that matches what any of them matches.
pub fn combine_patterns(patterns: &Vec<String>) -> (combined: String)
    ensures
        combined@ == any_of(patterns@),
{
    let mut combined = String::new();
    let mut i: usize = 0;
    proof {
        reveal_strlit("(");
        reveal_strlit(")");
        reveal_strlit("|");
        assert("("@ =~= seq!['(']);
        assert(")"@ =~= seq![')']);
        assert("|"@ =~= seq!['|']);
    }
    while i < patterns.len()
        invariant
            i <= patterns@.len(),
            combined@ == any_of(patterns@.take(i as int)),
            "("@ == seq!['('],
            ")"@ == seq![')'],
            "|"@ == seq!['|'],
        decreases patterns@.len() - i,
    {
        proof {
            assert(patterns@.take(i + 1).drop_last() =~= patterns@.take(i as int));
            assert(patterns@.take(i + 1).last() == patterns@[i as int]);
        }
        let ghost before = combined@;
        if i > 0 {
            combined.append("|");
        }
        combined.append("(");
        combined.append(patterns[i].as_str());
        combined.append(")");
        proof {
            let p = patterns@[i as int]@;
            if i > 0 {
                assert(combined@ =~= before + seq!['|'] + grouped(p));
            } else {
                assert(before =~= Seq::<char>::empty());
                assert(combined@ =~= grouped(p));
            }
        }
        i += 1;
    }
    proof {
        assert(patterns@.take(i as int) =~= patterns@);
    }
    combined
}

} // verus!
