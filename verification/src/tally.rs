//! The reaction tally filter: which reaction groups qualify a message
//! for curation.

use vstd::prelude::*;
use vstd::string::StringExecFns;
use crate::model::GroupV;
use crate::model::ReactionGroup;
use crate::model::groups_view;

verus! {

/// A group must reach this count to qualify; the bound is inclusive.
pub const REACTION_THRESHOLD: u64 = 2;

/// The recognized emoji identifiers: two built-in glyphs and one
/// custom-emoji id in its decimal string form.
pub open spec fn is_recognized(emoji: Seq<char>) -> bool {
    emoji == "\u{2b50}"@ || emoji == "\u{1f40c}"@ || emoji == "1033546960067629077"@
}

/// A group qualifies iff its identifier is recognized and its count
/// reaches the threshold.
pub open spec fn qualifies(g: GroupV) -> bool {
    is_recognized(g.emoji) && g.count >= REACTION_THRESHOLD
}

/// The qualifying subset of `groups`, in the input's order.
pub open spec fn qualify_spec(groups: Seq<GroupV>) -> Seq<GroupV>
    decreases groups.len(),
{
    if groups.len() == 0 {
        Seq::empty()
    } else {
        let rest = qualify_spec(groups.drop_last());
        if qualifies(groups.last()) {
            rest.push(groups.last())
        } else {
            rest
        }
    }
}

/// Threshold boundary: for a recognized identifier, a count of exactly
/// `REACTION_THRESHOLD` qualifies and any smaller count does not — the
/// threshold is an inclusive lower bound.
pub proof fn lemma_threshold_boundary(g: GroupV)
    requires
        is_recognized(g.emoji),
    ensures
        g.count == REACTION_THRESHOLD ==> qualifies(g),
        g.count < REACTION_THRESHOLD ==> !qualifies(g),
{
}

/// Every kept group qualifies, and every qualifying input group is kept.
pub proof fn lemma_qualify_spec_membership(groups: Seq<GroupV>)
    ensures
        forall|i: int|
            0 <= i < qualify_spec(groups).len() ==> qualifies(#[trigger] qualify_spec(groups)[i]),
        forall|i: int|
            0 <= i < groups.len() && qualifies(#[trigger] groups[i]) ==> qualify_spec(
                groups,
            ).contains(groups[i]),
    decreases groups.len(),
{
    if groups.len() > 0 {
        lemma_qualify_spec_membership(groups.drop_last());
        let out = qualify_spec(groups);
        let rest = qualify_spec(groups.drop_last());
        assert forall|i: int| 0 <= i < groups.len() && qualifies(#[trigger] groups[i]) implies
            out.contains(groups[i]) by {
            if i == groups.len() - 1 {
                assert(out.last() == groups[i]);
                assert(out[out.len() - 1] == groups[i]);
            } else {
                assert(groups.drop_last()[i] == groups[i]);
                assert(rest.contains(groups[i]));
                let j = choose|j: int| 0 <= j < rest.len() && rest[j] == groups[i];
                assert(out[j] == groups[i]);
            }
        }
    }
}

fn is_recognized_exec(emoji: &String) -> (r: bool)
    ensures
        r == is_recognized(emoji@),
{
    *emoji == String::from_str("\u{2b50}") || *emoji == String::from_str("\u{1f40c}") || *emoji
        == String::from_str("1033546960067629077")
}

/// Keeps exactly the qualifying groups, in the input's order: identifier
/// recognized and count at least `REACTION_THRESHOLD` (a count equal to
/// the threshold qualifies; a smaller one does not).
pub fn qualify(groups: &Vec<ReactionGroup>) -> (r: Vec<ReactionGroup>)
    ensures
        groups_view(r@) == qualify_spec(groups_view(groups@)),
{
    let mut result: Vec<ReactionGroup> = Vec::new();
    let mut i: usize = 0;
    proof {
        assert(groups_view(result@) =~= qualify_spec(groups_view(groups@.take(0int))));
    }
    while i < groups.len()
        invariant
            i <= groups.len(),
            groups_view(result@) == qualify_spec(groups_view(groups@.take(i as int))),
        decreases groups.len() - i,
    {
        let g = &groups[i];
        let ghost prev = result@;
        let ghost whole = groups_view(groups@.take(i + 1));
        proof {
            assert(whole.drop_last() =~= groups_view(groups@.take(i as int)));
            assert(whole.last() == groups@[i as int]@);
        }
        if is_recognized_exec(&g.emoji) && g.count >= REACTION_THRESHOLD {
            let kept = ReactionGroup { emoji: g.emoji.clone(), count: g.count };
            proof {
                assert(kept@ == groups@[i as int]@);
            }
            result.push(kept);
            proof {
                assert(qualifies(whole.last()));
                assert(groups_view(result@) =~= groups_view(prev).push(groups@[i as int]@));
                assert(groups_view(result@) == qualify_spec(whole));
            }
        } else {
            proof {
                assert(!qualifies(whole.last()));
                assert(groups_view(result@) == qualify_spec(whole));
            }
        }
        i = i + 1;
    }
    proof {
        assert(groups@.take(groups@.len() as int) =~= groups@);
    }
    result
}

} // verus!
