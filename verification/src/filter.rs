//! Topic filters: which topic names a subscription is for.
use crate::text::{join, lemma_join_of_split, split, split_levels, texts};
use vstd::prelude::*;

verus! {

/// Whether one level of a filter accepts one level of a topic name: `+`
/// accepts any level, anything else accepts itself.
pub open spec fn level_accepts(level: Seq<char>, name: Seq<char>) -> bool {
    level == "+"@ || level == name
}

/// Whether the last level of a filter is `#`, which stands for any number of
/// further levels, none included.
pub open spec fn is_open_ended(filter: Seq<Seq<char>>) -> bool {
    filter.len() > 0 && filter.last() == "#"@
}

/// Whether the levels of a filter accept the levels of a topic name.
pub open spec fn levels_accept(filter: Seq<Seq<char>>, name: Seq<Seq<char>>) -> bool {
    if is_open_ended(filter) {
        &&& name.len() >= filter.len() - 1
        &&& forall|i: int|
            0 <= i < filter.len() - 1 ==> level_accepts(#[trigger] filter[i], name[i])
    } else {
        &&& name.len() == filter.len()
        &&& forall|i: int| 0 <= i < filter.len() ==> level_accepts(#[trigger] filter[i], name[i])
    }
}

/// Whether a filter accepts a topic name.
pub open spec fn accepts(filter: Seq<char>, name: Seq<char>) -> bool {
    levels_accept(split(filter), split(name))
}

/// Whether a filter has a wildcard among its levels.
pub open spec fn has_wildcard(filter: Seq<char>) -> bool {
    ||| is_open_ended(split(filter))
    ||| split(filter).contains("+"@)
}

/// A filter accepts its own text as a topic name: whatever is published on a
/// topic reaches a subscription to that topic.
pub proof fn lemma_filter_accepts_itself(filter: Seq<char>)
    ensures
        accepts(filter, filter),
{
}

/// A filter without a wildcard accepts its own text and no other name.
pub proof fn lemma_filter_without_wildcard(filter: Seq<char>, name: Seq<char>)
    requires
        !has_wildcard(filter),
    ensures
        accepts(filter, name) <==> name == filter,
{
    if accepts(filter, name) {
        let wanted = split(filter);
        assert forall|i: int| 0 <= i < wanted.len() implies #[trigger] wanted[i] == split(
            name,
        )[i] by {
            assert(wanted.contains(wanted[i]));
        }
        assert(split(name) =~= split(filter));
        lemma_join_of_split(name);
        lemma_join_of_split(filter);
    }
}

/// Whether a filter accepts a topic name.
pub fn filter_accepts(filter: &str, name: &str) -> (accepted: bool)
    ensures
        accepted == accepts(filter@, name@),
{
    let wanted = split_levels(filter);
    let given = split_levels(name);
    let any_level = "+".to_owned();
    let any_rest = "#".to_owned();
    let ghost f = split(filter@);
    let ghost n = split(name@);
    proof {
        lemma_join_of_split(filter@);
        assert forall|i: int| 0 <= i < wanted@.len() implies f[i] == (#[trigger] wanted@[i])@ by {
            assert(texts(wanted@)[i] == wanted@[i]@);
        }
        assert forall|i: int| 0 <= i < given@.len() implies n[i] == (#[trigger] given@[i])@ by {
            assert(texts(given@)[i] == given@[i]@);
        }
    }
    let open_ended = wanted[wanted.len() - 1] == any_rest;
    let fixed: usize = if open_ended {
        wanted.len() - 1
    } else {
        wanted.len()
    };
    if given.len() < fixed || (!open_ended && given.len() > fixed) {
        return false;
    }
    for i in 0..fixed
        invariant
            fixed <= wanted@.len() == f.len(),
            fixed <= given@.len() == n.len(),
            any_level@ == "+"@,
            open_ended == is_open_ended(f),
            fixed == if open_ended { f.len() - 1 } else { f.len() as int },
            forall|j: int| 0 <= j < wanted@.len() ==> f[j] == (#[trigger] wanted@[j])@,
            forall|j: int| 0 <= j < given@.len() ==> n[j] == (#[trigger] given@[j])@,
            forall|j: int| 0 <= j < i ==> level_accepts(#[trigger] f[j], n[j]),
            f == split(filter@),
            n == split(name@),
    {
        if wanted[i] != any_level && wanted[i] != given[i] {
            assert(!level_accepts(f[i as int], n[i as int]));
            return false;
        }
    }
    true
}

} // verus!
