//! Which topic names a filter accepts, level by level.
use crate::filter::{accepts, filter_accepts, levels_accept};
use crate::requests::{PublicationModel, SubscriptionModel};
use crate::text::{are_levels, join, lemma_split_of_join};
use vstd::prelude::*;

verus! {

/// A filter is read from the left. Nothing accepts only nothing; `#` alone
/// accepts whatever is left of a name; any other filter accepts a name that has
/// a level left where its first level is `+` or that very level, and the rest
/// of it accepts the rest of the name.
pub proof fn lemma_filter_reads_from_the_left(filter: Seq<Seq<char>>, name: Seq<Seq<char>>)
    ensures
        filter.len() == 0 ==> (levels_accept(filter, name) <==> name.len() == 0),
        filter.len() == 1 && filter[0] == "#"@ ==> levels_accept(filter, name),
        filter.len() > 0 && !(filter.len() == 1 && filter[0] == "#"@) ==> (levels_accept(
            filter,
            name,
        ) <==> name.len() > 0 && (filter[0] == "+"@ || filter[0] == name[0]) && levels_accept(
            filter.skip(1),
            name.skip(1),
        )),
{
    if filter.len() > 0 && !(filter.len() == 1 && filter[0] == "#"@) {
        let rest = filter.skip(1);
        let left = name.skip(1);
        if filter.len() > 1 {
            assert(rest.last() == filter.last());
        }
        if levels_accept(filter, name) {
            assert forall|i: int| 0 <= i < rest.len() implies rest[i] == filter[i + 1] by {}
        }
        if name.len() > 0 && (filter[0] == "+"@ || filter[0] == name[0]) && levels_accept(
            rest,
            left,
        ) {
            assert forall|i: int| 1 <= i < filter.len() implies filter[i] == rest[i - 1] by {}
            assert forall|i: int| 1 <= i < name.len() implies name[i] == left[i - 1] by {}
        }
    }
}

/// A filter accepts a name where the levels of the one accept the levels of the
/// other, and that is what is found out about the two texts.
pub proof fn lemma_filter_goes_by_levels(
    filter: Seq<Seq<char>>,
    name: Seq<Seq<char>>,
    filter_text: &str,
    name_text: &str,
    accepted: bool,
)
    requires
        filter.len() > 0,
        name.len() > 0,
        are_levels(filter),
        are_levels(name),
        filter_text@ == join(filter),
        name_text@ == join(name),
        call_ensures(filter_accepts, (filter_text, name_text), accepted),
    ensures
        accepts(join(filter), join(name)) <==> levels_accept(filter, name),
        accepted <==> levels_accept(filter, name),
{
    lemma_split_of_join(filter);
    lemma_split_of_join(name);
}

/// A subscription is for a message exactly where its filter accepts the name of
/// the message: neither the payload nor what the callback is given matters.
pub proof fn lemma_receiving_goes_by_the_name(
    subscribed: SubscriptionModel,
    message: PublicationModel,
)
    ensures
        subscribed.receives(message) <==> accepts(subscribed.filter, message.topic_name),
{
}

} // verus!
