//! Whom messages are for, as subscriptions are added.
use crate::filter::accepts;
use crate::requests::Subscription;
use crate::subscriptions::{is_recipient, Subscriptions};
use vstd::prelude::*;

verus! {

/// Before a subscription is added, no message is for any.
pub proof fn lemma_no_recipients(none: Subscriptions, topic_name: &str, places: Vec<usize>)
    requires
        call_ensures(Subscriptions::new, (), none),
        call_ensures(Subscriptions::recipients, (&none, topic_name), places),
    ensures
        places@.len() == 0,
{
    if places@.len() > 0 {
        assert(places@.contains(places@[0]));
        assert(is_recipient(none@, places@[0] as int, topic_name@));
    }
}

/// Once a subscription is added, the messages whose name its filter accepts are
/// for it, and only those; for the others that stand already nothing changes.
/// Each subscription is told once, and in the order in which they were added.
pub proof fn lemma_added_is_told(
    table: &mut Subscriptions,
    added: Subscription,
    place: usize,
    topic_name: &str,
    before: Vec<usize>,
    after: Vec<usize>,
    other: usize,
)
    requires
        call_ensures(Subscriptions::add, (table, added), place),
        call_ensures(Subscriptions::recipients, (&*old(table), topic_name), before),
        call_ensures(Subscriptions::recipients, (&*final(table), topic_name), after),
    ensures
        after@.contains(place) <==> accepts(added.filter@, topic_name@),
        other != place ==> (after@.contains(other) <==> before@.contains(other)),
        before@.contains(other) ==> other < place,
        forall|i: int, j: int| 0 <= i < j < after@.len() ==> after@[i] < after@[j],
{
}

} // verus!
