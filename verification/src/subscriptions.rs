//! The subscriptions that are in force.
use crate::filter::{accepts, filter_accepts};
use crate::requests::{Subscription, SubscriptionModel};
use vstd::prelude::*;

verus! {

/// The subscriptions that are in force, in the order in which they were added.
#[derive(Debug)]
pub struct Subscriptions {
    entries: Vec<Subscription>,
}

impl View for Subscriptions {
    type V = Seq<SubscriptionModel>;

    closed spec fn view(&self) -> Seq<SubscriptionModel> {
        self.entries@.map_values(|s: Subscription| s@)
    }
}

/// Whether the subscription at a place of a table is for the messages on a
/// topic name.
pub open spec fn is_recipient(
    table: Seq<SubscriptionModel>,
    place: int,
    topic_name: Seq<char>,
) -> bool {
    0 <= place < table.len() && accepts(table[place].filter, topic_name)
}

/// Adding a subscription changes nothing for those that stand already: a
/// message is for the ones it was for, and for the new one where that accepts
/// it.
pub proof fn lemma_adding_keeps_recipients(
    table: Seq<SubscriptionModel>,
    added: SubscriptionModel,
    place: int,
    topic_name: Seq<char>,
)
    ensures
        is_recipient(table.push(added), place, topic_name) <==> is_recipient(
            table,
            place,
            topic_name,
        ) || (place == table.len() && accepts(added.filter, topic_name)),
{
}

impl Subscriptions {
    /// No subscription yet.
    pub fn new() -> (none: Subscriptions)
        ensures
            none@ == Seq::<SubscriptionModel>::empty(),
    {
        let none = Subscriptions { entries: Vec::new() };
        assert(none@ =~= Seq::empty());
        none
    }

    /// Adds a subscription, and tells the place at which it stands.
    pub fn add(&mut self, subscription: Subscription) -> (place: usize)
        ensures
            place == old(self)@.len(),
            final(self)@ == old(self)@.push(subscription@),
    {
        let place = self.entries.len();
        self.entries.push(subscription);
        assert(self@ =~= old(self)@.push(subscription@));
        place
    }

    /// The places of the subscriptions that a message on a topic name is for,
    /// in their order.
    pub fn recipients(&self, topic_name: &str) -> (places: Vec<usize>)
        ensures
            forall|i: int, j: int| 0 <= i < j < places@.len() ==> places@[i] < places@[j],
            forall|p: usize| #[trigger]
                places@.contains(p) <==> is_recipient(self@, p as int, topic_name@),
    {
        let mut places: Vec<usize> = Vec::new();
        for p in 0..self.entries.len()
            invariant
                self@.len() == self.entries@.len(),
                forall|k: int| 0 <= k < self@.len() ==> #[trigger] self@[k] == self.entries@[k]@,
                forall|i: int| 0 <= i < places@.len() ==> places@[i] < p,
                forall|i: int, j: int| 0 <= i < j < places@.len() ==> places@[i] < places@[j],
                forall|q: usize| #[trigger]
                    places@.contains(q) <==> q < p && is_recipient(self@, q as int, topic_name@),
        {
            let ghost before = places@;
            assert(self@[p as int] == self.entries@[p as int]@);
            if filter_accepts(self.entries[p].filter.as_str(), topic_name) {
                places.push(p);
                assert(places@.last() == p);
                assert forall|q: usize| #[trigger]
                    places@.contains(q) <==> q < p + 1 && is_recipient(
                    self@,
                    q as int,
                    topic_name@,
                ) by {
                    if before.contains(q) {
                        let i = choose|i: int| 0 <= i < before.len() && before[i] == q;
                        assert(places@[i] == q);
                    }
                    if places@.contains(q) && q != p {
                        let i = choose|i: int| 0 <= i < places@.len() && places@[i] == q;
                        assert(before[i] == q);
                    }
                    if q == p {
                        assert(places@[before.len() as int] == q);
                    }
                }
            }
        }
        places
    }
}

} // verus!
