//! The sources of request ids, and the list of subscribed topics.
//!
//! The state is owned by the caller and handed to each function: a counter for
//! the request ids, and the topics in the order in which they were added.

use vstd::prelude::*;

verus! {

/// A counter of request ids. Each id it hands out is one above the one before,
/// so no id is handed out twice.
#[derive(Debug)]
pub struct Increment(pub u64);

impl Increment {
    /// A counter that has handed out no id yet.
    pub fn new() -> (r: Self)
        ensures
            r.0 == 0,
    {
        Increment(0)
    }

    /// The next request id.
    pub fn get_request_id(&mut self) -> (id: u64)
        requires
            old(self).0 < u64::MAX,
        ensures
            final(self).0 == old(self).0 + 1,
            id == final(self).0,
    {
        self.0 = self.0 + 1;
        self.0
    }
}

/// Steps the counter `number` and returns its new value.
pub fn increment(number: &mut u64) -> (id: u64)
    requires
        *old(number) < u64::MAX,
    ensures
        *final(number) == *old(number) + 1,
        id == *final(number),
{
    *number = *number + 1;
    *number
}

/// Adds a topic at the end of the list.
pub fn subscribe(topics: &mut Vec<String>, topic: &str)
    ensures
        final(topics).deep_view() == old(topics).deep_view().push(topic@),
{
    topics.push(topic.to_owned());
    assert(topics.deep_view() =~= old(topics).deep_view().push(topic@));
}

/// Removes every occurrence of a topic from the list, and keeps the others in
/// their order.
pub fn unsubscribe(topics: &mut Vec<String>, topic: &str)
    ensures
        final(topics).deep_view() == old(topics).deep_view().filter(|t: Seq<char>| t != topic@),
{
    let ghost keep = |t: Seq<char>| t != topic@;
    let ghost before = topics.deep_view();
    let wanted = topic.to_owned();
    let mut kept: Vec<String> = Vec::new();
    let mut i: usize = 0;
    assert(before.take(0) =~= Seq::empty());
    while i < topics.len()
        invariant
            i <= topics.len(),
            topics.deep_view() == before,
            wanted@ == topic@,
            keep == |t: Seq<char>| t != topic@,
            kept.deep_view() == before.take(i as int).filter(keep),
        decreases topics.len() - i,
    {
        proof {
            assert(before.take(i + 1).drop_last() =~= before.take(i as int));
            assert(before.take(i + 1).last() == topics[i as int]@);
            reveal(Seq::filter);
        }
        let ghost so_far = kept.deep_view();
        if topics[i] != wanted {
            kept.push(topics[i].clone());
            assert(kept.deep_view() =~= so_far.push(topics[i as int]@));
        }
        i += 1;
    }
    assert(before.take(i as int) =~= before);
    *topics = kept;
}

/// Whether the list holds a topic.
pub fn subscription_contains(topics: &Vec<String>, topic: &str) -> (b: bool)
    ensures
        b == topics.deep_view().contains(topic@),
{
    let wanted = topic.to_owned();
    let mut i: usize = 0;
    while i < topics.len()
        invariant
            i <= topics.len(),
            wanted@ == topic@,
            forall|j: int| 0 <= j < i ==> topics[j]@ != topic@,
        decreases topics.len() - i,
    {
        if topics[i] == wanted {
            assert(topics.deep_view()[i as int] == topic@);
            return true;
        }
        i += 1;
    }
    false
}

} // verus!
