//! Key-value lists and the timezone table built on them.

use vstd::prelude::*;
use crate::text::text_eq;

verus! {

/// A list of key-value pairs, seen as texts.
pub type PairSeq = Seq<(Seq<char>, Seq<char>)>;

/// The view of an optional text.
pub open spec fn text_view(text: Option<String>) -> Option<Seq<char>> {
    match text {
        Some(t) => Some(t@),
        None => None,
    }
}

/// The view of a list of pairs of texts.
pub open spec fn pairs_view(pairs: Seq<(String, String)>) -> PairSeq {
    Seq::new(pairs.len(), |i: int| (pairs[i].0@, pairs[i].1@))
}

/// The value that the last pair with key `key` holds, if there is such a
/// pair: a later pair overrides an earlier one.
pub open spec fn last_value(pairs: PairSeq, key: Seq<char>) -> Option<Seq<char>>
    decreases pairs.len(),
{
    if pairs.len() == 0 {
        None
    } else if pairs.last().0 == key {
        Some(pairs.last().1)
    } else {
        last_value(pairs.drop_last(), key)
    }
}

/// A list holds no value for `key` exactly if none of its pairs has that
/// key.
pub proof fn lemma_last_value_none(pairs: PairSeq, key: Seq<char>)
    ensures
        last_value(pairs, key) is None <==> forall|i: int|
            0 <= i < pairs.len() ==> (#[trigger] pairs[i]).0 != key,
    decreases pairs.len(),
{
    if pairs.len() > 0 {
        let front = pairs.drop_last();
        lemma_last_value_none(front, key);
        if pairs.last().0 != key {
            if last_value(front, key) is None {
                assert forall|i: int| 0 <= i < pairs.len() implies (#[trigger] pairs[i]).0
                    != key by {
                    if i < front.len() {
                        assert(pairs[i] == front[i]);
                    }
                }
            } else {
                let i = choose|i: int| 0 <= i < front.len() && (#[trigger] front[i]).0 == key;
                assert(pairs[i] == front[i]);
            }
        }
    }
}

/// A value that the list holds for `key` stands in one of its pairs.
pub proof fn lemma_last_value_present(pairs: PairSeq, key: Seq<char>)
    requires
        last_value(pairs, key) is Some,
    ensures
        exists|i: int|
            0 <= i < pairs.len() && #[trigger] pairs[i] == (key, last_value(pairs, key).unwrap()),
    decreases pairs.len(),
{
    if pairs.last().0 == key {
        assert(pairs[pairs.len() - 1] == (key, last_value(pairs, key).unwrap()));
    } else {
        lemma_last_value_present(pairs.drop_last(), key);
        let i = choose|i: int|
            0 <= i < pairs.drop_last().len() && #[trigger] pairs.drop_last()[i] == (
                key,
                last_value(pairs.drop_last(), key).unwrap(),
            );
        assert(pairs[i] == pairs.drop_last()[i]);
    }
}

/// Looks `key` up in a list of pairs.
pub fn find_last(pairs: &Vec<(String, String)>, key: &str) -> (found: Option<String>)
    ensures
        text_view(found) == last_value(pairs_view(pairs@), key@),
{
    let ghost all = pairs_view(pairs@);
    let mut i: usize = pairs.len();
    proof {
        assert(all.take(i as int) =~= all);
    }
    while i > 0
        invariant
            i <= pairs@.len(),
            all == pairs_view(pairs@),
            last_value(all, key@) == last_value(all.take(i as int), key@),
        decreases i,
    {
        i = i - 1;
        proof {
            assert(all.take(i + 1).drop_last() =~= all.take(i as int));
            assert(all.take(i + 1).last() == all[i as int]);
        }
        if text_eq(pairs[i].0.as_str(), key) {
            return Some(pairs[i].1.clone());
        }
    }
    None
}

/// The table that maps IANA timezone names to region codes.
#[derive(Debug)]
pub struct TimezoneTable {
    entries: Vec<(String, String)>,
}

impl View for TimezoneTable {
    type V = PairSeq;

    closed spec fn view(&self) -> PairSeq {
        pairs_view(self.entries@)
    }
}

impl TimezoneTable {
    /// The region of the timezone `zone`, if the table knows the zone.
    pub open spec fn region_of(&self, zone: Seq<char>) -> Option<Seq<char>> {
        last_value(self@, zone)
    }

    /// A table that knows no timezone.
    pub fn new() -> (table: Self)
        ensures
            table@ == PairSeq::empty(),
    {
        let table = TimezoneTable { entries: Vec::new() };
        proof {
            assert(table@ =~= PairSeq::empty());
        }
        table
    }

    /// Records that the timezone `zone` lies in `region`, in place of what
    /// the table held for `zone` before.
    pub fn insert(&mut self, zone: String, region: String)
        ensures
            final(self)@ == old(self)@.push((zone@, region@)),
            final(self).region_of(zone@) == Some(region@),
            forall|other: Seq<char>|
                other != zone@ ==> final(self).region_of(other) == old(self).region_of(other),
    {
        let ghost before = self@;
        let ghost pair = (zone@, region@);
        self.entries.push((zone, region));
        proof {
            assert(self@ =~= before.push(pair));
            assert(before.push(pair).drop_last() =~= before);
        }
    }

    /// Looks a timezone up by its exact name.
    pub fn get(&self, zone: &str) -> (region: Option<String>)
        ensures
            text_view(region) == self.region_of(zone@),
    {
        find_last(&self.entries, zone)
    }
}

} // verus!
