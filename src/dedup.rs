//! Duplicate suppression: the message identifiers delivered in the current
//! epoch. The whole set is cleared at each cleanup, not entry by entry.
use vstd::prelude::*;

use crate::ntfy::{opt_view, NtfyMessage};
use crate::text::{same_chars, views};

verus! {

/// The identifiers delivered since the last cleanup.
#[derive(Debug)]
pub struct SeenIds {
    ids: Vec<String>,
}

impl View for SeenIds {
    type V = Set<Seq<char>>;

    closed spec fn view(&self) -> Set<Seq<char>> {
        views(self.ids@).to_set()
    }
}

/// The identifier of a message that has one.
pub open spec fn key(m: NtfyMessage) -> Seq<char> {
    m.id->0@
}

/// The messages of `batch` delivered, in order, when `seen` holds the
/// identifiers delivered before, and the identifiers seen afterwards: a
/// message is delivered when it has an identifier not seen yet.
pub open spec fn admitted(seen: Set<Seq<char>>, batch: Seq<NtfyMessage>) -> (Seq<NtfyMessage>, Set<Seq<char>>)
    decreases batch.len(),
{
    if batch.len() == 0 {
        (Seq::empty(), seen)
    } else {
        let before = admitted(seen, batch.drop_last());
        let m = batch.last();
        match opt_view(m.id) {
            Some(id) => if before.1.contains(id) {
                before
            } else {
                (before.0.push(m), before.1.insert(id))
            },
            None => before,
        }
    }
}

/// Every message delivered from a batch has an identifier, none of them was
/// seen before, no two delivered messages share one, and all of them are
/// seen afterwards, as is everything seen before.
pub proof fn lemma_admitted_are_new(seen: Set<Seq<char>>, batch: Seq<NtfyMessage>)
    ensures
        ({
            let (d, s) = admitted(seen, batch);
            &&& seen.subset_of(s)
            &&& forall|i: int| 0 <= i < d.len() ==> (#[trigger] d[i]).id is Some
            &&& forall|i: int| 0 <= i < d.len() ==> !seen.contains(key(#[trigger] d[i]))
            &&& forall|i: int| 0 <= i < d.len() ==> s.contains(key(#[trigger] d[i]))
            &&& forall|i: int, j: int| 0 <= i < j < d.len() ==> key(#[trigger] d[i]) != key(#[trigger] d[j])
        }),
    decreases batch.len(),
{
    if batch.len() > 0 {
        lemma_admitted_are_new(seen, batch.drop_last());
        let before = admitted(seen, batch.drop_last());
        let m = batch.last();
        if m.id is Some && !before.1.contains(key(m)) {
            let d = before.0.push(m);
            assert forall|i: int| 0 <= i < d.len() implies !seen.contains(key(#[trigger] d[i])) by {
                if i < before.0.len() {
                    assert(d[i] == before.0[i]);
                }
            }
            assert forall|i: int, j: int| 0 <= i < j < d.len() implies key(#[trigger] d[i]) != key(
                #[trigger] d[j],
            ) by {
                assert(d[i] == before.0[i]);
                if j < before.0.len() {
                    assert(d[j] == before.0[j]);
                }
            }
        }
    }
}

/// Within an epoch nothing is delivered twice: no message delivered from a
/// later batch carries the identifier of a message delivered from an earlier
/// one.
pub proof fn lemma_no_redelivery(seen: Set<Seq<char>>, first: Seq<NtfyMessage>, second: Seq<NtfyMessage>)
    ensures
        ({
            let (d1, s1) = admitted(seen, first);
            let (d2, s2) = admitted(s1, second);
            forall|i: int, j: int| 0 <= i < d1.len() && 0 <= j < d2.len() ==> key(#[trigger] d1[i])
                != key(#[trigger] d2[j])
        }),
{
    lemma_admitted_are_new(seen, first);
    let (d1, s1) = admitted(seen, first);
    lemma_admitted_are_new(s1, second);
}

/// A message without an identifier is never delivered.
pub proof fn lemma_without_id_never_delivered(seen: Set<Seq<char>>, batch: Seq<NtfyMessage>, m: NtfyMessage)
    requires
        m.id is None,
    ensures
        !admitted(seen, batch).0.contains(m),
{
    lemma_admitted_are_new(seen, batch);
}

impl SeenIds {
    /// No identifier seen.
    pub fn new() -> (r: Self)
        ensures
            r@ == Set::<Seq<char>>::empty(),
    {
        let r = SeenIds { ids: Vec::new() };
        assert(r@ =~= Set::<Seq<char>>::empty());
        r
    }

    /// Whether `id` was seen.
    pub fn contains(&self, id: &str) -> (r: bool)
        ensures
            r == self@.contains(id@),
    {
        let mut i: usize = 0;
        while i < self.ids.len()
            invariant
                i <= self.ids@.len(),
                forall|k: int| 0 <= k < i ==> self.ids@[k]@ != id@,
            decreases self.ids@.len() - i,
        {
            if same_chars(self.ids[i].as_str(), id) {
                assert(views(self.ids@)[i as int] == id@);
                return true;
            }
            i += 1;
        }
        assert(!views(self.ids@).contains(id@)) by {
            if views(self.ids@).contains(id@) {
                let k = choose|k: int| 0 <= k < views(self.ids@).len() && views(self.ids@)[k] == id@;
                assert(self.ids@[k]@ == id@);
            }
        }
        false
    }

    /// Records `id` as seen.
    pub fn insert(&mut self, id: String)
        ensures
            final(self)@ == old(self)@.insert(id@),
    {
        let ghost before = views(self.ids@);
        self.ids.push(id);
        proof {
            let now = views(self.ids@);
            assert(now =~= before.push(id@));
            assert(now.to_set() =~= before.to_set().insert(id@)) by {
                assert forall|x: Seq<char>| now.contains(x) <==> before.contains(x) || x == id@ by {
                    if before.contains(x) {
                        let k = choose|k: int| 0 <= k < before.len() && before[k] == x;
                        assert(now[k] == x);
                    }
                    if now.contains(x) && x != id@ {
                        let k = choose|k: int| 0 <= k < now.len() && now[k] == x;
                        assert(before[k] == x);
                    }
                    if x == id@ {
                        assert(now[before.len() as int] == x);
                    }
                }
            }
        }
    }

    /// Forgets every identifier: a new epoch begins.
    pub fn clear(&mut self)
        ensures
            final(self)@ == Set::<Seq<char>>::empty(),
    {
        self.ids = Vec::new();
        assert(self@ =~= Set::<Seq<char>>::empty());
    }

    /// The messages of `batch` to deliver, in order: each with an identifier
    /// not seen yet, which is then recorded.
    pub fn admit_batch(&mut self, batch: Vec<NtfyMessage>) -> (r: Vec<NtfyMessage>)
        ensures
            (r@, final(self)@) == admitted(old(self)@, batch@),
    {
        let ghost all = batch@;
        let ghost start = self@;
        let mut r: Vec<NtfyMessage> = Vec::new();
        assert(all.take(0) =~= Seq::<NtfyMessage>::empty());
        for m in it: batch.into_iter()
            invariant
                it.seq() == all,
                (r@, self@) == admitted(start, all.take(it.index() as int)),
        {
            let ghost k = it.index();
            proof {
                assert(all.take(k + 1).drop_last() == all.take(k as int));
                assert(all.take(k + 1).last() == m);
            }
            let fresh = match &m.id {
                Some(id) => !self.contains(id.as_str()),
                None => false,
            };
            if fresh {
                match &m.id {
                    Some(id) => self.insert(id.clone()),
                    None => {},
                }
                r.push(m);
            }
        }
        assert(all.take(all.len() as int) == all);
        r
    }
}

} // verus!
