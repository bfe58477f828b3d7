//! The alphabet of canonical messages: each distinct message gets the next
//! id, in first-seen order, and keeps it for the whole run.
use vstd::prelude::*;

verus! {

/// The texts by id, and how often each id was seen.
pub struct InternerView {
    pub texts: Seq<Seq<char>>,
    pub counts: Seq<nat>,
}

/// No text occurs twice.
pub open spec fn distinct_texts(t: Seq<Seq<char>>) -> bool {
    forall|i: int, j: int| 0 <= i < j < t.len() ==> t[i] != t[j]
}

/// A count increased by one, held at the largest `u64`.
pub open spec fn bump(c: nat) -> nat {
    if c < u64::MAX {
        c + 1
    } else {
        c
    }
}

/// The interner after `m` was seen, and the id of `m`.
pub open spec fn intern_spec(v: InternerView, m: Seq<char>) -> (InternerView, nat) {
    if v.texts.contains(m) {
        let id = choose|i: int| 0 <= i < v.texts.len() && v.texts[i] == m;
        (InternerView { texts: v.texts, counts: v.counts.update(id, bump(v.counts[id])) }, id as nat)
    } else {
        let id = v.texts.len();
        (InternerView { texts: v.texts.push(m), counts: v.counts.push(1) }, id)
    }
}

/// The table from canonical message to id.
pub struct EventInterner {
    texts: Vec<String>,
    counts: Vec<u64>,
}

impl View for EventInterner {
    type V = InternerView;

    closed spec fn view(&self) -> InternerView {
        InternerView {
            texts: self.texts@.map_values(|s: String| s@),
            counts: self.counts@.map_values(|c: u64| c as nat),
        }
    }
}

impl EventInterner {
    /// The table is consistent: one count per text, no text twice.
    pub open spec fn wf(&self) -> bool {
        &&& self@.texts.len() == self@.counts.len()
        &&& distinct_texts(self@.texts)
        &&& forall|i: int| 0 <= i < self@.counts.len() ==> #[trigger] self@.counts[i] <= u64::MAX
    }

    /// An empty table.
    pub fn new() -> (r: EventInterner)
        ensures
            r.wf(),
            r@.texts.len() == 0,
            r@.counts.len() == 0,
    {
        let r = EventInterner { texts: Vec::new(), counts: Vec::new() };
        assert(r@.texts =~= Seq::empty());
        assert(r@.counts =~= Seq::empty());
        r
    }

    /// The number of ids given out.
    pub fn len(&self) -> (r: usize)
        ensures
            r == self@.texts.len(),
    {
        self.texts.len()
    }

    /// The texts, by id.
    pub fn texts(&self) -> (r: &Vec<String>)
        ensures
            r@.map_values(|s: String| s@) == self@.texts,
    {
        &self.texts
    }

    /// The text of `id`.
    pub fn text(&self, id: usize) -> (r: &String)
        requires
            id < self@.texts.len(),
        ensures
            r@ == self@.texts[id as int],
    {
        &self.texts[id]
    }

    /// How often `id` was seen.
    pub fn count(&self, id: usize) -> (r: u64)
        requires
            self.wf(),
            id < self@.texts.len(),
        ensures
            r == self@.counts[id as int],
    {
        self.counts[id]
    }

    /// The id of `m`: its old id when it was seen before, else the next id,
    /// appended. Its count goes up by one either way.
    pub fn intern(&mut self, m: &String) -> (id: usize)
        requires
            old(self).wf(),
        ensures
            final(self).wf(),
            (final(self)@, id as nat) == intern_spec(old(self)@, m@),
            final(self)@.texts[id as int] == m@,
            old(self)@.texts.len() <= final(self)@.texts.len() <= old(self)@.texts.len() + 1,
            final(self)@.texts.subrange(0, old(self)@.texts.len() as int) == old(self)@.texts,
    {
        let ghost v = self@;
        assert(self.counts@.len() == v.counts.len());
        let mut i: usize = 0;
        while i < self.texts.len()
            invariant
                i <= self.texts@.len(),
                self@ == v,
                v == old(self)@,
                old(self).wf(),
                self.counts@.len() == self.texts@.len(),
                forall|k: int| 0 <= k < i ==> v.texts[k] != m@,
            decreases self.texts@.len() - i,
        {
            assert(v.texts[i as int] == self.texts@[i as int]@);
            if self.texts[i] == *m {
                let c = self.counts[i];
                let n = if c < u64::MAX {
                    c + 1
                } else {
                    c
                };
                self.counts.set(i, n);
                proof {
                    assert(v.texts[i as int] == self.texts@[i as int]@);
                    assert(v.texts.contains(m@));
                    let j = choose|j: int| 0 <= j < v.texts.len() && v.texts[j] == m@;
                    assert(j == i as int);
                    assert(self@.counts =~= v.counts.update(i as int, bump(v.counts[i as int])));
                    assert(self@.texts =~= v.texts);
                    assert(v.texts.subrange(0, v.texts.len() as int) =~= v.texts);
                }
                return i;
            }
            i = i + 1;
        }
        let id = self.texts.len();
        self.texts.push(m.clone());
        self.counts.push(1);
        proof {
            assert(!v.texts.contains(m@));
            assert(self@.texts =~= v.texts.push(m@));
            assert(self@.counts =~= v.counts.push(1));
            assert(self@.texts.subrange(0, v.texts.len() as int) =~= v.texts);
        }
        id
    }
}

} // verus!
