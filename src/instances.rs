use vstd::prelude::*;

verus! {

/// The running instances of a multi-instance workload, keyed by tag: each tag
/// has at most one instance id.
#[derive(Clone, Debug, PartialEq, Eq)]
pub struct Instances {
    entries: Vec<(String, String)>,
}

pub open spec fn has_tag(s: Seq<(String, String)>, k: Seq<char>) -> bool {
    exists|i: int| 0 <= i < s.len() && #[trigger] s[i].0@ == k
}

pub open spec fn tag_index(s: Seq<(String, String)>, k: Seq<char>) -> int {
    choose|i: int| 0 <= i < s.len() && #[trigger] s[i].0@ == k
}

pub open spec fn tags_unique(s: Seq<(String, String)>) -> bool {
    forall|i: int, j: int|
        0 <= i < s.len() && 0 <= j < s.len() && #[trigger] s[i].0@ == #[trigger] s[j].0@ ==> i
            == j
}

pub open spec fn entries_map(s: Seq<(String, String)>) -> Map<Seq<char>, Seq<char>> {
    Map::new(|k: Seq<char>| has_tag(s, k), |k: Seq<char>| s[tag_index(s, k)].1@)
}

/// With unique tags, the entry found for a tag is the one at `i`.
proof fn lemma_index_is(s: Seq<(String, String)>, i: int)
    requires
        tags_unique(s),
        0 <= i < s.len(),
    ensures
        has_tag(s, s[i].0@),
        tag_index(s, s[i].0@) == i,
{
    let k = s[i].0@;
    assert(s[i].0@ == k);
    let j = tag_index(s, k);
    assert(s[j].0@ == k);
}

impl View for Instances {
    type V = Map<Seq<char>, Seq<char>>;

    closed spec fn view(&self) -> Map<Seq<char>, Seq<char>> {
        entries_map(self.entries@)
    }
}

impl Instances {
    pub closed spec fn wf(&self) -> bool {
        tags_unique(self.entries@)
    }

    pub fn new() -> (r: Instances)
        ensures
            r.wf(),
            r@ == Map::<Seq<char>, Seq<char>>::empty(),
    {
        let r = Instances { entries: Vec::new() };
        assert(r@ =~= Map::<Seq<char>, Seq<char>>::empty());
        r
    }

    fn find(&self, tag: &String) -> (r: Option<usize>)
        ensures
            match r {
                Some(i) => i < self.entries@.len() && self.entries@[i as int].0@ == tag@,
                None => !has_tag(self.entries@, tag@),
            },
    {
        let mut i: usize = 0;
        while i < self.entries.len()
            invariant
                i <= self.entries@.len(),
                forall|j: int| 0 <= j < i ==> self.entries@[j].0@ != tag@,
            decreases self.entries@.len() - i,
        {
            if self.entries[i].0 == *tag {
                return Some(i);
            }
            i = i + 1;
        }
        None
    }

    /// Whether `tag` has a running instance.
    pub fn contains(&self, tag: &String) -> (r: bool)
        requires
            self.wf(),
        ensures
            r == self@.contains_key(tag@),
    {
        self.find(tag).is_some()
    }

    /// Starts (or re-targets) the instance of `tag`: the tag maps to `id`
    /// afterwards, whatever it mapped to before.
    pub fn set(&mut self, tag: String, id: String)
        requires
            old(self).wf(),
        ensures
            final(self).wf(),
            final(self)@ == old(self)@.insert(tag@, id@),
    {
        let ghost s0 = self.entries@;
        let ghost k = tag@;
        let ghost v = id@;
        match self.find(&tag) {
            Some(i) => {
                self.entries.set(i, (tag, id));
                let ghost s1 = self.entries@;
                assert(tags_unique(s1)) by {
                    assert forall|a: int, b: int|
                        0 <= a < s1.len() && 0 <= b < s1.len() && #[trigger] s1[a].0@
                            == #[trigger] s1[b].0@ implies a == b by {
                        assert(s0[a].0@ == s1[a].0@);
                        assert(s0[b].0@ == s1[b].0@);
                    }
                }
                assert forall|q: Seq<char>| #[trigger] has_tag(s1, q) == has_tag(s0, q) by {
                    if has_tag(s1, q) {
                        let j = choose|j: int| 0 <= j < s1.len() && #[trigger] s1[j].0@ == q;
                        assert(s0[j].0@ == q);
                    }
                    if has_tag(s0, q) {
                        let j = choose|j: int| 0 <= j < s0.len() && #[trigger] s0[j].0@ == q;
                        assert(s1[j].0@ == q);
                    }
                }
                assert forall|q: Seq<char>| has_tag(s1, q) implies #[trigger] s1[tag_index(
                    s1,
                    q,
                )].1@ == if q == k {
                    v
                } else {
                    s0[tag_index(s0, q)].1@
                } by {
                    let j = tag_index(s1, q);
                    lemma_index_is(s1, j);
                    if q != k {
                        lemma_index_is(s0, j);
                    }
                }
                assert(self@ =~= old(self)@.insert(k, v));
            },
            None => {
                self.entries.push((tag, id));
                let ghost s1 = self.entries@;
                let ghost n = s0.len() as int;
                assert(tags_unique(s1)) by {
                    assert forall|a: int, b: int|
                        0 <= a < s1.len() && 0 <= b < s1.len() && #[trigger] s1[a].0@
                            == #[trigger] s1[b].0@ implies a == b by {
                        if a < n && b < n {
                            assert(s0[a].0@ == s1[a].0@);
                            assert(s0[b].0@ == s1[b].0@);
                        } else if a < n {
                            assert(s0[a].0@ == k);
                        } else if b < n {
                            assert(s0[b].0@ == k);
                        }
                    }
                }
                assert forall|q: Seq<char>| #[trigger] has_tag(s1, q) == (has_tag(s0, q) || q
                    == k) by {
                    if has_tag(s1, q) {
                        let j = choose|j: int| 0 <= j < s1.len() && #[trigger] s1[j].0@ == q;
                        if j < n {
                            assert(s0[j].0@ == q);
                        }
                    }
                    if has_tag(s0, q) {
                        let j = choose|j: int| 0 <= j < s0.len() && #[trigger] s0[j].0@ == q;
                        assert(s1[j].0@ == q);
                    }
                    if q == k {
                        assert(s1[n].0@ == q);
                    }
                }
                assert forall|q: Seq<char>| has_tag(s1, q) implies #[trigger] s1[tag_index(
                    s1,
                    q,
                )].1@ == if q == k {
                    v
                } else {
                    s0[tag_index(s0, q)].1@
                } by {
                    let j = tag_index(s1, q);
                    lemma_index_is(s1, j);
                    if q != k {
                        lemma_index_is(s0, j);
                    }
                }
                assert(self@ =~= old(self)@.insert(k, v));
            },
        }
    }

    /// Stops the instance of `tag`, if it has one; otherwise nothing changes.
    pub fn remove(&mut self, tag: &String)
        requires
            old(self).wf(),
        ensures
            final(self).wf(),
            final(self)@ == old(self)@.remove(tag@),
    {
        let ghost s0 = self.entries@;
        let ghost k = tag@;
        match self.find(tag) {
            Some(i) => {
                self.entries.remove(i);
                let ghost s1 = self.entries@;
                let ghost ii = i as int;
                assert forall|j: int| 0 <= j < s1.len() implies #[trigger] s1[j] == if j < ii {
                    s0[j]
                } else {
                    s0[j + 1]
                } by {}
                assert(tags_unique(s1)) by {
                    assert forall|a: int, b: int|
                        0 <= a < s1.len() && 0 <= b < s1.len() && #[trigger] s1[a].0@
                            == #[trigger] s1[b].0@ implies a == b by {
                        let a0 = if a < ii {
                            a
                        } else {
                            a + 1
                        };
                        let b0 = if b < ii {
                            b
                        } else {
                            b + 1
                        };
                        assert(s0[a0].0@ == s0[b0].0@);
                    }
                }
                assert forall|q: Seq<char>| #[trigger] has_tag(s1, q) == (has_tag(s0, q) && q
                    != k) by {
                    if has_tag(s1, q) {
                        let j = choose|j: int| 0 <= j < s1.len() && #[trigger] s1[j].0@ == q;
                        let j0 = if j < ii {
                            j
                        } else {
                            j + 1
                        };
                        assert(s0[j0].0@ == q);
                        if q == k {
                            assert(s0[ii].0@ == k);
                        }
                    }
                    if has_tag(s0, q) && q != k {
                        let j = choose|j: int| 0 <= j < s0.len() && #[trigger] s0[j].0@ == q;
                        if j < ii {
                            assert(s1[j].0@ == q);
                        } else {
                            assert(j != ii);
                            assert(s1[j - 1].0@ == q);
                        }
                    }
                }
                assert forall|q: Seq<char>| has_tag(s1, q) implies #[trigger] s1[tag_index(
                    s1,
                    q,
                )].1@ == s0[tag_index(s0, q)].1@ by {
                    let j = tag_index(s1, q);
                    lemma_index_is(s1, j);
                    let j0 = if j < ii {
                        j
                    } else {
                        j + 1
                    };
                    lemma_index_is(s0, j0);
                }
                assert(self@ =~= old(self)@.remove(k));
            },
            None => {
                assert(self@ =~= old(self)@.remove(k));
            },
        }
    }

    /// A copy holding the same instances.
    pub fn copy(&self) -> (r: Instances)
        requires
            self.wf(),
        ensures
            r.wf(),
            r@ == self@,
    {
        let mut entries: Vec<(String, String)> = Vec::new();
        let mut i: usize = 0;
        while i < self.entries.len()
            invariant
                i <= self.entries@.len(),
                entries@ == self.entries@.take(i as int),
            decreases self.entries@.len() - i,
        {
            let e = (self.entries[i].0.clone(), self.entries[i].1.clone());
            entries.push(e);
            i = i + 1;
            proof {
                assert(entries@ =~= self.entries@.take(i as int));
            }
        }
        proof {
            assert(entries@ =~= self.entries@);
        }
        Instances { entries }
    }

    /// Stops every instance.
    pub fn clear(&mut self)
        ensures
            final(self).wf(),
            final(self)@ == Map::<Seq<char>, Seq<char>>::empty(),
    {
        self.entries.clear();
        assert(self@ =~= Map::<Seq<char>, Seq<char>>::empty());
    }
}

} // verus!
