//! Audit annotations: an unstructured mapping from text keys to text values,
//! kept in the order in which the keys were first inserted.
use vstd::prelude::*;

verus! {

pub struct AuditAnnotations {
    entries: Vec<(String, String)>,
}

impl View for AuditAnnotations {
    type V = Seq<(Seq<char>, Seq<char>)>;

    closed spec fn view(&self) -> Seq<(Seq<char>, Seq<char>)> {
        self.entries@.map_values(|e: (String, String)| (e.0@, e.1@))
    }
}

/// No key occurs twice.
pub open spec fn keys_distinct(e: Seq<(Seq<char>, Seq<char>)>) -> bool {
    forall|i: int, j: int| 0 <= i < j < e.len() ==> e[i].0 != e[j].0
}

/// The position of `key` among the entries, if it is there.
pub open spec fn key_position(e: Seq<(Seq<char>, Seq<char>)>, key: Seq<char>) -> Option<int> {
    if exists|i: int| 0 <= i < e.len() && e[i].0 == key {
        Some(choose|i: int| 0 <= i < e.len() && e[i].0 == key)
    } else {
        None
    }
}

impl AuditAnnotations {
    pub open spec fn wf(&self) -> bool {
        keys_distinct(self@)
    }

    /// An empty mapping.
    pub fn new() -> (r: AuditAnnotations)
        ensures
            r.wf(),
            r@ == Seq::<(Seq<char>, Seq<char>)>::empty(),
    {
        let r = AuditAnnotations { entries: Vec::new() };
        assert(r@ =~= Seq::<(Seq<char>, Seq<char>)>::empty());
        r
    }

    /// Number of keys.
    pub fn len(&self) -> (r: usize)
        ensures
            r == self@.len(),
    {
        self.entries.len()
    }

    /// The key and value at position `i`.
    pub fn entry(&self, i: usize) -> (r: (&String, &String))
        requires
            i < self@.len(),
        ensures
            r.0@ == self@[i as int].0,
            r.1@ == self@[i as int].1,
    {
        let e = &self.entries[i];
        (&e.0, &e.1)
    }

    /// Sets `key` to `value`: an existing key keeps its position and takes
    /// the new value; a new key goes after all others.
    pub fn insert(&mut self, key: String, value: String)
        requires
            old(self).wf(),
        ensures
            final(self).wf(),
            key_position(old(self)@, key@) matches Some(i) ==> final(self)@ == old(self)@.update(
                i,
                (key@, value@),
            ),
            key_position(old(self)@, key@) is None ==> final(self)@ == old(self)@.push(
                (key@, value@),
            ),
    {
        let n = self.entries.len();
        let mut i: usize = 0;
        while i < n
            invariant
                n == self@.len(),
                i <= n,
                self.wf(),
                self@ == old(self)@,
                forall|j: int| 0 <= j < i ==> self@[j].0 != key@,
            decreases n - i,
        {
            if self.entries[i].0 == key {
                assert(self@[i as int].0 == key@);
                proof {
                    let p = key_position(self@, key@);
                    assert(p == Some(i as int));
                }
                self.entries.set(i, (key, value));
                assert(self@ =~= old(self)@.update(i as int, (key@, value@)));
                return;
            }
            i = i + 1;
        }
        assert(key_position(old(self)@, key@) is None);
        self.entries.push((key, value));
        assert(self@ =~= old(self)@.push((key@, value@)));
    }
}

} // verus!
