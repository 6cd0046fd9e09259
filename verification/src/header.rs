use vstd::prelude::*;

verus! {

/// An ordered multimap of header names to values, carried verbatim on
/// published and delivered messages.  Entries keep their insertion order;
/// a name may appear more than once.
#[derive(Debug)]
pub struct HeaderMap {
    entries: Vec<(String, String)>,
}

impl Clone for HeaderMap {
    /// The clone carries exactly the same entries in the same order.
    fn clone(&self) -> (c: Self)
        ensures
            c@ == self@,
    {
        let mut entries: Vec<(String, String)> = Vec::new();
        let mut i: usize = 0;
        while i < self.entries.len()
            invariant
                0 <= i <= self.entries.len(),
                entries@.len() == i,
                forall|j: int| 0 <= j < i ==> (entries@[j].0@, entries@[j].1@) == self@[j],
            decreases self.entries.len() - i,
        {
            proof {
                assert(self@[i as int] == (self.entries@[i as int].0@, self.entries@[i as int].1@));
            }
            let name = self.entries[i].0.clone();
            let value = self.entries[i].1.clone();
            entries.push((name, value));
            i = i + 1;
        }
        let c = HeaderMap { entries };
        proof {
            assert forall|j: int| 0 <= j < c@.len() implies c@[j] == self@[j] by {
                assert(c@[j] == (entries@[j].0@, entries@[j].1@));
            }
            assert(c@ =~= self@);
        }
        c
    }
}

impl HeaderMap {
    /// The entries as a sequence of (name, value) character sequences, in
    /// insertion order.
    pub closed spec fn view(self) -> Seq<(Seq<char>, Seq<char>)> {
        self.entries@.map_values(|e: (String, String)| (e.0@, e.1@))
    }

    pub fn new() -> (h: HeaderMap)
        ensures
            h@ == Seq::<(Seq<char>, Seq<char>)>::empty(),
    {
        let h = HeaderMap { entries: Vec::new() };
        proof {
            assert(h@ =~= Seq::<(Seq<char>, Seq<char>)>::empty());
        }
        h
    }

    /// Append one (name, value) entry, keeping every existing entry.
    pub fn insert(&mut self, name: String, value: String)
        ensures
            final(self)@ == old(self)@.push((name@, value@)),
    {
        let ghost before = self@;
        self.entries.push((name, value));
        proof {
            assert(self@ =~= before.push((name@, value@)));
        }
    }

    pub fn len(&self) -> (n: usize)
        ensures
            n == self@.len(),
    {
        self.entries.len()
    }

    pub fn is_empty(&self) -> (b: bool)
        ensures
            b == (self@.len() == 0),
    {
        self.entries.len() == 0
    }

    /// The value of the first entry whose name equals `name`, if any.
    pub fn get(&self, name: &String) -> (r: Option<&String>)
        ensures
            match r {
                Some(v) => exists|i: int|
                    0 <= i < self@.len() && self@[i].0 == name@ && self@[i].1 == v@
                        && forall|j: int| 0 <= j < i ==> self@[j].0 != name@,
                None => forall|i: int| 0 <= i < self@.len() ==> self@[i].0 != name@,
            },
    {
        let mut i: usize = 0;
        while i < self.entries.len()
            invariant
                0 <= i <= self.entries.len(),
                forall|j: int| 0 <= j < i ==> self@[j].0 != name@,
            decreases self.entries.len() - i,
        {
            proof {
                assert(self@[i as int] == (self.entries@[i as int].0@, self.entries@[i as int].1@));
            }
            if self.entries[i].0.eq(name) {
                let v = &self.entries[i].1;
                proof {
                    assert(self@[i as int].0 == name@ && self@[i as int].1 == v@);
                }
                return Some(v);
            }
            i = i + 1;
        }
        None
    }
}

} // verus!
