use vstd::prelude::*;
use crate::text::{push_all, same_text};

verus! {

/// The map that a list of (name, value) entries stands for: a later entry
/// takes the place of an earlier one with the same name.
pub open spec fn entries_map(s: Seq<(Seq<char>, Seq<char>)>) -> Map<Seq<char>, Seq<char>>
    decreases s.len(),
{
    if s.len() == 0 {
        Map::empty()
    } else {
        entries_map(s.drop_last()).insert(s.last().0, s.last().1)
    }
}

/// No two entries share a name.
pub open spec fn names_distinct(s: Seq<(Seq<char>, Seq<char>)>) -> bool {
    forall|i: int, j: int| 0 <= i < j < s.len() ==> s[i].0 != s[j].0
}

proof fn lemma_entry_found(s: Seq<(Seq<char>, Seq<char>)>, i: int)
    requires
        names_distinct(s),
        0 <= i < s.len(),
    ensures
        entries_map(s).contains_key(s[i].0),
        entries_map(s)[s[i].0] == s[i].1,
    decreases s.len(),
{
    if i < s.len() - 1 {
        lemma_entry_found(s.drop_last(), i);
    }
}

proof fn lemma_entry_absent(s: Seq<(Seq<char>, Seq<char>)>, k: Seq<char>)
    requires
        forall|i: int| 0 <= i < s.len() ==> s[i].0 != k,
    ensures
        !entries_map(s).contains_key(k),
    decreases s.len(),
{
    if s.len() > 0 {
        lemma_entry_absent(s.drop_last(), k);
    }
}

proof fn lemma_entry_replaced(s: Seq<(Seq<char>, Seq<char>)>, i: int, v: Seq<char>)
    requires
        names_distinct(s),
        0 <= i < s.len(),
    ensures
        entries_map(s.update(i, (s[i].0, v))) == entries_map(s).insert(s[i].0, v),
    decreases s.len(),
{
    let t = s.update(i, (s[i].0, v));
    if i == s.len() - 1 {
        assert(t.drop_last() =~= s.drop_last());
        assert(entries_map(t) =~= entries_map(s).insert(s[i].0, v));
    } else {
        lemma_entry_replaced(s.drop_last(), i, v);
        assert(t.drop_last() =~= s.drop_last().update(i, (s[i].0, v)));
        assert(entries_map(t) =~= entries_map(s).insert(s[i].0, v));
    }
}

/// A table from names to values, such as the script-defined commands: one
/// value per name.
pub struct Table {
    entries: Vec<(Vec<char>, Vec<char>)>,
}

impl Table {
    /// The entries, each name and value taken as a sequence of characters.
    pub closed spec fn entry_views(&self) -> Seq<(Seq<char>, Seq<char>)> {
        self.entries@.map_values(|p: (Vec<char>, Vec<char>)| (p.0@, p.1@))
    }

    /// The table's invariant: no name occurs twice.
    pub closed spec fn wf(&self) -> bool {
        names_distinct(self.entry_views())
    }

    /// An empty table.
    pub fn new() -> (t: Table)
        ensures
            t.wf(),
            t@ == Map::<Seq<char>, Seq<char>>::empty(),
    {
        let t = Table { entries: Vec::new() };
        assert(t.entry_views() =~= Seq::empty());
        t
    }

    /// Whether the table holds no name.
    pub fn is_empty(&self) -> (r: bool)
        requires
            self.wf(),
        ensures
            r == (self@ == Map::<Seq<char>, Seq<char>>::empty()),
    {
        let r = self.entries.len() == 0;
        proof {
            if !r {
                let s = self.entry_views();
                assert(entries_map(s).contains_key(s.last().0));
                assert(!Map::<Seq<char>, Seq<char>>::empty().contains_key(s.last().0));
            } else {
                assert(self.entry_views() =~= Seq::empty());
            }
        }
        r
    }

    fn find(&self, name: &Vec<char>) -> (r: Option<usize>)
        requires
            self.wf(),
        ensures
            match r {
                Some(i) => i < self.entry_views().len() && self.entry_views()[i as int].0 == name@,
                None => forall|i: int|
                    0 <= i < self.entry_views().len() ==> self.entry_views()[i].0 != name@,
            },
    {
        let mut i: usize = 0;
        while i < self.entries.len()
            invariant
                i <= self.entries.len(),
                forall|j: int| 0 <= j < i ==> self.entry_views()[j].0 != name@,
            decreases self.entries.len() - i,
        {
            if same_text(&self.entries[i].0, name) {
                return Some(i);
            }
            i = i + 1;
        }
        None
    }

    /// The value of `name`, if the table holds it.
    pub fn get(&self, name: &Vec<char>) -> (r: Option<Vec<char>>)
        requires
            self.wf(),
        ensures
            r is Some == self@.contains_key(name@),
            r matches Some(v) ==> v@ == self@[name@],
    {
        match self.find(name) {
            Some(i) => {
                proof {
                    lemma_entry_found(self.entry_views(), i as int);
                }
                let mut v: Vec<char> = Vec::new();
                push_all(&mut v, &self.entries[i].1);
                assert(v@ =~= self.entries@[i as int].1@);
                Some(v)
            },
            None => {
                proof {
                    lemma_entry_absent(self.entry_views(), name@);
                }
                None
            },
        }
    }

    /// Whether the table holds `name`.
    pub fn contains_key(&self, name: &Vec<char>) -> (r: bool)
        requires
            self.wf(),
        ensures
            r == self@.contains_key(name@),
    {
        match self.find(name) {
            Some(i) => {
                proof {
                    lemma_entry_found(self.entry_views(), i as int);
                }
                true
            },
            None => {
                proof {
                    lemma_entry_absent(self.entry_views(), name@);
                }
                false
            },
        }
    }

    /// Gives `name` the value `value`, in place of any value it had.
    pub fn insert(&mut self, name: Vec<char>, value: Vec<char>)
        requires
            old(self).wf(),
        ensures
            final(self).wf(),
            final(self)@ == old(self)@.insert(name@, value@),
    {
        let ghost s = self.entry_views();
        match self.find(&name) {
            Some(i) => {
                let ghost v = value@;
                self.entries.set(i, (name, value));
                proof {
                    assert(self.entry_views() =~= s.update(i as int, (s[i as int].0, v)));
                    lemma_entry_replaced(s, i as int, v);
                }
            },
            None => {
                let ghost k = name@;
                let ghost v = value@;
                self.entries.push((name, value));
                proof {
                    assert(self.entry_views() =~= s.push((k, v)));
                    assert(self.entry_views().drop_last() =~= s);
                }
            },
        }
    }

    /// Removes every name.
    pub fn clear(&mut self)
        ensures
            final(self).wf(),
            final(self)@ == Map::<Seq<char>, Seq<char>>::empty(),
    {
        self.entries = Vec::new();
        assert(self.entry_views() =~= Seq::empty());
    }
}

impl View for Table {
    type V = Map<Seq<char>, Seq<char>>;

    closed spec fn view(&self) -> Map<Seq<char>, Seq<char>> {
        entries_map(self.entry_views())
    }
}

} // verus!
