use vstd::prelude::*;

verus! {

/// A string-keyed, string-valued parameter mapping: the payload handed to a
/// hook callback. Looking a key up finds its first entry.
#[derive(Debug)]
pub struct Params {
    pub entries: Vec<(String, String)>,
}

/// The value under `key` in a list of entries: that of the first entry with
/// this key.
pub open spec fn lookup(s: Seq<(Seq<char>, Seq<char>)>, key: Seq<char>) -> Option<Seq<char>>
    decreases s.len(),
{
    if s.len() == 0 {
        None
    } else if s[0].0 == key {
        Some(s[0].1)
    } else {
        lookup(s.drop_first(), key)
    }
}

impl View for Params {
    type V = Seq<(Seq<char>, Seq<char>)>;

    open spec fn view(&self) -> Seq<(Seq<char>, Seq<char>)> {
        self.entries@.map_values(|p: (String, String)| (p.0@, p.1@))
    }
}

impl Clone for Params {
    fn clone(&self) -> (r: Self)
        ensures
            r@ == self@,
    {
        let mut entries: Vec<(String, String)> = Vec::new();
        let mut i: usize = 0;
        while i < self.entries.len()
            invariant
                i <= self.entries@.len(),
                entries@.len() == i,
                forall|j: int|
                    0 <= j < i ==> #[trigger] entries@[j].0@ == self.entries@[j].0@
                        && entries@[j].1@ == self.entries@[j].1@,
            decreases self.entries@.len() - i,
        {
            let (k, v) = (self.entries[i].0.clone(), self.entries[i].1.clone());
            entries.push((k, v));
            i = i + 1;
        }
        let r = Params { entries };
        assert(r@ =~= self@);
        r
    }
}

impl Params {
    /// A mapping with no entry.
    pub fn new() -> (r: Self)
        ensures
            r@ == Seq::<(Seq<char>, Seq<char>)>::empty(),
    {
        let r = Params { entries: Vec::new() };
        assert(r@ =~= Seq::<(Seq<char>, Seq<char>)>::empty());
        r
    }

    /// A mapping with one entry.
    pub fn single(key: &str, value: String) -> (r: Self)
        ensures
            r@ == seq![(key@, value@)],
    {
        let mut entries: Vec<(String, String)> = Vec::new();
        entries.push((key.to_owned(), value));
        let r = Params { entries };
        assert(r@ =~= seq![(key@, value@)]);
        r
    }

    /// Adds an entry after the others.
    pub fn push(&mut self, key: &str, value: String)
        ensures
            final(self)@ == old(self)@.push((key@, value@)),
    {
        self.entries.push((key.to_owned(), value));
        assert(final(self)@ =~= old(self)@.push((key@, value@)));
    }

    /// The value under `key`, if there is one.
    pub fn get(&self, key: &str) -> (r: Option<String>)
        ensures
            r matches Some(v) ==> lookup(self@, key@) == Some(v@),
            r is None ==> lookup(self@, key@) is None,
    {
        let k = key.to_owned();
        let mut i: usize = 0;
        assert(self@.subrange(0, self@.len() as int) =~= self@);
        while i < self.entries.len()
            invariant
                i <= self.entries@.len(),
                k@ == key@,
                lookup(self@, key@) == lookup(self@.subrange(i as int, self@.len() as int), key@),
            decreases self.entries@.len() - i,
        {
            let ghost rest = self@.subrange(i as int, self@.len() as int);
            assert(rest.drop_first() =~= self@.subrange(i + 1, self@.len() as int));
            if self.entries[i].0 == k {
                return Some(self.entries[i].1.clone());
            }
            i = i + 1;
        }
        None
    }
}

} // verus!
