//! Sets of names: the scopes that a token carries, the tools that a client sees.

use vstd::prelude::*;

use crate::text::same_text;

verus! {

/// A set of names, each held once.
pub struct NameSet {
    names: Vec<String>,
}

impl View for NameSet {
    type V = Set<Seq<char>>;

    closed spec fn view(&self) -> Set<Seq<char>> {
        self.names.deep_view().to_set()
    }
}

impl NameSet {
    #[verifier::type_invariant]
    spec fn well_formed(self) -> bool {
        self.names.deep_view().no_duplicates()
    }

    /// The set without any name.
    pub fn new() -> (r: NameSet)
        ensures
            r@ == Set::<Seq<char>>::empty(),
    {
        let r = NameSet { names: Vec::new() };
        assert(r@ =~= Set::<Seq<char>>::empty());
        r
    }

    /// The set of the names in `list`.
    pub fn from_list(list: &Vec<String>) -> (r: NameSet)
        ensures
            r@ == list.deep_view().to_set(),
            forall|name: Seq<char>| #[trigger]
                r@.contains(name) <==> exists|i: int|
                    0 <= i < list@.len() && #[trigger] list@[i]@ == name,
    {
        let mut r = NameSet::new();
        let ghost all = list.deep_view();
        assert(all.take(0).to_set() =~= Set::<Seq<char>>::empty());
        for i in 0..list.len()
            invariant
                all == list.deep_view(),
                r@ == all.take(i as int).to_set(),
        {
            r.insert(list[i].as_str());
            proof {
                assert(all.take(i + 1) =~= all.take(i as int).push(all[i as int]));
                lemma_push_to_set(all.take(i as int), all[i as int]);
            }
        }
        assert(all.take(all.len() as int) =~= all);
        proof {
            lemma_deep_contains(list);
        }
        r
    }

    /// Whether `name` is in the set.
    pub fn contains(&self, name: &str) -> (r: bool)
        ensures
            r == self@.contains(name@),
    {
        for i in 0..self.names.len()
            invariant
                forall|j: int| 0 <= j < i ==> #[trigger] self.names.deep_view()[j] != name@,
        {
            assert(self.names.deep_view()[i as int] == self.names@[i as int]@);
            if same_text(self.names[i].as_str(), name) {
                return true;
            }
        }
        false
    }

    /// Adds `name` to the set.
    pub fn insert(&mut self, name: &str)
        ensures
            final(self)@ == old(self)@.insert(name@),
    {
        proof {
            use_type_invariant(&*self);
        }
        if self.contains(name) {
            assert(self@.insert(name@) =~= self@);
            return;
        }
        let mut names: Vec<String> = Vec::new();
        std::mem::swap(&mut names, &mut self.names);
        let ghost before = names.deep_view();
        names.push(name.to_string());
        proof {
            assert(names.deep_view() =~= before.push(name@));
            lemma_push_to_set(before, name@);
            assert(!before.contains(name@));
        }
        self.names = names;
    }

    /// How many names the set holds.
    pub fn len(&self) -> (r: usize)
        ensures
            r == self@.len(),
            self@.finite(),
    {
        proof {
            use_type_invariant(self);
            self.names.deep_view().unique_seq_to_set();
        }
        self.names.len()
    }

    /// Whether the set holds no name.
    pub fn is_empty(&self) -> (r: bool)
        ensures
            r == (self@ == Set::<Seq<char>>::empty()),
    {
        let r = self.names.len() == 0;
        proof {
            if r {
                assert(self@ =~= Set::<Seq<char>>::empty());
            } else {
                assert(self.names.deep_view().contains(self.names.deep_view()[0]));
                assert(self@.contains(self.names.deep_view()[0]));
            }
        }
        r
    }

    /// The names in the set, each once.
    pub fn to_list(&self) -> (r: Vec<String>)
        ensures
            r.deep_view().to_set() == self@,
            r.deep_view().no_duplicates(),
            forall|name: Seq<char>| #[trigger]
                self@.contains(name) <==> exists|i: int|
                    0 <= i < r@.len() && #[trigger] r@[i]@ == name,
    {
        proof {
            use_type_invariant(self);
        }
        let mut r: Vec<String> = Vec::new();
        let ghost all = self.names.deep_view();
        for i in 0..self.names.len()
            invariant
                all == self.names.deep_view(),
                r.deep_view() == all.take(i as int),
        {
            let ghost before = r.deep_view();
            r.push(self.names[i].clone());
            assert(r.deep_view() =~= before.push(all[i as int]));
            assert(r.deep_view() =~= all.take(i + 1));
        }
        assert(all.take(all.len() as int) =~= all);
        proof {
            lemma_deep_contains(&r);
        }
        r
    }
}

proof fn lemma_deep_contains(list: &Vec<String>)
    ensures
        forall|name: Seq<char>| #[trigger]
            list.deep_view().to_set().contains(name) <==> exists|i: int|
                0 <= i < list@.len() && #[trigger] list@[i]@ == name,
{
    let all = list.deep_view();
    assert forall|name: Seq<char>| #[trigger]
        all.to_set().contains(name) <==> exists|i: int|
            0 <= i < list@.len() && #[trigger] list@[i]@ == name by {
        if all.contains(name) {
            let i = choose|i: int| 0 <= i < all.len() && all[i] == name;
            assert(list@[i]@ == name);
        }
        if exists|i: int| 0 <= i < list@.len() && #[trigger] list@[i]@ == name {
            let i = choose|i: int| 0 <= i < list@.len() && #[trigger] list@[i]@ == name;
            assert(all[i] == name);
        }
    }
}

proof fn lemma_push_to_set(s: Seq<Seq<char>>, x: Seq<char>)
    ensures
        s.push(x).to_set() == s.to_set().insert(x),
{
    assert forall|y: Seq<char>| s.push(x).to_set().contains(y) == s.to_set().insert(x).contains(
        y,
    ) by {
        if s.contains(y) {
            let k = choose|k: int| 0 <= k < s.len() && s[k] == y;
            assert(s.push(x)[k] == y);
        }
        assert(s.push(x)[s.len() as int] == x);
    }
    assert(s.push(x).to_set() =~= s.to_set().insert(x));
}

} // verus!
