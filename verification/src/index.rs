use vstd::prelude::*;

use crate::order::{char_lt, chars_less, lemma_char_lt_irreflexive, lemma_char_lt_total, lemma_char_lt_transitive};
use crate::text::chars_of;

verus! {

/// Each name comes strictly before the next: the names are sorted and none
/// occurs twice.
pub open spec fn names_sorted(p: Seq<(Seq<char>, Seq<char>)>) -> bool {
    forall|i: int, j: int| 0 <= i < j < p.len() ==> char_lt(#[trigger] p[i].0, #[trigger] p[j].0)
}

/// A position of `p` that holds the name `k`, if there is one.
pub open spec fn name_position(p: Seq<(Seq<char>, Seq<char>)>, k: Seq<char>) -> int {
    choose|i: int| 0 <= i < p.len() && #[trigger] p[i].0 == k
}

/// The map from each name to the path recorded with it.
pub open spec fn pairs_map(p: Seq<(Seq<char>, Seq<char>)>) -> Map<Seq<char>, Seq<char>> {
    Map::new(
        |k: Seq<char>| exists|i: int| 0 <= i < p.len() && #[trigger] p[i].0 == k,
        |k: Seq<char>| p[name_position(p, k)].1,
    )
}

/// In sorted pairs, the map gives each name the path stored beside it.
pub proof fn lemma_pairs_map_at(p: Seq<(Seq<char>, Seq<char>)>, i: int)
    requires
        names_sorted(p),
        0 <= i < p.len(),
    ensures
        pairs_map(p).dom().contains(p[i].0),
        pairs_map(p)[p[i].0] == p[i].1,
{
    let k = p[i].0;
    assert(exists|j: int| 0 <= j < p.len() && #[trigger] p[j].0 == k);
    let j = name_position(p, k);
    if j < i {
        assert(char_lt(p[j].0, p[i].0));
        lemma_char_lt_irreflexive(k);
    } else if i < j {
        assert(char_lt(p[i].0, p[j].0));
        lemma_char_lt_irreflexive(k);
    }
    assert(j == i);
    assert(pairs_map(p).dom().contains(k));
    assert(pairs_map(p)[k] == p[j].1);
}

/// The desktop entries found so far, by name: each name once, with the
/// path of the last file that gave it, in ascending order of names.
pub struct DesktopIndex {
    entries: Vec<(String, String)>,
}

impl View for DesktopIndex {
    type V = Map<Seq<char>, Seq<char>>;

    /// Each name found, with the path of the file that gave it last.
    open spec fn view(&self) -> Map<Seq<char>, Seq<char>> {
        pairs_map(self.pairs())
    }
}

impl DesktopIndex {
    /// Names and paths of the entries, in the order they are kept.
    pub closed spec fn pairs(&self) -> Seq<(Seq<char>, Seq<char>)> {
        self.entries@.map_values(|e: (String, String)| (e.0@, e.1@))
    }

    #[verifier::type_invariant]
    closed spec fn sorted(&self) -> bool {
        names_sorted(self.pairs())
    }

    /// An index with no entry.
    pub fn new() -> (r: Self)
        ensures
            r.pairs() == Seq::<(Seq<char>, Seq<char>)>::empty(),
            r@ == Map::<Seq<char>, Seq<char>>::empty(),
    {
        let r = DesktopIndex { entries: Vec::new() };
        assert(r.pairs() =~= Seq::<(Seq<char>, Seq<char>)>::empty());
        assert(r@ =~= Map::<Seq<char>, Seq<char>>::empty());
        r
    }

    /// Records that the entry `name` is described by the file at `path`; a
    /// name recorded before now maps to this path.
    pub fn insert(&mut self, name: String, path: String)
        ensures
            names_sorted(final(self).pairs()),
            final(self)@ == old(self)@.insert(name@, path@),
    {
        proof {
            use_type_invariant(&*self);
        }
        let ghost old_p = self.pairs();
        let key = chars_of(name.as_str());
        let n = self.entries.len();
        let mut i: usize = 0;
        while i < n
            invariant
                n == self.entries@.len() == old_p.len(),
                old_p == self.pairs(),
                names_sorted(old_p),
                key@ == name@,
                i <= n,
                forall|j: int| 0 <= j < i ==> char_lt(#[trigger] old_p[j].0, name@),
            ensures
                i <= n,
                forall|j: int| 0 <= j < i ==> char_lt(#[trigger] old_p[j].0, name@),
                i < n ==> !char_lt(old_p[i as int].0, name@),
            decreases n - i,
        {
            let here = chars_of(self.entries[i].0.as_str());
            assert(here@ == old_p[i as int].0);
            if chars_less(&here, &key) {
                i = i + 1;
            } else {
                break;
            }
        }
        let replace = i < n && self.entries[i].0 == name;
        let mut v: Vec<(String, String)> = Vec::new();
        std::mem::swap(&mut v, &mut self.entries);
        let ghost new_p: Seq<(Seq<char>, Seq<char>)>;
        if replace {
            proof {
                new_p = old_p.update(i as int, (name@, path@));
                assert forall|a: int, b: int| 0 <= a < b < new_p.len() implies char_lt(
                    #[trigger] new_p[a].0,
                    #[trigger] new_p[b].0,
                ) by {
                    assert(char_lt(old_p[a].0, old_p[b].0));
                }
            }
            v.set(i, (name, path));
        } else {
            proof {
                new_p = old_p.insert(i as int, (name@, path@));
                if i < n {
                    lemma_char_lt_total(old_p[i as int].0, name@);
                }
                assert forall|a: int, b: int| 0 <= a < b < new_p.len() implies char_lt(
                    #[trigger] new_p[a].0,
                    #[trigger] new_p[b].0,
                ) by {
                    if b < i {
                        assert(char_lt(old_p[a].0, old_p[b].0));
                    } else if b == i {
                        assert(char_lt(old_p[a].0, name@));
                    } else if a < i {
                        assert(char_lt(old_p[a].0, name@));
                        if b - 1 > i {
                            assert(char_lt(old_p[i as int].0, old_p[b - 1].0));
                            lemma_char_lt_transitive(name@, old_p[i as int].0, old_p[b - 1].0);
                        }
                        lemma_char_lt_transitive(old_p[a].0, name@, old_p[b - 1].0);
                    } else if a == i {
                        if b - 1 > i {
                            assert(char_lt(old_p[i as int].0, old_p[b - 1].0));
                            lemma_char_lt_transitive(name@, old_p[i as int].0, old_p[b - 1].0);
                        }
                    } else {
                        assert(char_lt(old_p[a - 1].0, old_p[b - 1].0));
                    }
                }
            }
            v.insert(i, (name, path));
        }
        assert(v@.map_values(|e: (String, String)| (e.0@, e.1@)) =~= new_p);
        self.entries = v;
        proof {
            assert(self.pairs() =~= new_p);
            let m_old = pairs_map(old_p);
            let m_new = pairs_map(new_p);
            let m = m_old.insert(name@, path@);
            let at: int = i as int;
            assert(new_p[at] == (name@, path@));
            lemma_pairs_map_at(new_p, at);
            assert forall|k: Seq<char>| #[trigger] m_new.dom().contains(k) <==> m.dom().contains(k) by {
                if m_new.dom().contains(k) {
                    let j = choose|j: int| 0 <= j < new_p.len() && #[trigger] new_p[j].0 == k;
                    if k != name@ {
                        let oj = if replace || j < at { j } else { j - 1 };
                        assert(old_p[oj].0 == k);
                    }
                }
                if m_old.dom().contains(k) && k != name@ {
                    let j = choose|j: int| 0 <= j < old_p.len() && #[trigger] old_p[j].0 == k;
                    let nj = if replace || j < at { j } else { j + 1 };
                    assert(new_p[nj].0 == k);
                }
            }
            assert forall|k: Seq<char>| #[trigger] m_new.dom().contains(k) implies m_new[k] == m[k] by {
                if k != name@ {
                    let j = choose|j: int| 0 <= j < new_p.len() && #[trigger] new_p[j].0 == k;
                    let oj = if replace || j < at { j } else { j - 1 };
                    assert(old_p[oj] == new_p[j]);
                    lemma_pairs_map_at(new_p, j);
                    lemma_pairs_map_at(old_p, oj);
                }
            }
            assert(m_new =~= m);
        }
    }

    /// The entries, each as (name, path), in ascending order of names.
    pub fn entries(&self) -> (r: &Vec<(String, String)>)
        ensures
            r@.map_values(|e: (String, String)| (e.0@, e.1@)) == self.pairs(),
            names_sorted(self.pairs()),
    {
        proof {
            use_type_invariant(self);
        }
        &self.entries
    }
}

} // verus!
