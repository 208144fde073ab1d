//! The set of repositories that a scrape visits, kept in the order of their names.

use vstd::prelude::*;
use crate::models::repositories_json::{repo_names, RepositoriesJSONRepo};
use crate::text::{
    compare_names, lemma_name_lt_irreflexive, lemma_name_lt_transitive, name_lt, NameOrder,
};

verus! {

/// The texts of the strings, in order.
pub open spec fn texts(v: Seq<String>) -> Seq<Seq<char>> {
    Seq::new(v.len(), |i: int| v[i]@)
}

/// The texts of a list with one more string are the texts of the list with one more
/// text.
pub proof fn lemma_texts_push(v: Seq<String>, s: String)
    ensures
        texts(v.push(s)) == texts(v).push(s@),
{
    assert(texts(v.push(s)) =~= texts(v).push(s@));
}

/// Whether each name comes before all that follow it. Such a list holds no name
/// twice.
pub open spec fn strictly_sorted(names: Seq<Seq<char>>) -> bool {
    forall|i: int, j: int| 0 <= i < j < names.len() ==> name_lt(#[trigger] names[i], #[trigger] names[j])
}

/// Two lists in the order of names that hold the same names are the same list.
pub proof fn lemma_sorted_unique(a: Seq<Seq<char>>, b: Seq<Seq<char>>)
    requires
        strictly_sorted(a),
        strictly_sorted(b),
        forall|x: Seq<char>| #![trigger a.contains(x)] a.contains(x) <==> b.contains(x),
    ensures
        a == b,
    decreases a.len(),
{
    if a.len() == 0 {
        if b.len() > 0 {
            assert(b.contains(b[0]));
            assert(a.contains(b[0]));
        }
        assert(a =~= b);
    } else {
        let top = a.last();
        assert(a.contains(top));
        assert(b.contains(top));
        let at = choose|k: int| 0 <= k < b.len() && b[k] == top;
        let other = b.last();
        assert(b.contains(other));
        assert(a.contains(other));
        let back = choose|k: int| 0 <= k < a.len() && a[k] == other;
        if at < b.len() - 1 {
            // `top` comes before `other` in `b`, and `other` is no later than `top` in `a`
            assert(name_lt(b[at], b[b.len() - 1]));
            if back < a.len() - 1 {
                assert(name_lt(a[back], a[a.len() - 1]));
                lemma_name_lt_transitive(top, other, top);
                lemma_name_lt_irreflexive(top, top);
            } else {
                lemma_name_lt_irreflexive(top, other);
            }
        }
        assert(other == top);
        let a0 = a.drop_last();
        let b0 = b.drop_last();
        assert forall|x: Seq<char>| a0.contains(x) <==> b0.contains(x) by {
            if a0.contains(x) {
                let k = choose|k: int| 0 <= k < a0.len() && a0[k] == x;
                assert(a[k] == x);
                assert(name_lt(a[k], a[a.len() - 1]));
                lemma_name_lt_irreflexive(x, top);
                assert(a.contains(x));
                assert(b.contains(x));
                let m = choose|m: int| 0 <= m < b.len() && b[m] == x;
                assert(m < b.len() - 1);
                assert(b0[m] == x);
            }
            if b0.contains(x) {
                let k = choose|k: int| 0 <= k < b0.len() && b0[k] == x;
                assert(b[k] == x);
                assert(name_lt(b[k], b[b.len() - 1]));
                lemma_name_lt_irreflexive(x, top);
                assert(b.contains(x));
                assert(a.contains(x));
                let m = choose|m: int| 0 <= m < a.len() && a[m] == x;
                assert(m < a.len() - 1);
                assert(a0[m] == x);
            }
        }
        assert(strictly_sorted(a0)) by {
            assert forall|i: int, j: int| 0 <= i < j < a0.len() implies name_lt(
                #[trigger] a0[i],
                #[trigger] a0[j],
            ) by {
                assert(name_lt(a[i], a[j]));
            }
        }
        assert(strictly_sorted(b0)) by {
            assert forall|i: int, j: int| 0 <= i < j < b0.len() implies name_lt(
                #[trigger] b0[i],
                #[trigger] b0[j],
            ) by {
                assert(name_lt(b[i], b[j]));
            }
        }
        lemma_sorted_unique(a0, b0);
        assert(a =~= a0.push(top));
        assert(b =~= b0.push(top));
    }
}

/// Whether `name` is one of `names`.
pub fn names_contain(names: &Vec<String>, name: &str) -> (r: bool)
    ensures
        r == texts(names@).contains(name@),
{
    let mut i: usize = 0;
    while i < names.len()
        invariant
            i <= names.len(),
            forall|j: int| 0 <= j < i ==> names[j]@ != name@,
        decreases names.len() - i,
    {
        if compare_names(names[i].as_str(), name) == NameOrder::Same {
            assert(texts(names@)[i as int] == name@);
            return true;
        }
        i += 1;
    }
    false
}

/// The names of the repositories that a scrape visits: no name twice, and each
/// before all that follow it in the order of names.
#[derive(Debug, PartialEq)]
pub struct ResolvedRepositorySet {
    names: Vec<String>,
}

impl View for ResolvedRepositorySet {
    type V = Seq<Seq<char>>;

    closed spec fn view(&self) -> Seq<Seq<char>> {
        texts(self.names@)
    }
}

impl ResolvedRepositorySet {
    #[verifier::type_invariant]
    spec fn well_formed(self) -> bool {
        strictly_sorted(texts(self.names@))
    }

    /// The empty set.
    pub fn new() -> (r: ResolvedRepositorySet)
        ensures
            r@ == Seq::<Seq<char>>::empty(),
    {
        let r = ResolvedRepositorySet { names: Vec::new() };
        assert(r@ =~= Seq::<Seq<char>>::empty());
        r
    }

    /// The names, in order.
    pub fn names(&self) -> (r: &Vec<String>)
        ensures
            texts(r@) == self@,
            strictly_sorted(self@),
    {
        proof {
            use_type_invariant(self);
        }
        &self.names
    }

    /// How many names there are.
    pub fn len(&self) -> (r: usize)
        ensures
            r == self@.len(),
    {
        self.names.len()
    }

    /// Whether there is no name.
    pub fn is_empty(&self) -> (r: bool)
        ensures
            r == (self@.len() == 0),
    {
        self.names.len() == 0
    }

    /// Whether `name` is in the set.
    pub fn contains(&self, name: &str) -> (r: bool)
        ensures
            r == self@.contains(name@),
    {
        names_contain(&self.names, name)
    }

    /// Adds `name`, at its place in the order, unless it is there already.
    pub fn insert(&mut self, name: String)
        ensures
            strictly_sorted(final(self)@),
            forall|x: Seq<char>|
                #![trigger final(self)@.contains(x)]
                final(self)@.contains(x) <==> old(self)@.contains(x) || x == name@,
    {
        proof {
            use_type_invariant(&*self);
        }
        let ghost before = texts(self.names@);
        let mut place: usize = 0;
        while place < self.names.len()
            invariant
                place <= self.names.len(),
                texts(self.names@) == before,
                strictly_sorted(before),
                forall|j: int| 0 <= j < place ==> name_lt(#[trigger] before[j], name@),
            ensures
                place <= self.names.len(),
                place < self.names.len() ==> name_lt(name@, before[place as int]),
            decreases self.names.len() - place,
        {
            match compare_names(self.names[place].as_str(), name.as_str()) {
                NameOrder::Before => {
                    assert(before[place as int] == self.names[place as int]@);
                },
                NameOrder::Same => {
                    assert(before[place as int] == name@);
                    return ;
                },
                NameOrder::After => {
                    assert(before[place as int] == self.names[place as int]@);
                    break ;
                },
            }
            place += 1;
        }
        let ghost text = name@;
        assert(place < before.len() ==> name_lt(text, before[place as int]));
        let mut rebuilt: Vec<String> = Vec::new();
        let mut k: usize = 0;
        while k < place
            invariant
                k <= place <= self.names.len(),
                texts(self.names@) == before,
                texts(rebuilt@) == before.take(k as int),
            decreases place - k,
        {
            proof {
                lemma_texts_push(rebuilt@, self.names[k as int]);
            }
            rebuilt.push(self.names[k].clone());
            assert(before[k as int] == self.names[k as int]@);
            assert(texts(rebuilt@) =~= before.take(k + 1));
            k += 1;
        }
        proof {
            lemma_texts_push(rebuilt@, name);
        }
        rebuilt.push(name);
        while k < self.names.len()
            invariant
                place <= k <= self.names.len(),
                texts(self.names@) == before,
                texts(rebuilt@) == before.take(place as int).push(text) + before.subrange(
                    place as int,
                    k as int,
                ),
            decreases self.names.len() - k,
        {
            proof {
                lemma_texts_push(rebuilt@, self.names[k as int]);
            }
            rebuilt.push(self.names[k].clone());
            assert(before[k as int] == self.names[k as int]@);
            assert(texts(rebuilt@) =~= before.take(place as int).push(text) + before.subrange(
                place as int,
                k + 1,
            ));
            k += 1;
        }
        proof {
            let after = texts(rebuilt@);
            assert(after =~= before.insert(place as int, text));
            assert forall|i: int, j: int| 0 <= i < j < after.len() implies name_lt(
                #[trigger] after[i],
                #[trigger] after[j],
            ) by {
                if j < place {
                    assert(name_lt(before[i], before[j]));
                } else if j == place {
                    assert(name_lt(before[i], text));
                } else if i < place {
                    assert(name_lt(before[i], before[j - 1]));
                } else if i == place {
                    if j - 1 > place {
                        assert(name_lt(before[place as int], before[j - 1]));
                        lemma_name_lt_transitive(text, before[place as int], before[j - 1]);
                    }
                } else {
                    assert(name_lt(before[i - 1], before[j - 1]));
                }
            }
            assert forall|x: Seq<char>| after.contains(x) <==> before.contains(x) || x == text by {
                if after.contains(x) {
                    let k = choose|k: int| 0 <= k < after.len() && after[k] == x;
                    if k < place {
                        assert(before[k] == x);
                    } else if k > place {
                        assert(before[k - 1] == x);
                    }
                }
                if before.contains(x) {
                    let k = choose|k: int| 0 <= k < before.len() && before[k] == x;
                    if k < place {
                        assert(after[k] == x);
                    } else {
                        assert(after[k + 1] == x);
                    }
                }
                if x == text {
                    assert(after[place as int] == x);
                }
            }
        }
        self.names = rebuilt;
    }

    /// Adds each of `names` that is not among `ignored`.
    pub fn extend_unless_ignored(&mut self, names: &Vec<String>, ignored: &Vec<String>)
        ensures
            strictly_sorted(final(self)@),
            forall|x: Seq<char>|
                #![trigger final(self)@.contains(x)]
                final(self)@.contains(x) <==> old(self)@.contains(x) || (texts(
                names@,
            ).contains(x) && !texts(ignored@).contains(x)),
    {
        proof {
            use_type_invariant(&*self);
        }
        let mut i: usize = 0;
        while i < names.len()
            invariant
                i <= names.len(),
                strictly_sorted(self@),
                forall|x: Seq<char>| self@.contains(x) <==> old(self)@.contains(x) || (texts(
                    names@,
                ).take(i as int).contains(x) && !texts(ignored@).contains(x)),
            decreases names.len() - i,
        {
            let ghost seen = texts(names@).take(i as int);
            let ghost next = texts(names@).take(i + 1);
            let ghost held = self@;
            assert(next =~= seen.push(names[i as int]@));
            assert forall|x: Seq<char>| next.contains(x) <==> seen.contains(x) || x == names[i as int]@ by {
                if next.contains(x) {
                    let k = choose|k: int| 0 <= k < next.len() && next[k] == x;
                    if k < i {
                        assert(seen[k] == x);
                    }
                }
                if seen.contains(x) {
                    let k = choose|k: int| 0 <= k < seen.len() && seen[k] == x;
                    assert(next[k] == x);
                }
                if x == names[i as int]@ {
                    assert(next[i as int] == x);
                }
            }
            if !names_contain(ignored, names[i].as_str()) {
                self.insert(names[i].clone());
            }
            i += 1;
        }
        assert(texts(names@).take(names.len() as int) =~= texts(names@));
    }

    /// The names that a scrape starts from: the forced ones, without the ignored.
    pub fn from_forced(forced: &Vec<String>, ignored: &Vec<String>) -> (r: ResolvedRepositorySet)
        ensures
            strictly_sorted(r@),
            forall|x: Seq<char>|
                #![trigger r@.contains(x)]
                r@.contains(x) <==> texts(forced@).contains(x) && !texts(
                ignored@,
            ).contains(x),
    {
        let mut r = ResolvedRepositorySet::new();
        r.extend_unless_ignored(forced, ignored);
        r
    }

    /// Adds the name of each of `repos` that is not among `ignored`.
    pub fn extend_advertised(&mut self, repos: &Vec<RepositoriesJSONRepo>, ignored: &Vec<String>)
        ensures
            strictly_sorted(final(self)@),
            forall|x: Seq<char>|
                #![trigger final(self)@.contains(x)]
                final(self)@.contains(x) <==> old(self)@.contains(x) || (repo_names(
                repos@,
            ).contains(x) && !texts(ignored@).contains(x)),
    {
        let mut names: Vec<String> = Vec::new();
        let mut i: usize = 0;
        while i < repos.len()
            invariant
                i <= repos.len(),
                texts(names@) == repo_names(repos@).take(i as int),
            decreases repos.len() - i,
        {
            proof {
                lemma_texts_push(names@, repos[i as int].name);
            }
            names.push(repos[i].name.clone());
            assert(repo_names(repos@)[i as int] == repos[i as int].name@);
            assert(texts(names@) =~= repo_names(repos@).take(i + 1));
            i += 1;
        }
        assert(repo_names(repos@).take(repos.len() as int) =~= repo_names(repos@));
        self.extend_unless_ignored(&names, ignored);
    }
}

impl Clone for ResolvedRepositorySet {
    fn clone(&self) -> (r: Self)
        ensures
            r@ == self@,
    {
        proof {
            use_type_invariant(self);
        }
        let names = self.names.clone();
        assert(texts(names@) =~= texts(self.names@));
        ResolvedRepositorySet { names }
    }
}

} // verus!
