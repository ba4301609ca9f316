//! The platform registry: the name-to-factory mapping populated once
//! at startup and read by every inbound request. Registration
//! overwrites silently, so the last registration for a name wins.

use vstd::prelude::*;
use vstd::string::*;
use crate::platform::PlatformFactory;

verus! {

/// The mapping a list of named entries denotes: later entries win.
pub open spec fn map_of<F>(entries: Seq<(String, F)>) -> Map<Seq<char>, F>
    decreases entries.len(),
{
    if entries.len() == 0 {
        Map::empty()
    } else {
        map_of(entries.drop_last()).insert(entries.last().0@, entries.last().1)
    }
}

/// The name-to-factory registry.
pub struct PlatformRegistry<F> {
    entries: Vec<(String, F)>,
}

impl<F> View for PlatformRegistry<F> {
    type V = Map<Seq<char>, F>;

    closed spec fn view(&self) -> Map<Seq<char>, F> {
        map_of(self.entries@)
    }
}

impl<F> PlatformRegistry<F> {
    /// Which names occur among the first `n` entries.
    spec fn key_in_prefix(entries: Seq<(String, F)>, name: Seq<char>, n: int) -> bool {
        exists|k: int| 0 <= k < n && entries[k].0@ == name
    }

    /// Whether a name occurs in a list of names.
    spec fn name_listed(names: Seq<String>, name: Seq<char>) -> bool {
        exists|j: int| 0 <= j < names.len() && names[j]@ == name
    }

    /// A key is in the denoted map exactly when some entry bears it.
    proof fn lemma_map_of_contains(entries: Seq<(String, F)>, name: Seq<char>)
        ensures
            map_of(entries).contains_key(name) <==> Self::key_in_prefix(
                entries,
                name,
                entries.len() as int,
            ),
        decreases entries.len(),
    {
        if entries.len() > 0 {
            Self::lemma_map_of_contains(entries.drop_last(), name);
            if Self::key_in_prefix(entries, name, entries.len() as int)
                && entries.last().0@ != name {
                let k = choose|k: int|
                    0 <= k < entries.len() && entries[k].0@ == name;
                assert(entries.drop_last()[k].0@ == name);
            }
        }
    }

    /// The value the denoted map holds for the name of the last entry
    /// bearing that name.
    proof fn lemma_map_of_last(entries: Seq<(String, F)>, i: int)
        requires
            0 <= i < entries.len(),
            forall|k: int| i < k < entries.len() ==> entries[k].0@ != entries[i].0@,
        ensures
            map_of(entries).contains_key(entries[i].0@),
            map_of(entries)[entries[i].0@] == entries[i].1,
        decreases entries.len(),
    {
        if i + 1 == entries.len() {
        } else {
            Self::lemma_map_of_last(entries.drop_last(), i);
        }
    }

    /// Creates an empty registry.
    pub fn new() -> (r: Self)
        ensures
            r@ == Map::<Seq<char>, F>::empty(),
    {
        PlatformRegistry { entries: Vec::new() }
    }
}

impl<F: PlatformFactory> PlatformRegistry<F> {
    /// Registers a factory under its own name, silently replacing any
    /// factory registered under that name before.
    pub fn register(&mut self, factory: F)
        ensures
            final(self)@ == old(self)@.insert(factory.spec_name(), factory),
    {
        let name = String::from_str(factory.name());
        self.entries.push((name, factory));
        proof {
            assert(self.entries@.drop_last() =~= old(self).entries@);
        }
    }

    /// Looks a factory up by name: the factory last registered under
    /// that name, or nothing when the name was never registered.
    pub fn get_factory(&self, name: &str) -> (r: Option<&F>)
        ensures
            (match r {
                Some(f) => self@.contains_key(name@) && *f == self@[name@],
                None => !self@.contains_key(name@),
            }),
    {
        let key = String::from_str(name);
        let n = self.entries.len();
        let mut i: usize = n;
        while i > 0
            invariant
                i <= n,
                n == self.entries@.len(),
                key@ == name@,
                forall|k: int| i <= k < n ==> self.entries@[k].0@ != name@,
            decreases i,
        {
            i = i - 1;
            if self.entries[i].0 == key {
                proof {
                    Self::lemma_map_of_last(self.entries@, i as int);
                }
                return Some(&self.entries[i].1);
            }
        }
        proof {
            Self::lemma_map_of_contains(self.entries@, name@);
        }
        None
    }

    /// The names of every registered platform: each exactly once, in
    /// the order of first registration.
    pub fn list_platforms(&self) -> (r: Vec<String>)
        ensures
            forall|name: Seq<char>|
                self@.contains_key(name) <==> (exists|k: int|
                    0 <= k < r@.len() && #[trigger] r@[k]@ == name),
            forall|k1: int, k2: int| 0 <= k1 < k2 < r@.len() ==> #[trigger] r@[k1]@ != #[trigger] r@[k2]@,
    {
        let mut out: Vec<String> = Vec::new();
        let mut i: usize = 0;
        while i < self.entries.len()
            invariant
                i <= self.entries@.len(),
                forall|k: int|
                    0 <= k < i ==> Self::name_listed(out@, #[trigger] self.entries@[k].0@),
                forall|j: int|
                    0 <= j < out@.len() ==> Self::key_in_prefix(
                        self.entries@,
                        #[trigger] out@[j]@,
                        i as int,
                    ),
                forall|j1: int, j2: int|
                    0 <= j1 < j2 < out@.len() ==> #[trigger] out@[j1]@ != #[trigger] out@[j2]@,
            decreases self.entries@.len() - i,
        {
            let mut seen = false;
            let mut j: usize = 0;
            while j < out.len()
                invariant
                    j <= out@.len(),
                    i < self.entries@.len(),
                    seen <==> (exists|k: int|
                        0 <= k < j && #[trigger] out@[k]@ == self.entries@[i as int].0@),
                decreases out@.len() - j,
            {
                if out[j] == self.entries[i].0 {
                    seen = true;
                }
                j = j + 1;
            }
            let ghost prev = out@;
            if !seen {
                out.push(self.entries[i].0.clone());
            }
            proof {
                assert forall|k: int|
                    0 <= k < i + 1 implies Self::name_listed(
                    out@,
                    #[trigger] self.entries@[k].0@,
                ) by {
                    if k < i {
                        let j0 = choose|j0: int|
                            0 <= j0 < prev.len() && prev[j0]@ == self.entries@[k].0@;
                        assert(out@[j0]@ == self.entries@[k].0@);
                    } else if !seen {
                        assert(out@[out@.len() - 1]@ == self.entries@[k].0@);
                    }
                }
                assert forall|j0: int|
                    0 <= j0 < out@.len() implies Self::key_in_prefix(
                    self.entries@,
                    #[trigger] out@[j0]@,
                    i + 1,
                ) by {
                    if j0 < prev.len() {
                        let k0 = choose|k0: int|
                            0 <= k0 < i && self.entries@[k0].0@ == prev[j0]@;
                        assert(self.entries@[k0].0@ == out@[j0]@);
                    } else {
                        assert(self.entries@[i as int].0@ == out@[j0]@);
                    }
                }
            }
            i = i + 1;
        }
        proof {
            assert forall|name: Seq<char>| self@.contains_key(name) implies (exists|k: int|
                0 <= k < out@.len() && #[trigger] out@[k]@ == name) by {
                Self::lemma_map_of_contains(self.entries@, name);
                let k0 = choose|k0: int|
                    0 <= k0 < self.entries@.len() && self.entries@[k0].0@ == name;
                assert(Self::name_listed(out@, self.entries@[k0].0@));
                let j0 = choose|j0: int| 0 <= j0 < out@.len() && out@[j0]@ == name;
                assert(out@[j0]@ == name);
            }
            assert forall|name: Seq<char>|
                (exists|k: int| 0 <= k < out@.len() && #[trigger] out@[k]@ == name)
                implies self@.contains_key(name) by {
                Self::lemma_map_of_contains(self.entries@, name);
            }
        }
        out
    }
}

/// Law: after a factory is registered, lookup of its name yields that
/// factory, and every other name resolves exactly as it did before.
pub proof fn lemma_register_last_wins<F>(
    m: Map<Seq<char>, F>,
    name: Seq<char>,
    f: F,
    other: Seq<char>,
)
    ensures
        m.insert(name, f).contains_key(name),
        m.insert(name, f)[name] == f,
        other != name ==> (m.insert(name, f).contains_key(other) <==> m.contains_key(other)),
        other != name && m.contains_key(other) ==> m.insert(name, f)[other] == m[other],
{
}

} // verus!
