//! A notifier that forwards each notification to several named notifiers.

use vstd::prelude::*;
use crate::keyed::KeyedStore;

verus! {

/// A composite notifier: named notifiers that each receive every notification.
#[derive(Clone)]
pub struct CompositeNotifier<N> {
    notifiers: KeyedStore<N>,
}

impl<N> CompositeNotifier<N> {
    /// The notifiers by name.
    pub closed spec fn map(&self) -> Map<Seq<char>, N> {
        self.notifiers.map()
    }

    /// The names, in the order in which they were first added.
    pub closed spec fn names(&self) -> Seq<Seq<char>> {
        self.notifiers.key_order()
    }

    /// The composite's invariant.
    pub closed spec fn wf(&self) -> bool {
        &&& self.notifiers.wf()
        &&& self.names().to_set() == self.map().dom()
        &&& self.names().no_duplicates()
    }

    proof fn lemma_names_match(&self)
        requires
            self.notifiers.wf(),
        ensures
            self.names().to_set() == self.map().dom(),
            self.names().no_duplicates(),
    {
        let s = self.notifiers.assoc();
        assert forall|k: Seq<char>| self.names().to_set().contains(k) <==> self.map().dom().contains(k) by {
            if self.map().dom().contains(k) {
                let i = choose|i: int| 0 <= i < s.len() && s[i].0 == k;
                assert(self.names()[i] == k);
            }
            if self.names().to_set().contains(k) {
                let i = choose|i: int| 0 <= i < self.names().len() && self.names()[i] == k;
                assert(s[i].0 == k);
            }
        }
        assert(self.names().to_set() =~= self.map().dom());
    }

    /// A composite with no notifiers.
    pub fn new() -> (c: Self)
        ensures
            c.wf(),
            c.map() == Map::<Seq<char>, N>::empty(),
            c.names() == Seq::<Seq<char>>::empty(),
    {
        let c = CompositeNotifier { notifiers: KeyedStore::new() };
        proof {
            c.lemma_names_match();
            assert(c.names() =~= Seq::<Seq<char>>::empty());
        }
        c
    }

    /// Adds `notifier` under `name`, replacing a notifier of that name.
    pub fn add_notifier(&mut self, name: String, notifier: N)
        requires
            old(self).wf(),
        ensures
            final(self).wf(),
            final(self).map() == old(self).map().insert(name@, notifier),
            old(self).map().contains_key(name@) ==> final(self).names() == old(self).names(),
            !old(self).map().contains_key(name@) ==> final(self).names() == old(self).names().push(name@),
    {
        self.notifiers.insert(name, notifier);
        proof {
            self.lemma_names_match();
        }
    }

    /// Removes the notifier named `name` and returns it.
    pub fn remove_notifier(&mut self, name: &str) -> (removed: Option<N>)
        requires
            old(self).wf(),
        ensures
            final(self).wf(),
            final(self).map() == old(self).map().remove(name@),
            removed == old(self).map().get(name@),
            !final(self).names().contains(name@),
    {
        let key = String::from_str(name);
        let r = self.notifiers.remove(&key);
        proof {
            self.lemma_names_match();
            assert(!self.map().dom().contains(name@));
        }
        r
    }

    /// The names of the notifiers, in order.
    pub fn list_notifiers(&self) -> (names: Vec<String>)
        requires
            self.wf(),
        ensures
            names@.map_values(|s: String| s@) == self.names(),
            names@.map_values(|s: String| s@).no_duplicates(),
            names@.map_values(|s: String| s@).to_set() == self.map().dom(),
    {
        self.notifiers.keys()
    }

    /// The notifier named `name`, if any.
    pub fn get_notifier(&self, name: &String) -> (found: Option<&N>)
        requires
            self.wf(),
        ensures
            match found {
                Some(n) => self.map().contains_key(name@) && *n == self.map()[name@],
                None => !self.map().contains_key(name@),
            },
    {
        self.notifiers.get(name)
    }

    /// The number of notifiers.
    pub fn len(&self) -> (n: usize)
        requires
            self.wf(),
        ensures
            n == self.map().len(),
            n == self.names().len(),
    {
        self.notifiers.len()
    }
}

/// A notifier added under a name is listed and found under it; removing that
/// name afterwards, when it was new, gives back the previous notifiers.
pub proof fn law_add_then_remove<N>(
    before: CompositeNotifier<N>,
    added: CompositeNotifier<N>,
    removed: CompositeNotifier<N>,
    name: Seq<char>,
    notifier: N,
)
    requires
        before.wf(),
        added.wf(),
        added.map() == before.map().insert(name, notifier),
        removed.map() == added.map().remove(name),
    ensures
        added.names().contains(name),
        added.map().get(name) == Some(notifier),
        !before.map().contains_key(name) ==> removed.map() == before.map(),
{
    assert(added.map().dom().contains(name));
    assert(added.names().to_set().contains(name));
    if !before.map().contains_key(name) {
        assert(removed.map() =~= before.map());
    }
}

} // verus!
