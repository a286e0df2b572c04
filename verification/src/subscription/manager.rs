//! The store of subscriptions, keyed by their criteria's identifiers.

use vstd::prelude::*;
use crate::keyed::{KeyedStore, has_key, keys_of, lemma_assoc_map_at, unique_keys};
use crate::text::strings_view;
use crate::subscription::{Subscription, SubscriptionCriteria, always_gives_id, answers_match, gives_id};

verus! {

/// The items of `items` whose decision in `decisions` is `true`, in order.
pub open spec fn chosen_by<T>(items: Seq<T>, decisions: Seq<bool>) -> Seq<T>
    decreases items.len(),
{
    if items.len() == 0 || decisions.len() != items.len() {
        Seq::empty()
    } else if decisions.last() {
        chosen_by(items.drop_last(), decisions.drop_last()).push(items.last())
    } else {
        chosen_by(items.drop_last(), decisions.drop_last())
    }
}

/// `decisions` holds, for each subscription of `subs`, an answer that its
/// criteria's `matches` can give for `content`.
pub open spec fn match_answers<C: SubscriptionCriteria>(subs: Seq<Subscription<C>>, content: C::Content, decisions: Seq<bool>) -> bool {
    &&& decisions.len() == subs.len()
    &&& forall|i: int| 0 <= i < subs.len() ==> #[trigger] answers_match(subs[i].criteria, content, decisions[i])
}

/// `matching` is what filtering `subs` by their criteria's answers for
/// `content` gives: some answers of theirs, and the subscriptions answered yes.
pub open spec fn selects_matching<C: SubscriptionCriteria>(subs: Seq<Subscription<C>>, content: C::Content, matching: Seq<Subscription<C>>) -> bool {
    exists|d: Seq<bool>| match_answers(subs, content, d) && matching == chosen_by(subs, d)
}

/// The predicate "the entry's subscription belongs to `user`".
pub open spec fn owned_by<C>(user: Seq<char>) -> spec_fn((Seq<char>, Subscription<C>)) -> bool {
    |e: (Seq<char>, Subscription<C>)| e.1.user_id@ == user
}

/// Manages a collection of subscriptions; one subscription per criteria identifier.
pub struct SubscriptionManager<C> {
    subscriptions: KeyedStore<Subscription<C>>,
}

impl<C: SubscriptionCriteria> SubscriptionManager<C> {
    /// The subscriptions by criteria identifier.
    pub closed spec fn map(&self) -> Map<Seq<char>, Subscription<C>> {
        self.subscriptions.map()
    }

    /// The pairs (identifier, subscription), in the order in which the
    /// identifiers were first added.
    pub closed spec fn entries(&self) -> Seq<(Seq<char>, Subscription<C>)> {
        self.subscriptions.assoc()
    }

    /// The subscriptions in the manager's order.
    pub open spec fn ordered(&self) -> Seq<Subscription<C>> {
        self.entries().map_values(|e: (Seq<char>, Subscription<C>)| e.1)
    }

    /// The manager's invariant: no identifier occurs twice, and each
    /// subscription is kept under an identifier that its criteria give.
    pub closed spec fn wf(&self) -> bool {
        &&& self.subscriptions.wf()
        &&& forall|k: Seq<char>| #[trigger] self.subscriptions.map().contains_key(k) ==> gives_id(
            self.subscriptions.map()[k].criteria,
            k,
        )
    }

    /// Creates an empty subscription manager.
    pub fn new() -> (m: Self)
        ensures
            m.wf(),
            m.map() == Map::<Seq<char>, Subscription<C>>::empty(),
            m.entries() == Seq::<(Seq<char>, Subscription<C>)>::empty(),
    {
        let m = SubscriptionManager { subscriptions: KeyedStore::new() };
        assert(m.subscriptions.map() =~= Map::<Seq<char>, Subscription<C>>::empty());
        m
    }

    /// Adds a subscription under its criteria's identifier, replacing any
    /// subscription with the same identifier.
    pub fn add_subscription(&mut self, subscription: Subscription<C>)
        requires
            old(self).wf(),
        ensures
            final(self).wf(),
            exists|id: Seq<char>|
                gives_id(subscription.criteria, id) && final(self).map() == old(self).map().insert(
                    id,
                    subscription,
                ),
            forall|key: Seq<char>|
                always_gives_id(subscription.criteria, key) ==> final(self).map() == old(self).map().insert(
                    key,
                    subscription,
                ),
    {
        let key_ref = subscription.criteria.id();
        let key = key_ref.clone();
        let ghost sub = subscription;
        let ghost k = key@;
        self.subscriptions.insert(key, subscription);
        assert(gives_id(sub.criteria, k));
        assert forall|key: Seq<char>| always_gives_id(sub.criteria, key) implies self.map() == old(self).map().insert(
            key,
            sub,
        ) by {
            assert(call_ensures(C::id, (&sub.criteria,), key_ref));
        }
        assert forall|j: Seq<char>| #[trigger] self.subscriptions.map().contains_key(j) implies gives_id(
            self.subscriptions.map()[j].criteria,
            j,
        ) by {
            if j != k {
                assert(old(self).subscriptions.map().contains_key(j));
            }
        }
    }

    /// Removes the subscription with criteria identifier `id` and returns it.
    pub fn remove_subscription(&mut self, id: &String) -> (removed: Option<Subscription<C>>)
        requires
            old(self).wf(),
        ensures
            final(self).wf(),
            final(self).map() == old(self).map().remove(id@),
            removed == old(self).map().get(id@),
    {
        let removed = self.subscriptions.remove(id);
        assert forall|j: Seq<char>| #[trigger] self.subscriptions.map().contains_key(j) implies gives_id(
            self.subscriptions.map()[j].criteria,
            j,
        ) by {
            assert(old(self).subscriptions.map().contains_key(j));
        }
        removed
    }

    /// The subscription with criteria identifier `id`, if any.
    pub fn get_subscription(&self, id: &String) -> (found: Option<&Subscription<C>>)
        requires
            self.wf(),
        ensures
            match found {
                Some(s) => self.map().contains_key(id@) && *s == self.map()[id@],
                None => !self.map().contains_key(id@),
            },
    {
        self.subscriptions.get(id)
    }

    /// All subscriptions.
    pub fn get_subscriptions(&self) -> (all: &KeyedStore<Subscription<C>>)
        requires
            self.wf(),
        ensures
            all.wf(),
            all.map() == self.map(),
            all.assoc() == self.entries(),
    {
        &self.subscriptions
    }

    /// The subscriptions whose criteria accept `content`, in the manager's order.
    pub fn get_matching_subscriptions(&self, content: &C::Content) -> (matching: Vec<&Subscription<C>>)
        requires
            self.wf(),
        ensures
            selects_matching(self.ordered(), *content, matching@.map_values(|r: &Subscription<C>| *r)),
    {
        let all = self.subscriptions.values();
        let ghost ord = self.ordered();
        let ghost mut decisions: Seq<bool> = Seq::empty();
        let mut matching: Vec<&Subscription<C>> = Vec::new();
        let mut i: usize = 0;
        while i < all.len()
            invariant
                i <= all@.len(),
                all@.len() == ord.len(),
                ord == self.ordered(),
                forall|j: int| 0 <= j < all@.len() ==> *all@[j] == ord[j],
                match_answers(ord.take(i as int), *content, decisions),
                matching@.map_values(|r: &Subscription<C>| *r) == chosen_by(ord.take(i as int), decisions),
            decreases all@.len() - i,
        {
            let s = all[i];
            let ghost prev = matching@;
            let accepted = s.criteria.matches(content);
            proof {
                assert(ord.take(i + 1).drop_last() =~= ord.take(i as int));
                assert(ord.take(i + 1).last() == *s);
                let d2 = decisions.push(accepted);
                assert(d2.drop_last() =~= decisions);
                assert forall|j: int| 0 <= j < i + 1 implies #[trigger] answers_match(
                    ord.take(i + 1)[j].criteria,
                    *content,
                    d2[j],
                ) by {
                    if j < i {
                        assert(ord.take(i + 1)[j] == ord.take(i as int)[j]);
                    }
                }
                decisions = d2;
            }
            if accepted {
                matching.push(s);
                proof {
                    assert(matching@.map_values(|r: &Subscription<C>| *r) =~= prev.map_values(
                        |r: &Subscription<C>| *r,
                    ).push(*s));
                }
            }
            i = i + 1;
        }
        proof {
            assert(ord.take(all@.len() as int) =~= ord);
        }
        matching
    }

    /// The criteria identifiers of the subscriptions of `user_id`, in the manager's order.
    pub fn get_user_subscriptions(&self, user_id: &str) -> (ids: Vec<String>)
        requires
            self.wf(),
        ensures
            ids@.map_values(|s: String| s@) == self.entries().filter(owned_by::<C>(user_id@)).map_values(
                |e: (Seq<char>, Subscription<C>)| e.0,
            ),
            strings_view(ids@).no_duplicates(),
            forall|id: Seq<char>|
                #[trigger] strings_view(ids@).contains(id) <==> (self.map().contains_key(id)
                    && self.map()[id].user_id@ == user_id@),
    {
        let keys = self.subscriptions.keys();
        let all = self.subscriptions.values();
        let user = String::from_str(user_id);
        let ghost es = self.entries();
        let ghost f = owned_by::<C>(user_id@);
        proof {
            assert forall|j: int| 0 <= j < keys@.len() implies #[trigger] keys@[j]@ == es[j].0 by {
                assert(keys@.map_values(|k: String| k@)[j] == self.subscriptions.key_order()[j]);
            }
        }
        let mut ids: Vec<String> = Vec::new();
        let mut i: usize = 0;
        while i < all.len()
            invariant
                i <= all@.len(),
                all@.len() == es.len(),
                keys@.len() == es.len(),
                es == self.entries(),
                user@ == user_id@,
                f == owned_by::<C>(user_id@),
                forall|j: int| 0 <= j < all@.len() ==> *all@[j] == es[j].1,
                forall|j: int| 0 <= j < keys@.len() ==> #[trigger] keys@[j]@ == es[j].0,
                ids@.map_values(|s: String| s@) == es.take(i as int).filter(f).map_values(
                    |e: (Seq<char>, Subscription<C>)| e.0,
                ),
            decreases all@.len() - i,
        {
            let s = all[i];
            let ghost prev = ids@;
            proof {
                reveal_with_fuel(Seq::filter, 1);
                assert(es.take(i + 1).drop_last() =~= es.take(i as int));
                assert(es.take(i + 1).last() == es[i as int]);
            }
            if s.user_id == user {
                let id = keys[i].clone();
                ids.push(id);
                proof {
                    let fl = es.take(i as int).filter(f);
                    assert(es.take(i + 1).filter(f) == fl.push(es[i as int]));
                    assert(fl.push(es[i as int]).map_values(|e: (Seq<char>, Subscription<C>)| e.0)
                        =~= fl.map_values(|e: (Seq<char>, Subscription<C>)| e.0).push(es[i as int].0));
                    assert(ids@.map_values(|t: String| t@) =~= prev.map_values(|t: String| t@).push(
                        id@,
                    ));
                }
            }
            i = i + 1;
        }
        proof {
            assert(es.take(all@.len() as int) =~= es);
            lemma_filter_unique_keys(es, f);
            assert(strings_view(ids@) == ids@.map_values(|s: String| s@));
            assert forall|id: Seq<char>|
                #[trigger] strings_view(ids@).contains(id) <==> (self.map().contains_key(id)
                    && self.map()[id].user_id@ == user_id@) by {
                lemma_owned_ids(self, user_id@, id);
            }
        }
        ids
    }
}

/// Filtering an association list without repeated keys keeps its keys apart.
proof fn lemma_filter_unique_keys<V>(s: Seq<(Seq<char>, V)>, f: spec_fn((Seq<char>, V)) -> bool)
    requires
        unique_keys(s),
    ensures
        unique_keys(s.filter(f)),
        keys_of(s.filter(f)).no_duplicates(),
    decreases s.len(),
{
    reveal_with_fuel(Seq::filter, 1);
    if s.len() > 0 {
        let rest = s.drop_last();
        let last = s.last();
        lemma_filter_unique_keys(rest, f);
        if f(last) {
            let fl = rest.filter(f);
            assert forall|i: int| 0 <= i < fl.len() implies #[trigger] fl[i].0 != last.0 by {
                assert(fl.contains(fl[i]));
                rest.lemma_filter_contains_rev(f, fl[i]);
                let j = choose|j: int| 0 <= j < rest.len() && rest[j] == fl[i];
                assert(s[j] == rest[j]);
                assert(s[s.len() - 1] == last);
            }
        }
    }
    let kf = keys_of(s.filter(f));
    assert forall|i: int, j: int| 0 <= i < kf.len() && 0 <= j < kf.len() && i != j implies kf[i] != kf[j] by {}
}

/// An identifier is listed for `user` exactly when the manager holds a
/// subscription of that user under it.
proof fn lemma_owned_ids<C: SubscriptionCriteria>(m: &SubscriptionManager<C>, user: Seq<char>, id: Seq<char>)
    requires
        m.wf(),
    ensures
        m.entries().filter(owned_by::<C>(user)).map_values(|e: (Seq<char>, Subscription<C>)| e.0).contains(id)
            <==> (m.map().contains_key(id) && m.map()[id].user_id@ == user),
{
    let es = m.entries();
    let f = owned_by::<C>(user);
    let fl = es.filter(f);
    let ids = fl.map_values(|e: (Seq<char>, Subscription<C>)| e.0);
    es.filter_lemma(f);
    if ids.contains(id) {
        let j = choose|j: int| 0 <= j < ids.len() && ids[j] == id;
        assert(fl[j].0 == id);
        assert(f(fl[j]));
        assert(fl.contains(fl[j]));
        es.lemma_filter_contains_rev(f, fl[j]);
        let i = choose|i: int| 0 <= i < es.len() && es[i] == fl[j];
        lemma_assoc_map_at(es, i);
    }
    if m.map().contains_key(id) && m.map()[id].user_id@ == user {
        assert(has_key(es, id));
        let i = choose|i: int| 0 <= i < es.len() && es[i].0 == id;
        lemma_assoc_map_at(es, i);
        assert(f(es[i]));
        assert(fl.contains(es[i]));
        let j = choose|j: int| 0 <= j < fl.len() && fl[j] == es[i];
        assert(ids[j] == id);
    }
}

/// Adding a subscription under the identifier its criteria gave, then looking
/// that identifier up, finds the subscription; every other identifier finds
/// what it found before.
pub proof fn law_get_after_add<C: SubscriptionCriteria>(
    before: SubscriptionManager<C>,
    after: SubscriptionManager<C>,
    subscription: Subscription<C>,
    id: Seq<char>,
)
    requires
        after.map() == before.map().insert(id, subscription),
    ensures
        after.map().get(id) == Some(subscription),
        forall|other: Seq<char>| other != id ==> #[trigger] after.map().get(other) == before.map().get(other),
{
}

/// After removing an identifier, looking it up finds nothing, and the removal
/// handed back what a lookup before it would have found; other identifiers are
/// unaffected.
pub proof fn law_get_after_remove<C: SubscriptionCriteria>(
    before: SubscriptionManager<C>,
    after: SubscriptionManager<C>,
    id: Seq<char>,
    removed: Option<Subscription<C>>,
)
    requires
        after.map() == before.map().remove(id),
        removed == before.map().get(id),
    ensures
        after.map().get(id) is None,
        removed is Some <==> before.map().contains_key(id),
        forall|other: Seq<char>| other != id ==> #[trigger] after.map().get(other) == before.map().get(other),
{
}

/// Removing the identifier of a subscription that was just added under a new
/// identifier gives back the manager's previous contents.
pub proof fn law_remove_undoes_add<C: SubscriptionCriteria>(
    before: SubscriptionManager<C>,
    added: SubscriptionManager<C>,
    removed: SubscriptionManager<C>,
    subscription: Subscription<C>,
    id: Seq<char>,
)
    requires
        !before.map().contains_key(id),
        added.map() == before.map().insert(id, subscription),
        removed.map() == added.map().remove(id),
    ensures
        removed.map() == before.map(),
{
    assert(removed.map() =~= before.map());
}

/// Every subscription of a manager is kept under an identifier that its
/// criteria's `id` gives; for criteria whose `id` always gives one answer,
/// that answer is the key.
pub proof fn law_keys_are_criteria_ids<C: SubscriptionCriteria>(m: SubscriptionManager<C>, k: Seq<char>)
    requires
        m.wf(),
        m.map().contains_key(k),
    ensures
        gives_id(m.map()[k].criteria, k),
        forall|key: Seq<char>| always_gives_id(m.map()[k].criteria, key) ==> key == k,
{
    let crit = m.map()[k].criteria;
    assert(m.subscriptions.map().contains_key(k));
    let r = choose|r: &String| call_ensures(C::id, (&crit,), r) && r@ == k;
    assert forall|key: Seq<char>| always_gives_id(crit, key) implies key == k by {
        assert(call_ensures(C::id, (&crit,), r));
    }
}

/// Criteria whose `matches` always answers `accept(c, content)` select exactly
/// the subscriptions for which `accept` holds, in the manager's order.
pub proof fn law_deterministic_matching<C: SubscriptionCriteria>(
    subs: Seq<Subscription<C>>,
    content: C::Content,
    matching: Seq<Subscription<C>>,
    accept: spec_fn(C, C::Content) -> bool,
)
    requires
        forall|c: C, b: bool| #[trigger] answers_match(c, content, b) ==> b == accept(c, content),
        selects_matching(subs, content, matching),
    ensures
        matching == subs.filter(|s: Subscription<C>| accept(s.criteria, content)),
{
    let d = choose|d: Seq<bool>| match_answers(subs, content, d) && matching == chosen_by(subs, d);
    lemma_chosen_is_filter(subs, content, d, accept);
}

proof fn lemma_chosen_is_filter<C: SubscriptionCriteria>(
    subs: Seq<Subscription<C>>,
    content: C::Content,
    d: Seq<bool>,
    accept: spec_fn(C, C::Content) -> bool,
)
    requires
        forall|c: C, b: bool| #[trigger] answers_match(c, content, b) ==> b == accept(c, content),
        match_answers(subs, content, d),
    ensures
        chosen_by(subs, d) == subs.filter(|s: Subscription<C>| accept(s.criteria, content)),
    decreases subs.len(),
{
    reveal_with_fuel(Seq::filter, 1);
    if subs.len() > 0 {
        let rest = subs.drop_last();
        let dr = d.drop_last();
        assert forall|i: int| 0 <= i < rest.len() implies #[trigger] answers_match(rest[i].criteria, content, dr[i]) by {
            assert(answers_match(subs[i].criteria, content, d[i]));
        }
        lemma_chosen_is_filter(rest, content, dr, accept);
        assert(answers_match(subs[subs.len() - 1].criteria, content, d[subs.len() - 1]));
    }
}

impl<C: SubscriptionCriteria> Default for SubscriptionManager<C> {
    fn default() -> (m: Self)
        ensures
            m.wf(),
            m.map() == Map::<Seq<char>, Subscription<C>>::empty(),
    {
        Self::new()
    }
}

} // verus!
