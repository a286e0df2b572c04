//! The notifiers registered for each user, and the plan of which notifier
//! receives which notification when new content arrives.

use vstd::prelude::*;
use crate::keyed::{assoc_map, differs, has_key, KeyedStore, lemma_assoc_map_at};
use crate::subscription::{Subscription, SubscriptionCriteria, answers_match};
use crate::subscription::manager::{SubscriptionManager, selects_matching, law_deterministic_matching};

verus! {

/// A notifier together with the name it had when it was registered.
pub struct NamedNotifier<N> {
    pub name: String,
    pub notifier: N,
}

/// A notifier entry by its name's characters.
pub open spec fn entry_view<N>(e: NamedNotifier<N>) -> (Seq<char>, N) {
    (e.name@, e.notifier)
}

/// The entries of a list of named notifiers.
pub open spec fn entries_view<N>(v: Seq<NamedNotifier<N>>) -> Seq<(Seq<char>, N)> {
    v.map_values(|e: NamedNotifier<N>| entry_view(e))
}

/// The predicate "the entry's name is not `name`".
pub open spec fn named_otherwise<N>(name: Seq<char>) -> spec_fn((Seq<char>, N)) -> bool {
    |e: (Seq<char>, N)| e.0 != name
}

/// The names left after dropping the entries named `name` are the names other
/// than `name`, in order.
pub proof fn lemma_names_filter<N>(s: Seq<(Seq<char>, N)>, name: Seq<char>)
    ensures
        s.filter(named_otherwise::<N>(name)).map_values(|e: (Seq<char>, N)| e.0) == s.map_values(
            |e: (Seq<char>, N)| e.0,
        ).filter(differs(name)),
    decreases s.len(),
{
    reveal_with_fuel(Seq::filter, 1);
    if s.len() > 0 {
        let rest = s.drop_last();
        lemma_names_filter(rest, name);
        let ns = s.map_values(|e: (Seq<char>, N)| e.0);
        assert(ns.drop_last() =~= rest.map_values(|e: (Seq<char>, N)| e.0));
        assert(ns.last() == s.last().0);
        let fr = rest.filter(named_otherwise::<N>(name));
        if s.last().0 != name {
            assert(fr.push(s.last()).map_values(|e: (Seq<char>, N)| e.0) =~= fr.map_values(
                |e: (Seq<char>, N)| e.0,
            ).push(s.last().0));
        }
    } else {
        assert(s.map_values(|e: (Seq<char>, N)| e.0) =~= Seq::<Seq<char>>::empty());
    }
}

/// How many times `x` occurs in `s`.
pub open spec fn occurrences<A>(s: Seq<A>, x: A) -> nat
    decreases s.len(),
{
    if s.len() == 0 {
        0
    } else {
        occurrences(s.drop_last(), x) + if s.last() == x {
            1nat
        } else {
            0nat
        }
    }
}

/// The total number of notifiers of the listed users, counting a user once per listing.
pub open spec fn notifier_total<N>(r: &NotifierRegistry<N>, users: Seq<Seq<char>>) -> nat
    decreases users.len(),
{
    if users.len() == 0 {
        0
    } else {
        notifier_total(r, users.drop_last()) + r.notifiers_of(users.last()).len()
    }
}

/// Occurrences in a concatenation add up.
pub proof fn lemma_occurrences_concat<A>(a: Seq<A>, b: Seq<A>, x: A)
    ensures
        occurrences(a + b, x) == occurrences(a, x) + occurrences(b, x),
    decreases b.len(),
{
    if b.len() == 0 {
        assert(a + b =~= a);
    } else {
        lemma_occurrences_concat(a, b.drop_last(), x);
        assert((a + b).drop_last() =~= a + b.drop_last());
        assert((a + b).last() == b.last());
    }
}

/// The pairs `(v, 0)` to `(v, n - 1)` hold `(u, i)` once when it is one of them, else never.
pub proof fn lemma_occurrences_indexed(n: nat, v: Seq<char>, u: Seq<char>, i: int)
    ensures
        occurrences(Seq::new(n, |k: int| (v, k)), (u, i)) == if u == v && 0 <= i < n {
            1nat
        } else {
            0nat
        },
    decreases n,
{
    if n > 0 {
        let m = (n - 1) as nat;
        lemma_occurrences_indexed(m, v, u, i);
        assert(Seq::new(n, |k: int| (v, k)).drop_last() =~= Seq::new(m, |k: int| (v, k)));
    }
}

/// Filtering by a predicate that holds of every item changes nothing.
proof fn lemma_filter_keeps_all<T>(s: Seq<T>, f: spec_fn(T) -> bool)
    requires
        forall|i: int| 0 <= i < s.len() ==> #[trigger] f(s[i]),
    ensures
        s.filter(f) == s,
    decreases s.len(),
{
    reveal_with_fuel(Seq::filter, 1);
    if s.len() > 0 {
        assert forall|i: int| 0 <= i < s.drop_last().len() implies #[trigger] f(s.drop_last()[i]) by {
            assert(s.drop_last()[i] == s[i]);
        }
        lemma_filter_keeps_all(s.drop_last(), f);
        assert(f(s[s.len() - 1]));
        assert(s.drop_last().push(s.last()) =~= s);
    } else {
        assert(s.filter(f) =~= s);
    }
}

/// One delivery: the notifier at `notifier_index` among those of `user_id`
/// receives a notification for that user.
pub struct Delivery {
    pub user_id: String,
    pub notifier_index: usize,
}

/// A delivery by its user's characters and the index.
pub open spec fn delivery_view(d: Delivery) -> (Seq<char>, int) {
    (d.user_id@, d.notifier_index as int)
}

/// The notifiers of each user. A user is listed only while they have at least
/// one notifier; a user's notifiers keep the order in which they were added.
pub struct NotifierRegistry<N> {
    users: KeyedStore<Vec<NamedNotifier<N>>>,
}

impl<N> NotifierRegistry<N> {
    /// The notifiers of `user`, in order (empty for a user with none).
    pub closed spec fn notifiers_of(&self, user: Seq<char>) -> Seq<(Seq<char>, N)> {
        if self.users.map().contains_key(user) {
            entries_view(self.users.map()[user]@)
        } else {
            Seq::empty()
        }
    }

    /// The users who have notifiers.
    pub closed spec fn users(&self) -> Set<Seq<char>> {
        self.users.map().dom()
    }

    /// The registry's invariant: no user is listed twice, and every listed user
    /// has at least one notifier.
    pub closed spec fn wf(&self) -> bool {
        &&& self.users.wf()
        &&& forall|u: Seq<char>| #[trigger] self.users.map().contains_key(u) ==> self.users.map()[u]@.len() > 0
    }

    /// The names of the notifiers of `user`, in order.
    pub open spec fn names_of(&self, user: Seq<char>) -> Seq<Seq<char>> {
        self.notifiers_of(user).map_values(|e: (Seq<char>, N)| e.0)
    }

    /// The deliveries for notifying `users` in turn: for each user, one delivery
    /// per notifier of theirs, in the notifiers' order.
    pub open spec fn plan_for(&self, users: Seq<Seq<char>>) -> Seq<(Seq<char>, int)>
        decreases users.len(),
    {
        if users.len() == 0 {
            Seq::empty()
        } else {
            self.plan_for(users.drop_last()) + Seq::new(
                self.notifiers_of(users.last()).len(),
                |i: int| (users.last(), i),
            )
        }
    }

    /// Each notifier is sent a notification once per time its user is listed:
    /// the plan holds `(u, i)` as many times as `users` lists `u`, for each
    /// notifier `i` of `u`, and never for any other index; and the plan's
    /// length is the total of the listed users' notifier counts.
    pub proof fn law_one_delivery_per_listing(&self, users: Seq<Seq<char>>, u: Seq<char>, i: int)
        ensures
            occurrences(self.plan_for(users), (u, i)) == if 0 <= i < self.notifiers_of(u).len() {
                occurrences(users, u)
            } else {
                0
            },
            self.plan_for(users).len() == notifier_total(self, users),
        decreases users.len(),
    {
        if users.len() > 0 {
            let rest = users.drop_last();
            let last = users.last();
            self.law_one_delivery_per_listing(rest, u, i);
            let n = self.notifiers_of(last).len();
            let tail = Seq::new(n, |k: int| (last, k));
            assert(self.plan_for(users) == self.plan_for(rest) + tail);
            lemma_occurrences_concat(self.plan_for(rest), tail, (u, i));
            lemma_occurrences_indexed(n, last, u, i);
        }
    }

    /// Every delivery of a plan goes to an existing notifier of one of the
    /// users; and every notifier of every one of the users receives a delivery.
    pub proof fn law_plan_reaches_exactly_the_users_notifiers(&self, users: Seq<Seq<char>>)
        ensures
            forall|k: int|
                0 <= k < self.plan_for(users).len() ==> {
                    let (u, i) = #[trigger] self.plan_for(users)[k];
                    &&& users.contains(u)
                    &&& 0 <= i < self.notifiers_of(u).len()
                },
            forall|u: Seq<char>, i: int|
                users.contains(u) && 0 <= i < self.notifiers_of(u).len() ==> #[trigger] self.plan_for(
                    users,
                ).contains((u, i)),
        decreases users.len(),
    {
        if users.len() > 0 {
            let rest = users.drop_last();
            let last = users.last();
            self.law_plan_reaches_exactly_the_users_notifiers(rest);
            let head = self.plan_for(rest);
            let tail = Seq::new(self.notifiers_of(last).len(), |i: int| (last, i));
            assert(self.plan_for(users) == head + tail);
            assert forall|k: int| 0 <= k < self.plan_for(users).len() implies {
                let (u, i) = #[trigger] self.plan_for(users)[k];
                &&& users.contains(u)
                &&& 0 <= i < self.notifiers_of(u).len()
            } by {
                if k < head.len() {
                    assert(self.plan_for(users)[k] == head[k]);
                    let u = head[k].0;
                    assert(rest.contains(u));
                    let j = choose|j: int| 0 <= j < rest.len() && rest[j] == u;
                    assert(users[j] == u);
                } else {
                    assert(self.plan_for(users)[k] == tail[k - head.len()]);
                    assert(users[users.len() - 1] == last);
                }
            }
            assert forall|u: Seq<char>, i: int|
                users.contains(u) && 0 <= i < self.notifiers_of(u).len() implies #[trigger] self.plan_for(
                users,
            ).contains((u, i)) by {
                let j = choose|j: int| 0 <= j < users.len() && users[j] == u;
                if j < rest.len() {
                    assert(rest[j] == u);
                    assert(rest.contains(u));
                    assert(head.contains((u, i)));
                    let k = choose|k: int| 0 <= k < head.len() && head[k] == (u, i);
                    assert(self.plan_for(users)[k] == (u, i));
                } else {
                    assert(u == last);
                    assert(self.plan_for(users)[head.len() + i] == tail[i]);
                }
            }
        }
    }

    /// Adding a notifier for a user and then listing that user's notifiers gives
    /// the names listed before, followed by the new one.
    pub proof fn law_names_after_add(&self, after: &Self, user: Seq<char>, name: Seq<char>, notifier: N)
        requires
            after.notifiers_of(user) == self.notifiers_of(user).push((name, notifier)),
        ensures
            after.names_of(user) == self.names_of(user).push(name),
    {
        assert(after.names_of(user) =~= self.names_of(user).push(name));
    }

    /// After removing a user's notifiers named `name`, none of that user's
    /// notifiers has that name, and the others keep their order.
    pub proof fn law_name_gone_after_remove(&self, after: &Self, user: Seq<char>, name: Seq<char>)
        requires
            after.notifiers_of(user) == self.notifiers_of(user).filter(named_otherwise::<N>(name)),
        ensures
            !after.names_of(user).contains(name),
            forall|i: int| 0 <= i < after.notifiers_of(user).len() ==> self.notifiers_of(user).contains(
                #[trigger] after.notifiers_of(user)[i],
            ),
    {
        let kept = self.notifiers_of(user).filter(named_otherwise::<N>(name));
        if after.names_of(user).contains(name) {
            let i = choose|i: int| 0 <= i < after.names_of(user).len() && after.names_of(user)[i] == name;
            assert(kept.contains(kept[i]));
            self.notifiers_of(user).filter_lemma(named_otherwise::<N>(name));
        }
        self.notifiers_of(user).filter_lemma(named_otherwise::<N>(name));
        assert forall|i: int| 0 <= i < after.notifiers_of(user).len() implies self.notifiers_of(user).contains(
            #[trigger] after.notifiers_of(user)[i],
        ) by {
            assert(kept.contains(kept[i]));
            self.notifiers_of(user).lemma_filter_contains_rev(named_otherwise::<N>(name), kept[i]);
        }
    }

    /// Removing a notifier that was just added under a name the user did not use
    /// gives back the user's previous notifiers.
    pub proof fn law_remove_undoes_add(&self, added: &Self, removed: &Self, user: Seq<char>, name: Seq<char>, notifier: N)
        requires
            !self.names_of(user).contains(name),
            added.notifiers_of(user) == self.notifiers_of(user).push((name, notifier)),
            removed.notifiers_of(user) == added.notifiers_of(user).filter(named_otherwise::<N>(name)),
        ensures
            removed.notifiers_of(user) == self.notifiers_of(user),
    {
        let before = self.notifiers_of(user);
        let f = named_otherwise::<N>(name);
        reveal_with_fuel(Seq::filter, 1);
        assert(before.push((name, notifier)).drop_last() =~= before);
        assert forall|i: int| 0 <= i < before.len() implies #[trigger] f(before[i]) by {
            assert(self.names_of(user)[i] == before[i].0);
        }
        lemma_filter_keeps_all(before, f);
    }

    /// Who is notified of new content: where the criteria's `matches` always
    /// answers `accept`, the plan for the matching subscriptions reaches
    /// notifier `i` of user `u` exactly when some subscription of `u` accepts
    /// the content and `u` has a notifier at `i`.
    pub proof fn law_notified_iff_a_subscription_matches<C: SubscriptionCriteria>(
        &self,
        subs: Seq<Subscription<C>>,
        content: C::Content,
        matching: Seq<Subscription<C>>,
        accept: spec_fn(C, C::Content) -> bool,
        u: Seq<char>,
        i: int,
    )
        requires
            forall|c: C, b: bool| #[trigger] answers_match(c, content, b) ==> b == accept(c, content),
            selects_matching(subs, content, matching),
        ensures
            self.plan_for(matching.map_values(|s: Subscription<C>| s.user_id@)).contains((u, i)) <==> (
            (exists|k: int| 0 <= k < subs.len() && #[trigger] subs[k].user_id@ == u && accept(subs[k].criteria, content))
                && 0 <= i < self.notifiers_of(u).len()),
    {
        let pred = |s: Subscription<C>| accept(s.criteria, content);
        law_deterministic_matching(subs, content, matching, accept);
        let users = matching.map_values(|s: Subscription<C>| s.user_id@);
        self.law_plan_reaches_exactly_the_users_notifiers(users);
        let plan = self.plan_for(users);
        assert(matching == subs.filter(pred));
        if plan.contains((u, i)) {
            let k = choose|k: int| 0 <= k < plan.len() && plan[k] == (u, i);
            assert(plan[k] == (u, i));
            assert(users.contains(u));
            let j = choose|j: int| 0 <= j < users.len() && users[j] == u;
            let s = matching[j];
            assert(s.user_id@ == u);
            subs.filter_lemma(pred);
            assert(pred(subs.filter(pred)[j]));
            assert(subs.filter(pred).contains(s));
            subs.lemma_filter_contains_rev(pred, s);
            let m = choose|m: int| 0 <= m < subs.len() && subs[m] == s;
            assert(subs[m].user_id@ == u && accept(subs[m].criteria, content));
        }
        if (exists|k: int| 0 <= k < subs.len() && #[trigger] subs[k].user_id@ == u && accept(subs[k].criteria, content))
            && 0 <= i < self.notifiers_of(u).len() {
            let k = choose|k: int| 0 <= k < subs.len() && #[trigger] subs[k].user_id@ == u && accept(subs[k].criteria, content);
            subs.filter_lemma(pred);
            assert(pred(subs[k]));
            assert(matching.contains(subs[k]));
            let j = choose|j: int| 0 <= j < matching.len() && matching[j] == subs[k];
            assert(users[j] == u);
            assert(users.contains(u));
        }
    }

    /// A user is listed exactly when they have at least one notifier.
    pub proof fn law_listed_iff_has_notifiers(&self, user: Seq<char>)
        requires
            self.wf(),
        ensures
            self.users().contains(user) <==> self.notifiers_of(user).len() > 0,
    {
    }

    /// An empty registry.
    pub fn new() -> (r: Self)
        ensures
            r.wf(),
            r.users() == Set::<Seq<char>>::empty(),
            forall|u: Seq<char>| r.notifiers_of(u) == Seq::<(Seq<char>, N)>::empty(),
    {
        let r = NotifierRegistry { users: KeyedStore::new() };
        assert(r.users() =~= Set::<Seq<char>>::empty());
        r
    }

    /// Adds `notifier`, named `name`, after the notifiers of `user_id`.
    pub fn add_notifier(&mut self, user_id: String, name: String, notifier: N)
        requires
            old(self).wf(),
        ensures
            final(self).wf(),
            final(self).users() == old(self).users().insert(user_id@),
            final(self).notifiers_of(user_id@) == old(self).notifiers_of(user_id@).push(
                (name@, notifier),
            ),
            forall|u: Seq<char>|
                u != user_id@ ==> #[trigger] final(self).notifiers_of(u) == old(self).notifiers_of(u),
            final(self).names_of(user_id@) == old(self).names_of(user_id@).push(name@),
            forall|u: Seq<char>| u != user_id@ ==> #[trigger] final(self).names_of(u) == old(self).names_of(u),
    {
        let ghost before = self.users.map();
        let ghost e = (name@, notifier);
        let entry = NamedNotifier { name, notifier };
        match self.users.remove(&user_id) {
            Some(mut list) => {
                let ghost prev = list@;
                list.push(entry);
                proof {
                    assert(entries_view(list@) =~= entries_view(prev).push(e));
                }
                self.users.insert(user_id, list);
            },
            None => {
                let list = vec![entry];
                proof {
                    assert(entries_view(list@) =~= seq![e]);
                    assert(seq![e] =~= Seq::<(Seq<char>, N)>::empty().push(e));
                }
                self.users.insert(user_id, list);
            },
        }
        proof {
            assert(self.users() =~= old(self).users().insert(user_id@));
            old(self).law_names_after_add(self, user_id@, name@, notifier);
            assert forall|u: Seq<char>| u != user_id@ implies #[trigger] self.names_of(u) == old(self).names_of(u) by {
                assert(self.notifiers_of(u) == old(self).notifiers_of(u));
            }
        }
    }

    /// Removes every notifier of `user_id` named `notifier_name`; a user left
    /// without notifiers is no longer listed.
    pub fn remove_notifier(&mut self, user_id: &str, notifier_name: &str)
        requires
            old(self).wf(),
        ensures
            final(self).wf(),
            final(self).notifiers_of(user_id@) == old(self).notifiers_of(user_id@).filter(
                named_otherwise::<N>(notifier_name@),
            ),
            final(self).users() == if final(self).notifiers_of(user_id@).len() == 0 {
                old(self).users().remove(user_id@)
            } else {
                old(self).users()
            },
            forall|u: Seq<char>|
                u != user_id@ ==> #[trigger] final(self).notifiers_of(u) == old(self).notifiers_of(u),
            final(self).names_of(user_id@) == old(self).names_of(user_id@).filter(differs(notifier_name@)),
            forall|u: Seq<char>| u != user_id@ ==> #[trigger] final(self).names_of(u) == old(self).names_of(u),
    {
        proof {
            lemma_names_filter(old(self).notifiers_of(user_id@), notifier_name@);
        }
        let user = String::from_str(user_id);
        let name = String::from_str(notifier_name);
        match self.users.remove(&user) {
            Some(list) => {
                let kept = Self::without_name(list, &name);
                if kept.len() > 0 {
                    self.users.insert(user, kept);
                    proof {
                        assert(self.users() =~= old(self).users());
                    }
                } else {
                    proof {
                        assert(self.users() =~= old(self).users().remove(user_id@));
                    }
                }
            },
            None => {
                proof {
                    assert(Seq::<(Seq<char>, N)>::empty().filter(named_otherwise::<N>(notifier_name@))
                        =~= Seq::<(Seq<char>, N)>::empty()) by {
                        reveal_with_fuel(Seq::filter, 1);
                    }
                    assert(self.users() =~= old(self).users().remove(user_id@));
                }
            },
        }
        proof {
            assert forall|u: Seq<char>| u != user_id@ implies #[trigger] self.names_of(u) == old(self).names_of(u) by {
                assert(self.notifiers_of(u) == old(self).notifiers_of(u));
            }
        }
    }

    /// The entries of `list` whose name is not `name`, in order.
    fn without_name(list: Vec<NamedNotifier<N>>, name: &String) -> (kept: Vec<NamedNotifier<N>>)
        ensures
            entries_view(kept@) == entries_view(list@).filter(named_otherwise::<N>(name@)),
    {
        let ghost orig = entries_view(list@);
        let ghost f = named_otherwise::<N>(name@);
        let mut rest = list;
        let mut kept: Vec<NamedNotifier<N>> = Vec::new();
        let ghost mut done: int = 0;
        while rest.len() > 0
            invariant
                0 <= done <= orig.len(),
                f == named_otherwise::<N>(name@),
                entries_view(rest@) == orig.skip(done),
                entries_view(kept@) == orig.take(done).filter(f),
            decreases rest@.len(),
        {
            let ghost prev = kept@;
            let ghost rest_before = rest@;
            proof {
                assert(entries_view(rest_before).len() == rest_before.len());
                assert(done < orig.len());
                assert(entries_view(rest_before)[0] == entry_view(rest_before[0]));
            }
            let e = rest.remove(0);
            proof {
                reveal_with_fuel(Seq::filter, 1);
                assert(e == rest_before[0]);
                assert(orig.skip(done)[0] == entry_view(e));
                assert(orig[done] == entry_view(e));
                assert(orig.take(done + 1).drop_last() =~= orig.take(done));
                assert(orig.take(done + 1).last() == entry_view(e));
                assert forall|k: int| 0 <= k < rest@.len() implies entries_view(rest@)[k] == orig.skip(
                    done + 1,
                )[k] by {
                    assert(rest@[k] == rest_before[k + 1]);
                    assert(entries_view(rest_before)[k + 1] == orig.skip(done)[k + 1]);
                }
                assert(entries_view(rest@) =~= orig.skip(done + 1));
            }
            if e.name != *name {
                kept.push(e);
                proof {
                    assert(entries_view(kept@) =~= entries_view(prev).push(entry_view(e)));
                }
            }
            proof {
                done = done + 1;
            }
        }
        proof {
            assert(orig.take(done) =~= orig);
        }
        kept
    }

    /// Removes all notifiers of `user_id`.
    pub fn remove_all_notifiers(&mut self, user_id: &str)
        requires
            old(self).wf(),
        ensures
            final(self).wf(),
            final(self).users() == old(self).users().remove(user_id@),
            final(self).notifiers_of(user_id@) == Seq::<(Seq<char>, N)>::empty(),
            forall|u: Seq<char>|
                u != user_id@ ==> #[trigger] final(self).notifiers_of(u) == old(self).notifiers_of(u),
    {
        let user = String::from_str(user_id);
        self.users.remove(&user);
        proof {
            assert(self.users() =~= old(self).users().remove(user_id@));
        }
    }

    /// The names of the notifiers of `user_id`, in order (empty if there are none).
    pub fn get_user_notifiers(&self, user_id: &str) -> (names: Vec<String>)
        requires
            self.wf(),
        ensures
            names@.map_values(|s: String| s@) == self.names_of(user_id@),
    {
        let user = String::from_str(user_id);
        let mut names: Vec<String> = Vec::new();
        match self.users.get(&user) {
            Some(list) => {
                let mut i: usize = 0;
                while i < list.len()
                    invariant
                        i <= list@.len(),
                        *list == self.users.map()[user_id@],
                        self.users.map().contains_key(user_id@),
                        names@.len() == i,
                        forall|j: int| 0 <= j < i ==> #[trigger] names@[j]@ == list@[j].name@,
                    decreases list@.len() - i,
                {
                    names.push(list[i].name.clone());
                    i = i + 1;
                }
                proof {
                    assert(names@.map_values(|s: String| s@) =~= self.names_of(user_id@));
                }
            },
            None => {
                proof {
                    assert(names@.map_values(|s: String| s@) =~= self.names_of(user_id@));
                }
            },
        }
        names
    }

    /// The notifier at `index` among those of `user_id`.
    pub fn notifier_at(&self, user_id: &String, index: usize) -> (found: Option<&N>)
        requires
            self.wf(),
        ensures
            match found {
                Some(n) => index < self.notifiers_of(user_id@).len() && *n == self.notifiers_of(
                    user_id@,
                )[index as int].1,
                None => index >= self.notifiers_of(user_id@).len(),
            },
    {
        match self.users.get(user_id) {
            Some(list) => {
                if index < list.len() {
                    Some(&list[index].notifier)
                } else {
                    None
                }
            },
            None => None,
        }
    }

    /// The number of notifiers of `user_id`.
    fn count_of(&self, user_id: &String) -> (n: usize)
        requires
            self.wf(),
        ensures
            n == self.notifiers_of(user_id@).len(),
    {
        match self.users.get(user_id) {
            Some(list) => list.len(),
            None => 0,
        }
    }

    /// The deliveries for new `content`: for each subscription of `subscriptions`
    /// whose criteria accept the content, in the manager's order, one delivery to
    /// each notifier of the subscription's user.
    pub fn deliveries_for<C: SubscriptionCriteria>(&self, subscriptions: &SubscriptionManager<C>, content: &C::Content) -> (plan: Vec<Delivery>)
        requires
            self.wf(),
            subscriptions.wf(),
        ensures
            exists|matching: Seq<Subscription<C>>|
                selects_matching(subscriptions.ordered(), *content, matching) && plan@.map_values(
                    |d: Delivery| delivery_view(d),
                ) == self.plan_for(matching.map_values(|s: Subscription<C>| s.user_id@)),
    {
        let matching = subscriptions.get_matching_subscriptions(content);
        let ghost m = matching@.map_values(|r: &Subscription<C>| *r);
        proof {
            assert(matching@.map_values(|s: &Subscription<C>| s.user_id@) =~= m.map_values(
                |s: Subscription<C>| s.user_id@,
            ));
        }
        let plan = self.plan_dispatch(&matching);
        assert(selects_matching(subscriptions.ordered(), *content, m));
        plan
    }

    /// The deliveries for content that `matching` subscriptions accepted: for
    /// each subscription in turn, one delivery to each notifier of its user.
    pub fn plan_dispatch<C>(&self, matching: &Vec<&Subscription<C>>) -> (plan: Vec<Delivery>)
        requires
            self.wf(),
        ensures
            plan@.map_values(|d: Delivery| delivery_view(d)) == self.plan_for(
                matching@.map_values(|s: &Subscription<C>| s.user_id@),
            ),
    {
        let ghost users = matching@.map_values(|s: &Subscription<C>| s.user_id@);
        let mut plan: Vec<Delivery> = Vec::new();
        let mut i: usize = 0;
        while i < matching.len()
            invariant
                i <= matching@.len(),
                users == matching@.map_values(|s: &Subscription<C>| s.user_id@),
                self.wf(),
                plan@.map_values(|d: Delivery| delivery_view(d)) == self.plan_for(users.take(i as int)),
            decreases matching@.len() - i,
        {
            let user = &matching[i].user_id;
            let count = self.count_of(user);
            let ghost base = plan@.map_values(|d: Delivery| delivery_view(d));
            let mut j: usize = 0;
            while j < count
                invariant
                    j <= count,
                    count == self.notifiers_of(user@).len(),
                    plan@.map_values(|d: Delivery| delivery_view(d)) == base + Seq::new(
                        j as nat,
                        |k: int| (user@, k),
                    ),
                decreases count - j,
            {
                let ghost prev = plan@.map_values(|d: Delivery| delivery_view(d));
                plan.push(Delivery { user_id: user.clone(), notifier_index: j });
                proof {
                    assert(plan@.map_values(|d: Delivery| delivery_view(d)) =~= prev.push((user@, j as int)));
                    assert(base + Seq::new((j + 1) as nat, |k: int| (user@, k)) =~= (base + Seq::new(
                        j as nat,
                        |k: int| (user@, k),
                    )).push((user@, j as int)));
                }
                j = j + 1;
            }
            proof {
                assert(users.take(i + 1).drop_last() =~= users.take(i as int));
                assert(users.take(i + 1).last() == user@);
            }
            i = i + 1;
        }
        proof {
            assert(users.take(matching@.len() as int) =~= users);
        }
        plan
    }
}

} // verus!
