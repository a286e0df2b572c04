//! The fetchers registered for each user, and the decisions of the periodic
//! fetch cycle.

use vstd::prelude::*;
use crate::keyed::{KeyedStore, differs};

verus! {

/// Pairs `(user, name)` for `users` in turn, each with the names given by `names`.
pub open spec fn pairs_for(users: Seq<Seq<char>>, names: spec_fn(Seq<char>) -> Seq<Seq<char>>) -> Seq<(Seq<char>, Seq<char>)>
    decreases users.len(),
{
    if users.len() == 0 {
        Seq::empty()
    } else {
        pairs_for(users.drop_last(), names) + names(users.last()).map_values(
            |n: Seq<char>| (users.last(), n),
        )
    }
}

/// A fetch target by its characters.
pub open spec fn target_view(t: (String, String)) -> (Seq<char>, Seq<char>) {
    (t.0@, t.1@)
}

/// The fetchers of each user, by name. A user is listed only while they have
/// at least one fetcher.
pub struct FetcherRegistry<F> {
    users: KeyedStore<KeyedStore<F>>,
}

impl<F> FetcherRegistry<F> {
    /// The fetchers of `user`, by name (empty for a user with none).
    pub closed spec fn fetchers_of(&self, user: Seq<char>) -> Map<Seq<char>, F> {
        if self.users.map().contains_key(user) {
            self.users.map()[user].map()
        } else {
            Map::empty()
        }
    }

    /// The names of the fetchers of `user`, in the order in which they were added.
    pub closed spec fn names_of(&self, user: Seq<char>) -> Seq<Seq<char>> {
        if self.users.map().contains_key(user) {
            self.users.map()[user].key_order()
        } else {
            Seq::empty()
        }
    }

    /// The users who have fetchers, in the registry's order.
    pub closed spec fn user_order(&self) -> Seq<Seq<char>> {
        self.users.key_order()
    }

    /// Every registered fetcher as a pair (user, name): users in the registry's
    /// order, and each user's fetchers in their order.
    pub open spec fn targets(&self) -> Seq<(Seq<char>, Seq<char>)> {
        pairs_for(self.user_order(), |u: Seq<char>| self.names_of(u))
    }

    /// The registry's invariant.
    pub closed spec fn wf(&self) -> bool {
        &&& self.users.wf()
        &&& forall|u: Seq<char>| #[trigger] self.users.map().contains_key(u) ==> {
            &&& self.users.map()[u].wf()
            &&& self.users.map()[u].map().len() > 0
        }
    }

    /// An empty registry.
    pub fn new() -> (r: Self)
        ensures
            r.wf(),
            r.user_order() == Seq::<Seq<char>>::empty(),
            forall|u: Seq<char>| #[trigger] r.fetchers_of(u) == Map::<Seq<char>, F>::empty(),
    {
        let r = FetcherRegistry { users: KeyedStore::new() };
        assert forall|u: Seq<char>| #[trigger] r.fetchers_of(u) == Map::<Seq<char>, F>::empty() by {}
        r
    }

    /// Adds `fetcher` for `user_id` under `name`, replacing that user's fetcher of the same name.
    pub fn add_fetcher(&mut self, user_id: &str, name: &str, fetcher: F)
        requires
            old(self).wf(),
        ensures
            final(self).wf(),
            final(self).fetchers_of(user_id@) == old(self).fetchers_of(user_id@).insert(name@, fetcher),
            forall|u: Seq<char>|
                u != user_id@ ==> #[trigger] final(self).fetchers_of(u) == old(self).fetchers_of(u),
            forall|u: Seq<char>|
                u != user_id@ ==> #[trigger] final(self).names_of(u) == old(self).names_of(u),
            old(self).fetchers_of(user_id@).contains_key(name@) ==> final(self).names_of(user_id@)
                == old(self).names_of(user_id@),
            !old(self).fetchers_of(user_id@).contains_key(name@) ==> final(self).names_of(user_id@)
                == old(self).names_of(user_id@).push(name@),
    {
        let user = String::from_str(user_id);
        let key = String::from_str(name);
        let mut own = match self.users.remove(&user) {
            Some(own) => own,
            None => KeyedStore::new(),
        };
        own.insert(key, fetcher);
        proof {
            assert(own.map().contains_key(name@));
            assert(own.map().len() > 0) by {
                own.lemma_len_positive(name@);
            }
        }
        self.users.insert(user, own);
    }

    /// Removes the fetcher of `user_id` named `name`. Answers `Some(())` whether
    /// or not such a fetcher was registered.
    pub fn remove_fetcher(&mut self, user_id: &str, name: &str) -> (done: Option<()>)
        requires
            old(self).wf(),
        ensures
            final(self).wf(),
            done == Some(()),
            final(self).fetchers_of(user_id@) == old(self).fetchers_of(user_id@).remove(name@),
            final(self).names_of(user_id@) == old(self).names_of(user_id@).filter(differs(name@)),
            forall|u: Seq<char>|
                u != user_id@ ==> #[trigger] final(self).fetchers_of(u) == old(self).fetchers_of(u),
            forall|u: Seq<char>|
                u != user_id@ ==> #[trigger] final(self).names_of(u) == old(self).names_of(u),
    {
        let user = String::from_str(user_id);
        let key = String::from_str(name);
        match self.users.remove(&user) {
            Some(mut own) => {
                own.remove(&key);
                if own.len() > 0 {
                    self.users.insert(user, own);
                } else {
                    proof {
                        own.lemma_empty_order();
                        assert(own.map() =~= Map::<Seq<char>, F>::empty());
                    }
                }
            },
            None => {
                proof {
                    assert(Seq::<Seq<char>>::empty().filter(differs(name@)) =~= Seq::<Seq<char>>::empty())
                        by {
                        reveal_with_fuel(Seq::filter, 1);
                    }
                    assert(Map::<Seq<char>, F>::empty().remove(name@) =~= Map::<Seq<char>, F>::empty());
                }
            },
        }
        Some(())
    }

    /// The names of the fetchers of `user_id`, in order.
    pub fn get_user_fetchers(&self, user_id: &str) -> (names: Vec<String>)
        requires
            self.wf(),
        ensures
            names@.map_values(|s: String| s@) == self.names_of(user_id@),
    {
        let user = String::from_str(user_id);
        match self.users.get(&user) {
            Some(own) => own.keys(),
            None => {
                let names: Vec<String> = Vec::new();
                assert(names@.map_values(|s: String| s@) =~= Seq::<Seq<char>>::empty());
                names
            },
        }
    }

    /// The fetcher of `user_id` named `name`, if any.
    pub fn fetcher(&self, user_id: &String, name: &String) -> (found: Option<&F>)
        requires
            self.wf(),
        ensures
            match found {
                Some(f) => self.fetchers_of(user_id@).contains_key(name@) && *f == self.fetchers_of(
                    user_id@,
                )[name@],
                None => !self.fetchers_of(user_id@).contains_key(name@),
            },
    {
        match self.users.get(user_id) {
            Some(own) => own.get(name),
            None => None,
        }
    }

    /// The fetchers that one fetch cycle runs, as pairs (user, name), in order.
    pub fn cycle_targets(&self) -> (targets: Vec<(String, String)>)
        requires
            self.wf(),
        ensures
            targets@.map_values(|t: (String, String)| target_view(t)) == self.targets(),
            targets@.map_values(|t: (String, String)| target_view(t)).no_duplicates(),
    {
        proof {
            self.law_cycle_runs_each_fetcher_once();
        }
        let users = self.users.keys();
        let ghost order = self.user_order();
        let ghost names = |u: Seq<char>| self.names_of(u);
        let mut targets: Vec<(String, String)> = Vec::new();
        let mut i: usize = 0;
        while i < users.len()
            invariant
                i <= users@.len(),
                self.wf(),
                order == self.user_order(),
                names == (|u: Seq<char>| self.names_of(u)),
                users@.map_values(|s: String| s@) == order,
                targets@.map_values(|t: (String, String)| target_view(t)) == pairs_for(
                    order.take(i as int),
                    names,
                ),
            decreases users@.len() - i,
        {
            let user = &users[i];
            assert(user@ == order[i as int]);
            let own_names = self.get_user_fetchers(user.as_str());
            let ghost base = targets@.map_values(|t: (String, String)| target_view(t));
            let mut j: usize = 0;
            while j < own_names.len()
                invariant
                    j <= own_names@.len(),
                    own_names@.map_values(|s: String| s@) == self.names_of(user@),
                    targets@.map_values(|t: (String, String)| target_view(t)) == base
                        + self.names_of(user@).take(j as int).map_values(
                        |n: Seq<char>| (user@, n),
                    ),
                decreases own_names@.len() - j,
            {
                let ghost prev = targets@.map_values(|t: (String, String)| target_view(t));
                targets.push((user.clone(), own_names[j].clone()));
                proof {
                    let ns = self.names_of(user@);
                    assert(ns[j as int] == own_names@[j as int]@);
                    assert(ns.take(j + 1).map_values(|n: Seq<char>| (user@, n)) =~= ns.take(
                        j as int,
                    ).map_values(|n: Seq<char>| (user@, n)).push((user@, ns[j as int])));
                    assert(targets@.map_values(|t: (String, String)| target_view(t)) =~= prev.push(
                        (user@, ns[j as int]),
                    ));
                }
                j = j + 1;
            }
            proof {
                let ns = self.names_of(user@);
                assert(ns.take(own_names@.len() as int) =~= ns);
                assert(order.take(i + 1).drop_last() =~= order.take(i as int));
                assert(order.take(i + 1).last() == user@);
                assert(names(user@) == ns);
            }
            i = i + 1;
        }
        proof {
            assert(order.take(users@.len() as int) =~= order);
        }
        targets
    }
}

/// The pairs for `users` hold `(u, n)` exactly when `u` is one of the users
/// and `n` one of the names given for it.
pub proof fn lemma_pairs_for_contains(users: Seq<Seq<char>>, names: spec_fn(Seq<char>) -> Seq<Seq<char>>, u: Seq<char>, n: Seq<char>)
    ensures
        pairs_for(users, names).contains((u, n)) <==> users.contains(u) && names(u).contains(n),
    decreases users.len(),
{
    if users.len() > 0 {
        let rest = users.drop_last();
        let last = users.last();
        lemma_pairs_for_contains(rest, names, u, n);
        let head = pairs_for(rest, names);
        let tail = names(last).map_values(|x: Seq<char>| (last, x));
        let all = pairs_for(users, names);
        assert(all == head + tail);
        if all.contains((u, n)) {
            let k = choose|k: int| 0 <= k < all.len() && all[k] == (u, n);
            if k < head.len() {
                assert(head[k] == (u, n));
                assert(head.contains((u, n)));
                let j = choose|j: int| 0 <= j < rest.len() && rest[j] == u;
                assert(users[j] == u);
            } else {
                assert(tail[k - head.len()] == (u, n));
                assert(names(last)[k - head.len()] == n);
                assert(users[users.len() - 1] == u);
            }
        }
        if users.contains(u) && names(u).contains(n) {
            let j = choose|j: int| 0 <= j < users.len() && users[j] == u;
            if j < rest.len() {
                assert(rest[j] == u);
                assert(rest.contains(u));
                let k = choose|k: int| 0 <= k < head.len() && head[k] == (u, n);
                assert(all[k] == (u, n));
            } else {
                let nu = names(u);
                let m = choose|m: int| 0 <= m < nu.len() && nu[m] == n;
                assert(all[head.len() + m] == (u, n));
            }
        }
    }
}

/// Pairs for distinct users, each with distinct names, are distinct.
pub proof fn lemma_pairs_for_no_duplicates(users: Seq<Seq<char>>, names: spec_fn(Seq<char>) -> Seq<Seq<char>>)
    requires
        users.no_duplicates(),
        forall|u: Seq<char>| users.contains(u) ==> #[trigger] names(u).no_duplicates(),
    ensures
        pairs_for(users, names).no_duplicates(),
    decreases users.len(),
{
    if users.len() > 0 {
        let rest = users.drop_last();
        let last = users.last();
        assert forall|u: Seq<char>| rest.contains(u) implies #[trigger] names(u).no_duplicates() by {
            let j = choose|j: int| 0 <= j < rest.len() && rest[j] == u;
            assert(users[j] == u);
        }
        lemma_pairs_for_no_duplicates(rest, names);
        let head = pairs_for(rest, names);
        let tail = names(last).map_values(|x: Seq<char>| (last, x));
        let all = pairs_for(users, names);
        assert(all == head + tail);
        assert(users[users.len() - 1] == last);
        assert(names(last).no_duplicates());
        assert forall|i: int, j: int| 0 <= i < all.len() && 0 <= j < all.len() && i != j implies all[i] != all[j] by {
            if i < head.len() && j >= head.len() {
                assert(head.contains(head[i]));
                let (u, n) = head[i];
                lemma_pairs_for_contains(rest, names, u, n);
                if all[i] == all[j] {
                    assert(tail[j - head.len()].0 == last);
                    let k = choose|k: int| 0 <= k < rest.len() && rest[k] == u;
                    assert(users[k] == rest[k]);
                    assert(k != users.len() - 1);
                }
            } else if j < head.len() && i >= head.len() {
                assert(head.contains(head[j]));
                let (u, n) = head[j];
                lemma_pairs_for_contains(rest, names, u, n);
                if all[i] == all[j] {
                    assert(tail[i - head.len()].0 == last);
                    let k = choose|k: int| 0 <= k < rest.len() && rest[k] == u;
                    assert(users[k] == rest[k]);
                    assert(k != users.len() - 1);
                }
            } else if i >= head.len() && j >= head.len() {
                assert(tail[i - head.len()].1 == names(last)[i - head.len()]);
                assert(tail[j - head.len()].1 == names(last)[j - head.len()]);
            } else {
                assert(all[i] == head[i] && all[j] == head[j]);
            }
        }
    }
}

impl<F> FetcherRegistry<F> {
    /// A fetch cycle runs every registered fetcher: `(user, name)` is one of
    /// its targets exactly when the user has a fetcher of that name.
    pub proof fn law_cycle_targets_every_fetcher(&self, user: Seq<char>, name: Seq<char>)
        requires
            self.wf(),
        ensures
            self.targets().contains((user, name)) <==> self.fetchers_of(user).contains_key(name),
    {
        let names = |u: Seq<char>| self.names_of(u);
        assert(self.targets() == pairs_for(self.user_order(), names));
        lemma_pairs_for_contains(self.user_order(), names, user, name);
        self.users.lemma_order_contains(user);
        if self.users.map().contains_key(user) {
            self.users.map()[user].lemma_order_contains(name);
        }
    }

    /// The targets of a fetch cycle are distinct: each fetcher runs once.
    pub proof fn law_cycle_runs_each_fetcher_once(&self)
        requires
            self.wf(),
        ensures
            self.targets().no_duplicates(),
    {
        let names = |u: Seq<char>| self.names_of(u);
        assert(self.targets() == pairs_for(self.user_order(), names));
        let ks = self.users.key_order();
        assert forall|i: int, j: int| 0 <= i < ks.len() && 0 <= j < ks.len() && i != j implies ks[i] != ks[j] by {}
        assert forall|u: Seq<char>| self.user_order().contains(u) implies #[trigger] names(u).no_duplicates() by {
            if self.users.map().contains_key(u) {
                let inner = self.users.map()[u];
                let kn = inner.key_order();
                assert forall|i: int, j: int| 0 <= i < kn.len() && 0 <= j < kn.len() && i != j implies kn[i] != kn[j] by {}
            }
        }
        lemma_pairs_for_no_duplicates(self.user_order(), names);
    }
}

/// Adding a fetcher and then looking up the user's fetcher of that name finds
/// it, and the user's names list it; other users keep their fetchers.
pub proof fn law_fetcher_found_after_add<F>(before: FetcherRegistry<F>, after: FetcherRegistry<F>, user: Seq<char>, name: Seq<char>, fetcher: F)
    requires
        after.fetchers_of(user) == before.fetchers_of(user).insert(name, fetcher),
        !before.fetchers_of(user).contains_key(name) ==> after.names_of(user) == before.names_of(user).push(name),
        before.fetchers_of(user).contains_key(name) ==> after.names_of(user) == before.names_of(user),
        before.fetchers_of(user).contains_key(name) ==> before.names_of(user).contains(name),
    ensures
        after.fetchers_of(user).get(name) == Some(fetcher),
        after.names_of(user).contains(name),
{
    if !before.fetchers_of(user).contains_key(name) {
        assert(after.names_of(user)[before.names_of(user).len() as int] == name);
    }
}

/// Removing a fetcher that was just added under a new name gives back the
/// user's previous fetchers.
pub proof fn law_remove_undoes_add<F>(
    before: FetcherRegistry<F>,
    added: FetcherRegistry<F>,
    removed: FetcherRegistry<F>,
    user: Seq<char>,
    name: Seq<char>,
    fetcher: F,
)
    requires
        !before.fetchers_of(user).contains_key(name),
        added.fetchers_of(user) == before.fetchers_of(user).insert(name, fetcher),
        removed.fetchers_of(user) == added.fetchers_of(user).remove(name),
    ensures
        removed.fetchers_of(user) == before.fetchers_of(user),
{
    assert(removed.fetchers_of(user) =~= before.fetchers_of(user));
}

/// A tick right after a start runs a fetch cycle, and one right after a stop
/// does not, whatever the cycle's state before; ticks never change whether the
/// cycle runs.
pub proof fn law_ticks_follow_start_and_stop(running: bool)
    ensures
        cycle_step(cycle_step(running, CycleEvent::Start).0, CycleEvent::Tick).1 == CycleAction::RunCycle,
        cycle_step(cycle_step(running, CycleEvent::Stop).0, CycleEvent::Tick).1 == CycleAction::Skip,
        cycle_step(running, CycleEvent::Tick).0 == running,
{
}

/// How many fetches of a cycle succeeded.
pub fn count_successes(results: &Vec<bool>) -> (n: usize)
    ensures
        n == results@.filter(|b: bool| b).len(),
{
    let ghost f = |b: bool| b;
    let mut n: usize = 0;
    let mut i: usize = 0;
    while i < results.len()
        invariant
            i <= results@.len(),
            f == (|b: bool| b),
            n == results@.take(i as int).filter(f).len(),
            n <= i,
        decreases results@.len() - i,
    {
        proof {
            reveal_with_fuel(Seq::filter, 1);
            assert(results@.take(i + 1).drop_last() =~= results@.take(i as int));
        }
        if results[i] {
            n = n + 1;
        }
        i = i + 1;
    }
    proof {
        assert(results@.take(results@.len() as int) =~= results@);
    }
    n
}

/// What the fetcher actor is told.
pub enum CycleEvent {
    /// Start the periodic fetch cycle.
    Start,
    /// Stop the periodic fetch cycle.
    Stop,
    /// The interval elapsed.
    Tick,
}

/// What the fetcher actor does in answer.
#[derive(PartialEq, Eq, Structural)]
pub enum CycleAction {
    /// Set up the periodic timer.
    ScheduleTicks,
    /// Stop the actor's context, which ends the timer.
    StopTicks,
    /// Run one fetch cycle.
    RunCycle,
    /// Do nothing.
    Skip,
}

/// The fetch cycle's answer to `event` when it is `running`: whether it runs
/// afterwards, and what it does.
pub open spec fn cycle_step(running: bool, event: CycleEvent) -> (bool, CycleAction) {
    match event {
        CycleEvent::Start => (true, CycleAction::ScheduleTicks),
        CycleEvent::Stop => (false, CycleAction::StopTicks),
        CycleEvent::Tick => (running, if running {
            CycleAction::RunCycle
        } else {
            CycleAction::Skip
        }),
    }
}

/// Whether the periodic fetch cycle runs.
pub struct FetchCycle {
    pub running: bool,
}

impl FetchCycle {
    /// A cycle that is not running.
    pub fn new() -> (c: Self)
        ensures
            !c.running,
    {
        FetchCycle { running: false }
    }

    /// The answer to `event`: start and stop set the running flag; a tick runs
    /// a cycle only while running.
    pub fn handle(&mut self, event: CycleEvent) -> (action: CycleAction)
        ensures
            (final(self).running, action) == cycle_step(old(self).running, event),
    {
        match event {
            CycleEvent::Start => {
                self.running = true;
                CycleAction::ScheduleTicks
            },
            CycleEvent::Stop => {
                self.running = false;
                CycleAction::StopTicks
            },
            CycleEvent::Tick => {
                if self.running {
                    CycleAction::RunCycle
                } else {
                    CycleAction::Skip
                }
            },
        }
    }
}

} // verus!
