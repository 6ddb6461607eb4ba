//! The pending OAuth `state` values: each is handed out once by
//! `start_auth`, expires at a given time and is accepted at most once.

use vstd::prelude::*;
use crate::text::str_eq;

verus! {

/// A `state` value that was handed out, with the time (seconds since the
/// epoch) at which it stops being accepted.
#[derive(Clone, Debug)]
pub struct PendingState {
    pub token: String,
    pub expires_at: i64,
}

/// The map from each pending `state` to its expiry that a list of entries
/// stands for; a later entry overrides an earlier one.
pub open spec fn states_map(s: Seq<PendingState>) -> Map<Seq<char>, i64>
    decreases s.len(),
{
    if s.len() == 0 {
        Map::empty()
    } else {
        states_map(s.drop_last()).insert(s.last().token@, s.last().expires_at)
    }
}

/// No `state` occurs twice.
pub open spec fn distinct_tokens(s: Seq<PendingState>) -> bool {
    forall|i: int, j: int|
        0 <= i < s.len() && 0 <= j < s.len() && i != j ==> (#[trigger] s[i]).token@ != (#[trigger] s[j]).token@
}

/// The entries that expire after `now`, in their order.
pub open spec fn keep_unexpired(s: Seq<PendingState>, now: i64) -> Seq<PendingState>
    decreases s.len(),
{
    if s.len() == 0 {
        s
    } else if s.last().expires_at > now {
        keep_unexpired(s.drop_last(), now).push(s.last())
    } else {
        keep_unexpired(s.drop_last(), now)
    }
}

/// The entries whose `state` differs from `key`, in their order.
pub open spec fn drop_token(s: Seq<PendingState>, key: Seq<char>) -> Seq<PendingState>
    decreases s.len(),
{
    if s.len() == 0 {
        s
    } else if s.last().token@ != key {
        drop_token(s.drop_last(), key).push(s.last())
    } else {
        drop_token(s.drop_last(), key)
    }
}

/// The pending states of a map that expire after `now`.
pub open spec fn unexpired(m: Map<Seq<char>, i64>, now: i64) -> Map<Seq<char>, i64> {
    Map::new(|k: Seq<char>| m.contains_key(k) && m[k] > now, |k: Seq<char>| m[k])
}

/// Whether a `state` is accepted at `now`: it is pending and has not expired.
pub open spec fn accepts(m: Map<Seq<char>, i64>, key: Seq<char>, now: i64) -> bool {
    m.contains_key(key) && m[key] > now
}

/// The pending states after `key` was registered with expiry `expires_at`
/// at time `now`: expired ones are dropped.
pub open spec fn after_register(m: Map<Seq<char>, i64>, key: Seq<char>, expires_at: i64, now: i64) -> Map<
    Seq<char>,
    i64,
> {
    unexpired(m.insert(key, expires_at), now)
}

/// The pending states after `key` was presented at `now`: expired ones
/// are dropped, and `key` is gone whether it was accepted or not.
pub open spec fn after_consume(m: Map<Seq<char>, i64>, key: Seq<char>, now: i64) -> Map<Seq<char>, i64> {
    unexpired(m, now).remove(key)
}

proof fn lemma_states_map_keys(s: Seq<PendingState>, k: Seq<char>)
    ensures
        states_map(s).contains_key(k) <==> exists|j: int| 0 <= j < s.len() && (#[trigger] s[j]).token@ == k,
    decreases s.len(),
{
    if s.len() > 0 {
        lemma_states_map_keys(s.drop_last(), k);
        if states_map(s.drop_last()).contains_key(k) {
            let j = choose|j: int| 0 <= j < s.drop_last().len() && (#[trigger] s.drop_last()[j]).token@ == k;
            assert(s[j] == s.drop_last()[j]);
        }
        if exists|j: int| 0 <= j < s.len() && (#[trigger] s[j]).token@ == k {
            let j = choose|j: int| 0 <= j < s.len() && (#[trigger] s[j]).token@ == k;
            if j < s.len() - 1 {
                assert(s.drop_last()[j] == s[j]);
            }
        }
    }
}

proof fn lemma_states_map_value(s: Seq<PendingState>, j: int)
    requires
        0 <= j < s.len(),
        distinct_tokens(s),
    ensures
        states_map(s).contains_key(s[j].token@),
        states_map(s)[s[j].token@] == s[j].expires_at,
    decreases s.len(),
{
    if j < s.len() - 1 {
        let p = s.drop_last();
        assert(p[j] == s[j]);
        assert(distinct_tokens(p)) by {
            assert forall|a: int, b: int|
                0 <= a < p.len() && 0 <= b < p.len() && a != b implies (#[trigger] p[a]).token@ != (
            #[trigger] p[b]).token@ by {
                assert(p[a] == s[a] && p[b] == s[b]);
            }
        }
        lemma_states_map_value(p, j);
        assert(s[j].token@ != s[s.len() - 1].token@);
    }
}

proof fn lemma_keep_subset(s: Seq<PendingState>, now: i64)
    ensures
        keep_unexpired(s, now).len() <= s.len(),
        forall|i: int|
            0 <= i < keep_unexpired(s, now).len() ==> exists|j: int|
                0 <= j < s.len() && #[trigger] keep_unexpired(s, now)[i] == s[j],
        forall|i: int| 0 <= i < keep_unexpired(s, now).len() ==> (#[trigger] keep_unexpired(s, now)[i]).expires_at > now,
    decreases s.len(),
{
    if s.len() > 0 {
        let p = s.drop_last();
        lemma_keep_subset(p, now);
        let k = keep_unexpired(s, now);
        assert forall|i: int| 0 <= i < k.len() implies exists|j: int|
            0 <= j < s.len() && #[trigger] k[i] == s[j] by {
            if i < keep_unexpired(p, now).len() {
                let j = choose|j: int| 0 <= j < p.len() && #[trigger] keep_unexpired(p, now)[i] == p[j];
                assert(k[i] == s[j]);
            } else {
                assert(k[i] == s[s.len() - 1]);
            }
        }
    }
}

proof fn lemma_drop_subset(s: Seq<PendingState>, key: Seq<char>)
    ensures
        forall|i: int|
            0 <= i < drop_token(s, key).len() ==> exists|j: int|
                0 <= j < s.len() && #[trigger] drop_token(s, key)[i] == s[j],
        forall|i: int| 0 <= i < drop_token(s, key).len() ==> (#[trigger] drop_token(s, key)[i]).token@ != key,
    decreases s.len(),
{
    if s.len() > 0 {
        let p = s.drop_last();
        lemma_drop_subset(p, key);
        let k = drop_token(s, key);
        assert forall|i: int| 0 <= i < k.len() implies exists|j: int|
            0 <= j < s.len() && #[trigger] k[i] == s[j] by {
            if i < drop_token(p, key).len() {
                let j = choose|j: int| 0 <= j < p.len() && #[trigger] drop_token(p, key)[i] == p[j];
                assert(k[i] == s[j]);
            } else {
                assert(k[i] == s[s.len() - 1]);
            }
        }
    }
}

proof fn lemma_push_distinct(p: Seq<PendingState>, e: PendingState)
    requires
        distinct_tokens(p),
        forall|j: int| 0 <= j < p.len() ==> (#[trigger] p[j]).token@ != e.token@,
    ensures
        distinct_tokens(p.push(e)),
{
    let s = p.push(e);
    assert forall|a: int, b: int|
        0 <= a < s.len() && 0 <= b < s.len() && a != b implies (#[trigger] s[a]).token@ != (
    #[trigger] s[b]).token@ by {
        if a < p.len() && b < p.len() {
            assert(s[a] == p[a] && s[b] == p[b]);
        } else if a < p.len() {
            assert(s[a] == p[a]);
        } else {
            assert(s[b] == p[b]);
        }
    }
}

proof fn lemma_prefix_distinct(s: Seq<PendingState>)
    requires
        distinct_tokens(s),
        s.len() > 0,
    ensures
        distinct_tokens(s.drop_last()),
        forall|j: int| 0 <= j < s.len() - 1 ==> (#[trigger] s.drop_last()[j]).token@ != s.last().token@,
{
    let p = s.drop_last();
    assert forall|a: int, b: int|
        0 <= a < p.len() && 0 <= b < p.len() && a != b implies (#[trigger] p[a]).token@ != (
    #[trigger] p[b]).token@ by {
        assert(p[a] == s[a] && p[b] == s[b]);
    }
    assert forall|j: int| 0 <= j < s.len() - 1 implies (#[trigger] p[j]).token@ != s.last().token@ by {
        assert(p[j] == s[j]);
    }
}

proof fn lemma_keep_unexpired(s: Seq<PendingState>, now: i64)
    requires
        distinct_tokens(s),
    ensures
        distinct_tokens(keep_unexpired(s, now)),
        states_map(keep_unexpired(s, now)) =~= unexpired(states_map(s), now),
    decreases s.len(),
{
    if s.len() > 0 {
        let p = s.drop_last();
        let e = s.last();
        lemma_prefix_distinct(s);
        lemma_keep_unexpired(p, now);
        lemma_keep_subset(p, now);
        lemma_states_map_keys(p, e.token@);
        assert(!states_map(p).contains_key(e.token@));
        if e.expires_at > now {
            let kp = keep_unexpired(p, now);
            assert forall|j: int| 0 <= j < kp.len() implies (#[trigger] kp[j]).token@ != e.token@ by {
                let i = choose|i: int| 0 <= i < p.len() && #[trigger] kp[j] == p[i];
            }
            lemma_push_distinct(kp, e);
            assert(kp.push(e).drop_last() =~= kp);
            assert(states_map(kp.push(e)) == states_map(kp).insert(e.token@, e.expires_at));
        }
        assert(s.drop_last() == p);
        assert(states_map(s) == states_map(p).insert(e.token@, e.expires_at));
        assert(states_map(keep_unexpired(s, now)) =~= unexpired(states_map(s), now));
    }
}

proof fn lemma_drop_token(s: Seq<PendingState>, key: Seq<char>)
    requires
        distinct_tokens(s),
    ensures
        distinct_tokens(drop_token(s, key)),
        states_map(drop_token(s, key)) =~= states_map(s).remove(key),
    decreases s.len(),
{
    if s.len() > 0 {
        let p = s.drop_last();
        let e = s.last();
        lemma_prefix_distinct(s);
        lemma_drop_token(p, key);
        lemma_drop_subset(p, key);
        lemma_states_map_keys(p, e.token@);
        if e.token@ != key {
            let kp = drop_token(p, key);
            assert forall|j: int| 0 <= j < kp.len() implies (#[trigger] kp[j]).token@ != e.token@ by {
                let i = choose|i: int| 0 <= i < p.len() && #[trigger] kp[j] == p[i];
            }
            lemma_push_distinct(kp, e);
            assert(kp.push(e).drop_last() =~= kp);
            assert(states_map(kp.push(e)) == states_map(kp).insert(e.token@, e.expires_at));
        }
        assert(states_map(s) == states_map(p).insert(e.token@, e.expires_at));
        assert(states_map(drop_token(s, key)) =~= states_map(s).remove(key));
    }
}

/// A `state` is single-use: once presented, whether or not it was accepted,
/// it is never accepted again.
pub proof fn law_state_single_use(m: Map<Seq<char>, i64>, key: Seq<char>, first: i64, later: i64)
    ensures
        !accepts(after_consume(m, key, first), key, later),
{
}

/// A freshly registered `state` is accepted exactly while the time is
/// before its expiry (and it is registered unexpired).
pub proof fn law_state_accepted_until_expiry(
    m: Map<Seq<char>, i64>,
    key: Seq<char>,
    expires_at: i64,
    now: i64,
    later: i64,
)
    ensures
        accepts(after_register(m, key, expires_at, now), key, later) == (expires_at > now && expires_at
            > later),
{
}

/// Presenting one `state` leaves whether another is accepted later as it was.
pub proof fn law_state_consume_other(
    m: Map<Seq<char>, i64>,
    presented: Seq<char>,
    key: Seq<char>,
    first: i64,
    later: i64,
)
    requires
        presented != key,
        first <= later,
    ensures
        accepts(after_consume(m, presented, first), key, later) == accepts(m, key, later),
{
}

/// Registering one `state` leaves whether another is accepted later as it was.
pub proof fn law_state_register_other(
    m: Map<Seq<char>, i64>,
    registered: Seq<char>,
    expires_at: i64,
    key: Seq<char>,
    now: i64,
    later: i64,
)
    requires
        registered != key,
        now <= later,
    ensures
        accepts(after_register(m, registered, expires_at, now), key, later) == accepts(m, key, later),
{
}

/// The pending OAuth `state` values with their expiry times.
#[derive(Debug)]
pub struct AuthState {
    entries: Vec<PendingState>,
}

impl View for AuthState {
    type V = Map<Seq<char>, i64>;

    closed spec fn view(&self) -> Map<Seq<char>, i64> {
        states_map(self.entries@)
    }
}

fn clone_entry(e: &PendingState) -> (r: PendingState)
    ensures
        r == *e,
{
    PendingState { token: e.token.clone(), expires_at: e.expires_at }
}

impl AuthState {
    #[verifier::type_invariant]
    closed spec fn inv(self) -> bool {
        distinct_tokens(self.entries@)
    }

    /// No pending state.
    pub fn new() -> (r: AuthState)
        ensures
            r@ == Map::<Seq<char>, i64>::empty(),
    {
        AuthState { entries: Vec::new() }
    }

    /// Drops every state that expires at or before `now`
    /// (`states.retain(|_, exp| *exp > now)`).
    pub fn retain_unexpired(&mut self, now: i64)
        ensures
            final(self)@ == unexpired(old(self)@, now),
    {
        proof {
            use_type_invariant(&*self);
        }
        let ghost s = self.entries@;
        let mut kept: Vec<PendingState> = Vec::new();
        let mut i: usize = 0;
        while i < self.entries.len()
            invariant
                s == self.entries@,
                i <= s.len(),
                kept@ == keep_unexpired(s.take(i as int), now),
            decreases s.len() - i,
        {
            assert(s.take(i + 1).drop_last() =~= s.take(i as int));
            if self.entries[i].expires_at > now {
                kept.push(clone_entry(&self.entries[i]));
            }
            i = i + 1;
        }
        assert(s.take(s.len() as int) =~= s);
        proof {
            lemma_keep_unexpired(s, now);
        }
        self.entries = kept;
    }

    /// Removes `key`, returning the expiry it had (`states.remove(key)`).
    pub fn remove(&mut self, key: &str) -> (r: Option<i64>)
        ensures
            final(self)@ == old(self)@.remove(key@),
            r == (if old(self)@.contains_key(key@) {
                Some(old(self)@[key@])
            } else {
                None
            }),
    {
        proof {
            use_type_invariant(&*self);
        }
        let ghost s = self.entries@;
        let mut kept: Vec<PendingState> = Vec::new();
        let mut found: Option<i64> = None;
        let mut i: usize = 0;
        while i < self.entries.len()
            invariant
                s == self.entries@,
                distinct_tokens(s),
                i <= s.len(),
                kept@ == drop_token(s.take(i as int), key@),
                match found {
                    Some(e) => exists|j: int| 0 <= j < i && (#[trigger] s[j]).token@ == key@ && s[j].expires_at == e,
                    None => forall|j: int| 0 <= j < i ==> (#[trigger] s[j]).token@ != key@,
                },
            decreases s.len() - i,
        {
            assert(s.take(i + 1).drop_last() =~= s.take(i as int));
            if str_eq(self.entries[i].token.as_str(), key) {
                found = Some(self.entries[i].expires_at);
            } else {
                kept.push(clone_entry(&self.entries[i]));
            }
            i = i + 1;
        }
        assert(s.take(s.len() as int) =~= s);
        proof {
            lemma_drop_token(s, key@);
            lemma_states_map_keys(s, key@);
            if let Some(e) = found {
                let j = choose|j: int| 0 <= j < s.len() && (#[trigger] s[j]).token@ == key@ && s[j].expires_at == e;
                lemma_states_map_value(s, j);
            }
        }
        self.entries = kept;
        found
    }

    /// Records `key` as pending until `expires_at` (`states.insert`).
    pub fn insert(&mut self, key: String, expires_at: i64)
        ensures
            final(self)@ == old(self)@.insert(key@, expires_at),
    {
        let _ = self.remove(key.as_str());
        proof {
            use_type_invariant(&*self);
            lemma_states_map_keys(self.entries@, key@);
            assert forall|j: int| 0 <= j < self.entries@.len() implies (#[trigger] self.entries@[j]).token@
                != key@ by {
                if self.entries@[j].token@ == key@ {
                    assert(self@.contains_key(key@));
                }
            }
            lemma_push_distinct(self.entries@, PendingState { token: key, expires_at });
        }
        let ghost before = self.entries@;
        let mut entries: Vec<PendingState> = Vec::new();
        std::mem::swap(&mut entries, &mut self.entries);
        entries.push(PendingState { token: key, expires_at });
        assert(entries@.drop_last() =~= before);
        self.entries = entries;
    }

    /// Records a new `state` at `now`, then drops the expired ones, as
    /// `start_auth` does.
    pub fn register(&mut self, key: String, expires_at: i64, now: i64)
        ensures
            final(self)@ == after_register(old(self)@, key@, expires_at, now),
    {
        self.insert(key, expires_at);
        self.retain_unexpired(now);
    }

    /// Presents `key` at `now`: drops the expired states, then removes
    /// `key`; the answer is whether it was pending and unexpired.
    pub fn consume(&mut self, key: &str, now: i64) -> (r: bool)
        ensures
            r == accepts(old(self)@, key@, now),
            final(self)@ == after_consume(old(self)@, key@, now),
    {
        self.retain_unexpired(now);
        match self.remove(key) {
            Some(expiry) => expiry > now,
            None => false,
        }
    }
}

} // verus!
