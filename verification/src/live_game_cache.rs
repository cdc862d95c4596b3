use vstd::prelude::*;

use crate::ids::{Puuid, RiotMatchId};
use crate::text::{contains_string, lemma_take_succ_contains};

verus! {

/// A live match as observed at one point in time: the participants, the game
/// mode, and the elapsed game duration (in whole seconds) at capture time.
#[derive(Clone)]
pub struct LiveGame {
    pub game_mode: String,
    pub game_length: u64,
    pub participants: Vec<String>,
}

/// Mathematical image of a [`LiveGame`].
pub struct LiveGameModel {
    pub game_mode: Seq<char>,
    pub game_length: u64,
    pub participants: Seq<Seq<char>>,
}

impl View for LiveGame {
    type V = LiveGameModel;

    open spec fn view(&self) -> LiveGameModel {
        LiveGameModel {
            game_mode: self.game_mode@,
            game_length: self.game_length,
            participants: self.participants.deep_view(),
        }
    }
}

impl DeepView for LiveGame {
    type V = LiveGameModel;

    open spec fn deep_view(&self) -> LiveGameModel {
        self.view()
    }
}

/// One cached observation: the snapshot and the capture time, in
/// milliseconds of the caller's monotonic clock.
#[derive(Clone)]
pub struct CacheEntry {
    pub game: LiveGame,
    pub captured_ms: u64,
}

#[verifier::external_type_specification]
#[verifier::external_body]
#[verifier::reject_recursive_types(K)]
#[verifier::reject_recursive_types(V)]
#[verifier::reject_recursive_types(S)]
pub struct ExDashMap<K, V, S>(dashmap::DashMap<K, V, S>);

/// The store that maps a match identifier to its cached snapshot.
pub type GameStore = dashmap::DashMap<String, CacheEntry>;

/// The store that maps a participant identifier to a match identifier.
pub type IndexStore = dashmap::DashMap<String, String>;

/// The entries a match-to-snapshot store holds, keyed by the match
/// identifier's characters.
pub uninterp spec fn game_entries(m: GameStore) -> Map<Seq<char>, CacheEntry>;

/// The entries a participant-to-match store holds, keyed by the participant
/// identifier's characters.
pub uninterp spec fn index_entries(m: IndexStore) -> Map<Seq<char>, Seq<char>>;

/// Holds exactly when the map has no entry at all.
pub open spec fn no_entries<K, V>(m: Map<K, V>) -> bool {
    m === Map::empty()
}

/// Every pair of the sequence is an entry of the map.
pub open spec fn pairs_match<V>(s: Seq<(String, V)>, m: Map<Seq<char>, V>) -> bool {
    forall|i: int|
        0 <= i < s.len() ==> m.contains_key(#[trigger] s[i].0@) && m[s[i].0@] == s[i].1
}

/// Every pair of the sequence is an entry of the map, the value compared by
/// its characters.
pub open spec fn index_pairs_match(s: Seq<(String, String)>, m: Map<Seq<char>, Seq<char>>) -> bool {
    forall|i: int|
        0 <= i < s.len() ==> m.contains_key(#[trigger] s[i].0@) && m[s[i].0@] == s[i].1@
}

/// No key occurs twice in the sequence.
pub open spec fn pairs_keys_distinct<V>(s: Seq<(String, V)>) -> bool {
    forall|i: int, j: int| 0 <= i < j < s.len() ==> (#[trigger] s[i].0@) != (#[trigger] s[j].0@)
}

/// Every key of the map occurs in the sequence.
pub open spec fn pairs_complete<V, W>(s: Seq<(String, W)>, m: Map<Seq<char>, V>) -> bool {
    forall|k: Seq<char>|
        m.contains_key(k) ==> exists|i: int| 0 <= i < s.len() && (#[trigger] s[i].0@) == k
}

/// Relies on dashmap::DashMap::new: the new map is empty.
#[verifier::external_body]
fn games_new() -> (r: GameStore)
    ensures
        no_entries(game_entries(r)),
{
    dashmap::DashMap::new()
}

/// Relies on dashmap::DashMap::new: the new map is empty.
#[verifier::external_body]
fn index_new() -> (r: IndexStore)
    ensures
        no_entries(index_entries(r)),
{
    dashmap::DashMap::new()
}

/// Relies on dashmap::DashMap::insert: afterwards the key maps to the value,
/// and no other entry moves.
#[verifier::external_body]
fn games_insert(m: &mut GameStore, key: String, value: CacheEntry)
    ensures
        game_entries(*final(m)) == game_entries(*old(m)).insert(key@, value),
{
    m.insert(key, value);
}

/// Relies on dashmap::DashMap::insert: afterwards the key maps to the value,
/// and no other entry moves.
#[verifier::external_body]
fn index_insert(m: &mut IndexStore, key: String, value: String)
    ensures
        index_entries(*final(m)) == index_entries(*old(m)).insert(key@, value@),
{
    m.insert(key, value);
}

/// Relies on dashmap::DashMap::get: returns the entry stored at the key, if
/// any; the stored value is cloned before it is handed out.
#[verifier::external_body]
fn games_get(m: &GameStore, key: &String) -> (r: Option<CacheEntry>)
    ensures
        r matches Some(e) ==> game_entries(*m).contains_key(key@) && e == game_entries(*m)[key@],
        r is None ==> !game_entries(*m).contains_key(key@),
{
    m.get(key).map(|e| e.value().clone())
}

/// Relies on dashmap::DashMap::get: returns the value stored at the key, if
/// any; the stored value is cloned before it is handed out.
#[verifier::external_body]
fn index_get(m: &IndexStore, key: &String) -> (r: Option<String>)
    ensures
        r matches Some(v) ==> index_entries(*m).contains_key(key@) && v@ == index_entries(*m)[key@],
        r is None ==> !index_entries(*m).contains_key(key@),
{
    m.get(key).map(|e| e.value().clone())
}

/// Relies on dashmap::DashMap::remove: afterwards the map has no entry at
/// the key, and no other entry moves.
#[verifier::external_body]
fn games_remove(m: &mut GameStore, key: &String)
    ensures
        game_entries(*final(m)) == game_entries(*old(m)).remove(key@),
{
    m.remove(key);
}

/// Relies on dashmap::DashMap::remove: afterwards the map has no entry at
/// the key, and no other entry moves.
#[verifier::external_body]
fn index_remove(m: &mut IndexStore, key: &String)
    ensures
        index_entries(*final(m)) == index_entries(*old(m)).remove(key@),
{
    m.remove(key);
}

/// Relies on dashmap::DashMap::iter: yields every entry exactly once, in no
/// particular order; keys and values are cloned before they are handed out.
#[verifier::external_body]
fn games_entry_list(m: &GameStore) -> (r: Vec<(String, CacheEntry)>)
    ensures
        pairs_match(r@, game_entries(*m)),
        pairs_keys_distinct(r@),
        pairs_complete(r@, game_entries(*m)),
{
    m.iter().map(|e| (e.key().clone(), e.value().clone())).collect()
}

/// Relies on dashmap::DashMap::iter: yields every entry exactly once, in no
/// particular order; keys and values are cloned before they are handed out.
#[verifier::external_body]
fn index_entry_list(m: &IndexStore) -> (r: Vec<(String, String)>)
    ensures
        index_pairs_match(r@, index_entries(*m)),
        pairs_keys_distinct(r@),
        pairs_complete(r@, index_entries(*m)),
{
    m.iter().map(|e| (e.key().clone(), e.value().clone())).collect()
}

/// A live-game cache: a match-keyed store of timed snapshots, and a
/// participant-keyed index that points each tracked participant at the match
/// it was last observed in.
pub struct LiveGameCache {
    game_cache: GameStore,
    puuid_to_game: IndexStore,
    expiration_ms: u64,
}

/// Mathematical image of a [`LiveGameCache`].
pub struct CacheModel {
    pub games: Map<Seq<char>, CacheEntry>,
    pub index: Map<Seq<char>, Seq<char>>,
    pub expiration_ms: u64,
}

impl View for LiveGameCache {
    type V = CacheModel;

    closed spec fn view(&self) -> CacheModel {
        CacheModel {
            games: game_entries(self.game_cache),
            index: index_entries(self.puuid_to_game),
            expiration_ms: self.expiration_ms,
        }
    }
}

/// Milliseconds between capture and now; a capture that lies in the future
/// counts as zero, the way a monotonic clock difference saturates.
pub open spec fn elapsed_of(captured_ms: u64, now_ms: u64) -> int {
    if now_ms >= captured_ms {
        now_ms - captured_ms
    } else {
        0
    }
}

/// An entry is expired once at least the expiration duration has elapsed.
pub open spec fn entry_expired(e: CacheEntry, now_ms: u64, expiration_ms: u64) -> bool {
    elapsed_of(e.captured_ms, now_ms) >= expiration_ms
}

/// Addition on u64 that stops at the largest value instead of wrapping.
pub open spec fn sat_add(a: u64, b: int) -> u64 {
    if a + b > u64::MAX {
        u64::MAX
    } else {
        (a + b) as u64
    }
}

/// The snapshot as a reader sees it: the elapsed duration advanced by the
/// whole seconds that have passed since capture.
pub open spec fn extrapolated(g: LiveGameModel, elapsed_secs: int) -> LiveGameModel {
    LiveGameModel { game_mode: g.game_mode, game_length: sat_add(g.game_length, elapsed_secs), participants: g.participants }
}

/// The index after an overwrite: every listed participant points at the
/// match, every other entry stays.
pub open spec fn index_after_set(
    index: Map<Seq<char>, Seq<char>>,
    puuids: Seq<Seq<char>>,
    game_id: Seq<char>,
) -> Map<Seq<char>, Seq<char>> {
    Map::new(
        |p: Seq<char>| index.contains_key(p) || puuids.contains(p),
        |p: Seq<char>| if puuids.contains(p) { game_id } else { index[p] },
    )
}

/// The cache after an overwrite of one match.
pub open spec fn spec_set(
    m: CacheModel,
    game_id: Seq<char>,
    puuids: Seq<Seq<char>>,
    entry: CacheEntry,
) -> CacheModel {
    CacheModel {
        games: m.games.insert(game_id, entry),
        index: index_after_set(m.index, puuids, game_id),
        expiration_ms: m.expiration_ms,
    }
}

/// The cache after a lookup, and what the lookup returns. A hit on a fresh
/// entry changes nothing and returns the extrapolated snapshot; a stale
/// secondary entry is dropped; an expired entry is dropped from both stores.
pub open spec fn spec_get(m: CacheModel, p: Seq<char>, now_ms: u64) -> (CacheModel, Option<
    LiveGameModel,
>) {
    if !m.index.contains_key(p) {
        (m, None)
    } else {
        let g = m.index[p];
        if !m.games.contains_key(g) {
            (CacheModel { games: m.games, index: m.index.remove(p), expiration_ms: m.expiration_ms }, None)
        } else {
            let e = m.games[g];
            let diff = elapsed_of(e.captured_ms, now_ms);
            if diff < m.expiration_ms {
                (m, Some(extrapolated(e.game@, diff / 1000)))
            } else {
                (
                    CacheModel {
                        games: m.games.remove(g),
                        index: m.index.remove(p),
                        expiration_ms: m.expiration_ms,
                    },
                    None,
                )
            }
        }
    }
}

/// Copies a snapshot field by field.
fn clone_live_game(g: &LiveGame) -> (r: LiveGame)
    ensures
        r@ == g@,
{
    let mut parts: Vec<String> = Vec::new();
    let n = g.participants.len();
    let mut i: usize = 0;
    while i < n
        invariant
            i <= n,
            n == g.participants.len(),
            parts.len() == i,
            forall|j: int| 0 <= j < i ==> (#[trigger] parts@[j])@ == g.participants@[j]@,
        decreases n - i,
    {
        parts.push(g.participants[i].clone());
        i += 1;
    }
    proof {
        assert(parts.deep_view() =~= g.participants.deep_view());
    }
    LiveGame { game_mode: g.game_mode.clone(), game_length: g.game_length, participants: parts }
}

impl LiveGameCache {
    /// A cache that starts with no entries; snapshots become stale once they
    /// are `expiration_ms` milliseconds old.
    pub fn new(expiration_ms: u64) -> (r: LiveGameCache)
        ensures
            no_entries(r@.games),
            no_entries(r@.index),
            r@.expiration_ms == expiration_ms,
    {
        LiveGameCache {
            game_cache: games_new(),
            puuid_to_game: index_new(),
            expiration_ms,
        }
    }

    /// Unconditionally overwrites the cached snapshot of the match and points
    /// every listed participant at it. The two stores are written one after
    /// the other, not under one lock; the lookup path self-heals whatever a
    /// reader can observe in between. A participant that still pointed at a
    /// different live match is repointed here without further ado, on the
    /// grounds that an account is in at most one live game at a time.
    pub fn set_game_data(
        &mut self,
        game_id: RiotMatchId,
        puuids: Vec<Puuid>,
        game_data: LiveGame,
        now_ms: u64,
    )
        ensures
            final(self)@ == spec_set(old(self)@, game_id@, puuids.deep_view(), (CacheEntry { game: game_data, captured_ms: now_ms })),
    {
        let ghost m0 = self@;
        let ghost pv = puuids.deep_view();
        let gid: String = game_id.0;
        let entry = CacheEntry { game: game_data, captured_ms: now_ms };
        games_insert(&mut self.game_cache, gid.clone(), entry);
        let n = puuids.len();
        let mut i: usize = 0;
        while i < n
            invariant
                i <= n,
                n == puuids.len(),
                pv == puuids.deep_view(),
                pv.len() == n,
                gid@ == game_id@,
                game_entries(self.game_cache) == m0.games.insert(game_id@, (CacheEntry { game: game_data, captured_ms: now_ms })),
                index_entries(self.puuid_to_game) == index_after_set(m0.index, pv.take(i as int), game_id@),
                self.expiration_ms == m0.expiration_ms,
            decreases n - i,
        {
            proof {
                assert(pv[i as int] == puuids@[i as int]@);
                lemma_index_set_step(m0.index, pv, game_id@, i as int);
            }
            index_insert(&mut self.puuid_to_game, puuids[i].0.clone(), gid.clone());
            i += 1;
        }
        proof {
            assert(pv.take(n as int) =~= pv);
            assert(index_after_set(m0.index, pv.take(i as int), game_id@) == index_after_set(m0.index, pv, game_id@));
        }
    }

    /// Resolves a participant to the snapshot of the match it is in, if the
    /// cache holds a fresh one. A stale secondary entry, or an expired match,
    /// is removed on the way and the lookup comes back empty.
    pub fn get_game_data(&mut self, puuid: &Puuid, now_ms: u64) -> (r: Option<LiveGame>)
        ensures
            final(self)@ == spec_get(old(self)@, puuid@, now_ms).0,
            r.deep_view() == spec_get(old(self)@, puuid@, now_ms).1,
    {
        match index_get(&self.puuid_to_game, &puuid.0) {
            None => None,
            Some(game_id) => {
                match games_get(&self.game_cache, &game_id) {
                    None => {
                        index_remove(&mut self.puuid_to_game, &puuid.0);
                        None
                    },
                    Some(entry) => {
                        let diff: u64 = if now_ms >= entry.captured_ms {
                            now_ms - entry.captured_ms
                        } else {
                            0
                        };
                        if diff < self.expiration_ms {
                            let mut data = clone_live_game(&entry.game);
                            let add: u64 = diff / 1000;
                            data.game_length = if data.game_length <= u64::MAX - add {
                                data.game_length + add
                            } else {
                                u64::MAX
                            };
                            Some(data)
                        } else {
                            games_remove(&mut self.game_cache, &game_id);
                            index_remove(&mut self.puuid_to_game, &puuid.0);
                            None
                        }
                    },
                }
            },
        }
    }
}

/// The cache after one reaper sweep at the given instant: every expired
/// match is dropped, and with it every index entry that points at an
/// expired match. An index entry that points at no match at all is left to
/// the lookup path to heal.
pub open spec fn spec_sweep(m: CacheModel, now_ms: u64) -> CacheModel {
    CacheModel {
        games: Map::new(
            |g: Seq<char>| m.games.contains_key(g) && !entry_expired(m.games[g], now_ms, m.expiration_ms),
            |g: Seq<char>| m.games[g],
        ),
        index: Map::new(
            |p: Seq<char>| m.index.contains_key(p) && !(m.games.contains_key(m.index[p])
                && entry_expired(m.games[m.index[p]], now_ms, m.expiration_ms)),
            |p: Seq<char>| m.index[p],
        ),
        expiration_ms: m.expiration_ms,
    }
}

/// The keys of a listed sequence of entries.
pub open spec fn first_views(s: Seq<(Seq<char>, Seq<char>)>) -> Seq<Seq<char>> {
    Seq::new(s.len(), |i: int| s[i].0)
}

impl LiveGameCache {
    /// One pass of the background reaper: drops every snapshot that has been
    /// in the cache for at least the expiration duration, and every index
    /// entry that points at such a match.
    pub fn sweep(&mut self, now_ms: u64)
        ensures
            final(self)@ == spec_sweep(old(self)@, now_ms),
    {
        let ghost m0 = self@;
        let all = games_entry_list(&self.game_cache);
        let n = all.len();
        let mut expired: Vec<String> = Vec::new();
        let mut i: usize = 0;
        while i < n
            invariant
                i <= n,
                n == all.len(),
                pairs_match(all@, m0.games),
                pairs_keys_distinct(all@),
                pairs_complete(all@, m0.games),
                self@ == m0,
                forall|u: int| 0 <= u < expired@.len() ==> m0.games.contains_key(
                    (#[trigger] expired@[u])@,
                ) && entry_expired(m0.games[expired@[u]@], now_ms, m0.expiration_ms),
                forall|t: int| 0 <= t < i && entry_expired(
                    m0.games[(#[trigger] all@[t]).0@],
                    now_ms,
                    m0.expiration_ms,
                ) ==> exists|u: int| 0 <= u < expired@.len() && (#[trigger] expired@[u])@
                    == all@[t].0@,
            decreases n - i,
        {
            let cap = all[i].1.captured_ms;
            let el: u64 = if now_ms >= cap {
                now_ms - cap
            } else {
                0
            };
            if el >= self.expiration_ms {
                let ghost before = expired@;
                expired.push(all[i].0.clone());
                proof {
                    assert(expired@[before.len() as int]@ == all@[i as int].0@);
                    assert forall|t: int| 0 <= t < i + 1 && entry_expired(
                        m0.games[(#[trigger] all@[t]).0@],
                        now_ms,
                        m0.expiration_ms,
                    ) implies exists|u: int| 0 <= u < expired@.len() && (#[trigger] expired@[u])@
                        == all@[t].0@ by {
                        if t < i {
                            let u = choose|u: int| 0 <= u < before.len() && (#[trigger] before[u])@
                                == all@[t].0@;
                            assert(expired@[u]@ == all@[t].0@);
                        } else {
                            assert(expired@[before.len() as int]@ == all@[t].0@);
                        }
                    }
                }
            }
            i += 1;
        }
        let ghost exdv = expired.deep_view();
        proof {
            assert forall|u: int| 0 <= u < exdv.len() implies m0.games.contains_key(
                #[trigger] exdv[u],
            ) && entry_expired(m0.games[exdv[u]], now_ms, m0.expiration_ms) by {
                assert(exdv[u] == expired@[u]@);
            }
            assert forall|k: Seq<char>| m0.games.contains_key(k) && entry_expired(
                m0.games[k],
                now_ms,
                m0.expiration_ms,
            ) implies #[trigger] exdv.contains(k) by {
                let t = choose|t: int| 0 <= t < all@.len() && (#[trigger] all@[t].0@) == k;
                let u = choose|u: int| 0 <= u < expired@.len() && (#[trigger] expired@[u])@ == k;
                assert(exdv[u] == k);
            }
        }
        let en = expired.len();
        let mut j: usize = 0;
        while j < en
            invariant
                j <= en,
                en == expired.len(),
                exdv == expired.deep_view(),
                exdv.len() == en,
                forall|u: int| 0 <= u < exdv.len() ==> m0.games.contains_key(#[trigger] exdv[u])
                    && entry_expired(m0.games[exdv[u]], now_ms, m0.expiration_ms),
                forall|k: Seq<char>| m0.games.contains_key(k) && entry_expired(
                    m0.games[k],
                    now_ms,
                    m0.expiration_ms,
                ) ==> #[trigger] exdv.contains(k),
                game_entries(self.game_cache) == Map::new(
                    |k: Seq<char>| m0.games.contains_key(k) && !exdv.take(j as int).contains(k),
                    |k: Seq<char>| m0.games[k],
                ),
                index_entries(self.puuid_to_game) == m0.index,
                self.expiration_ms == m0.expiration_ms,
            decreases en - j,
        {
            let ghost prior = game_entries(self.game_cache);
            proof {
                lemma_take_succ_contains(exdv, j as int);
                assert(exdv[j as int] == expired@[j as int]@);
            }
            games_remove(&mut self.game_cache, &expired[j]);
            proof {
                assert(game_entries(self.game_cache) =~= Map::new(
                    |k: Seq<char>| m0.games.contains_key(k) && !exdv.take(j + 1).contains(k),
                    |k: Seq<char>| m0.games[k],
                ));
            }
            j += 1;
        }
        proof {
            assert(exdv.take(en as int) =~= exdv);
            assert(game_entries(self.game_cache) =~= spec_sweep(m0, now_ms).games);
        }
        let idx = index_entry_list(&self.puuid_to_game);
        let ghost idv = idx.deep_view();
        proof {
            assert(idv.len() == idx@.len());
            assert forall|t: int| 0 <= t < idv.len() implies #[trigger] idv[t]
                == (idx@[t].0@, idx@[t].1@) by {}
        }
        let inn = idx.len();
        let mut t: usize = 0;
        while t < inn
            invariant
                t <= inn,
                inn == idx.len(),
                idv == idx.deep_view(),
                idv.len() == inn,
                forall|u: int| 0 <= u < idv.len() ==> #[trigger] idv[u] == (idx@[u].0@, idx@[u].1@),
                index_pairs_match(idx@, m0.index),
                pairs_keys_distinct(idx@),
                pairs_complete(idx@, m0.index),
                forall|u: int| 0 <= u < exdv.len() ==> m0.games.contains_key(#[trigger] exdv[u])
                    && entry_expired(m0.games[exdv[u]], now_ms, m0.expiration_ms),
                forall|k: Seq<char>| m0.games.contains_key(k) && entry_expired(
                    m0.games[k],
                    now_ms,
                    m0.expiration_ms,
                ) ==> #[trigger] exdv.contains(k),
                exdv == expired.deep_view(),
                en == expired.len(),
                game_entries(self.game_cache) == spec_sweep(m0, now_ms).games,
                self.expiration_ms == m0.expiration_ms,
                index_entries(self.puuid_to_game) == Map::new(
                    |p: Seq<char>| m0.index.contains_key(p) && !(first_views(idv).take(
                        t as int,
                    ).contains(p) && exdv.contains(m0.index[p])),
                    |p: Seq<char>| m0.index[p],
                ),
            decreases inn - t,
        {
            let ghost fk = first_views(idv);
            let ghost prior = index_entries(self.puuid_to_game);
            proof {
                lemma_take_succ_contains(fk, t as int);
                assert(fk[t as int] == idx@[t as int].0@);
                assert(m0.index[idx@[t as int].0@] == idx@[t as int].1@);
            }
            let is_ex = contains_string(&expired, &idx[t].1);
            if is_ex {
                index_remove(&mut self.puuid_to_game, &idx[t].0);
                proof {
                    assert(index_entries(self.puuid_to_game) =~= Map::new(
                        |p: Seq<char>| m0.index.contains_key(p) && !(fk.take(t + 1).contains(p)
                            && exdv.contains(m0.index[p])),
                        |p: Seq<char>| m0.index[p],
                    ));
                }
            } else {
                proof {
                    assert(prior =~= Map::new(
                        |p: Seq<char>| m0.index.contains_key(p) && !(fk.take(t + 1).contains(p)
                            && exdv.contains(m0.index[p])),
                        |p: Seq<char>| m0.index[p],
                    ));
                }
            }
            t += 1;
        }
        proof {
            let fk = first_views(idv);
            assert(fk.take(inn as int) =~= fk);
            assert forall|p: Seq<char>| m0.index.contains_key(p) implies #[trigger] fk.contains(
                p,
            ) by {
                let u = choose|u: int| 0 <= u < idx@.len() && (#[trigger] idx@[u].0@) == p;
                assert(fk[u] == p);
            }
            assert(index_entries(self.puuid_to_game) =~= spec_sweep(m0, now_ms).index);
        }
    }
}

/// Expiry: after a match is stored and at least the expiration duration
/// passes, looking up a participant that was pointed at it comes back
/// empty, drops the match from the primary store, and drops that
/// participant from the index.
pub proof fn lemma_expiry(
    m0: CacheModel,
    game_id: Seq<char>,
    puuids: Seq<Seq<char>>,
    entry: CacheEntry,
    p: Seq<char>,
    now_ms: u64,
)
    requires
        puuids.contains(p),
        entry.captured_ms <= now_ms,
        now_ms - entry.captured_ms >= m0.expiration_ms,
    ensures
        spec_get(spec_set(m0, game_id, puuids, entry), p, now_ms).1 is None,
        !spec_get(spec_set(m0, game_id, puuids, entry), p, now_ms).0.games.contains_key(game_id),
        !spec_get(spec_set(m0, game_id, puuids, entry), p, now_ms).0.index.contains_key(p),
{
    let m1 = spec_set(m0, game_id, puuids, entry);
    assert(m1.index[p] == game_id);
    assert(m1.games[game_id] == entry);
}

/// Elapsed extrapolation: while the stored snapshot is still fresh, a
/// lookup changes nothing and returns the snapshot with its elapsed
/// duration advanced by the whole seconds passed since capture.
pub proof fn lemma_elapsed_extrapolation(
    m0: CacheModel,
    game_id: Seq<char>,
    puuids: Seq<Seq<char>>,
    entry: CacheEntry,
    p: Seq<char>,
    now_ms: u64,
)
    requires
        puuids.contains(p),
        entry.captured_ms <= now_ms,
        now_ms - entry.captured_ms < m0.expiration_ms,
        entry.game.game_length + (now_ms - entry.captured_ms) / 1000 <= u64::MAX,
    ensures
        spec_get(spec_set(m0, game_id, puuids, entry), p, now_ms).0 == spec_set(m0, game_id, puuids, entry),
        spec_get(spec_set(m0, game_id, puuids, entry), p, now_ms).1 matches Some(g)
            && g.game_length == entry.game.game_length + (now_ms - entry.captured_ms) / 1000
            && g.game_mode == entry.game.game_mode@
            && g.participants == entry.game.participants.deep_view(),
{
    let m1 = spec_set(m0, game_id, puuids, entry);
    assert(m1.index[p] == game_id);
    assert(m1.games[game_id] == entry);
}

/// Index self-healing: a secondary entry that points at a missing match
/// never surfaces as an error; the lookup comes back empty, drops that
/// entry, and touches nothing else.
pub proof fn lemma_index_self_healing(m: CacheModel, p: Seq<char>, now_ms: u64)
    requires
        m.index.contains_key(p),
        !m.games.contains_key(m.index[p]),
    ensures
        spec_get(m, p, now_ms).1 is None,
        !spec_get(m, p, now_ms).0.index.contains_key(p),
        spec_get(m, p, now_ms).0.games == m.games,
        forall|q: Seq<char>| q != p && m.index.contains_key(q)
            ==> spec_get(m, p, now_ms).0.index.contains_key(q)
                && spec_get(m, p, now_ms).0.index[q] == m.index[q],
{
}

/// Overwrite: storing a snapshot for the same match twice keeps exactly the
/// second entry, and every participant listed the second time points at the
/// match; no fields of the two snapshots are merged.
pub proof fn lemma_overwrite(
    m0: CacheModel,
    game_id: Seq<char>,
    ps1: Seq<Seq<char>>,
    e1: CacheEntry,
    ps2: Seq<Seq<char>>,
    e2: CacheEntry,
)
    ensures
        spec_set(spec_set(m0, game_id, ps1, e1), game_id, ps2, e2).games.contains_key(game_id),
        spec_set(spec_set(m0, game_id, ps1, e1), game_id, ps2, e2).games[game_id] == e2,
        forall|q: Seq<char>| ps2.contains(q) ==> spec_set(
            spec_set(m0, game_id, ps1, e1),
            game_id,
            ps2,
            e2,
        ).index[q] == game_id,
{
}

/// Pointing one more participant at the match refines the overwritten index
/// by a single insertion.
proof fn lemma_index_set_step(
    index: Map<Seq<char>, Seq<char>>,
    puuids: Seq<Seq<char>>,
    game_id: Seq<char>,
    i: int,
)
    requires
        0 <= i < puuids.len(),
    ensures
        index_after_set(index, puuids.take(i + 1), game_id) == index_after_set(
            index,
            puuids.take(i),
            game_id,
        ).insert(puuids[i], game_id),
{
    lemma_take_succ_contains(puuids, i);
    assert(index_after_set(index, puuids.take(i + 1), game_id) =~= index_after_set(
        index,
        puuids.take(i),
        game_id,
    ).insert(puuids[i], game_id));
}

} // verus!
