use vstd::prelude::*;

use crate::batch::SummonerRecord;
use crate::text::{contains_string, lemma_push_contains, lemma_take_succ_contains};

verus! {

/// The persisted state the pipeline deduplicates against: which match
/// identifiers are already stored, and for each known account the freshness
/// timestamp of its stored row.
pub struct StoreModel {
    pub matches: Set<Seq<char>>,
    pub summoners: Map<Seq<char>, i64>,
}

/// The fetched match identifiers that are new: not yet persisted, each kept
/// once, in the order of its first occurrence.
pub open spec fn spec_unseen(fetched: Seq<Seq<char>>, known: Set<Seq<char>>) -> Seq<Seq<char>>
    decreases fetched.len(),
{
    if fetched.len() == 0 {
        Seq::empty()
    } else {
        let rest = spec_unseen(fetched.drop_last(), known);
        if known.contains(fetched.last()) || fetched.drop_last().contains(fetched.last()) {
            rest
        } else {
            rest.push(fetched.last())
        }
    }
}

/// Keeps the fetched match identifiers that are not persisted yet, each
/// once, in order of first occurrence, so the provider is never asked for a
/// match already known and a re-run stages nothing.
pub fn select_unseen_matches(fetched: &Vec<String>, known: &Vec<String>) -> (r: Vec<String>)
    ensures
        r.deep_view() == spec_unseen(fetched.deep_view(), known.deep_view().to_set()),
{
    let ghost fv = fetched.deep_view();
    let ghost ks = known.deep_view().to_set();
    let mut out: Vec<String> = Vec::new();
    let n = fetched.len();
    let mut i: usize = 0;
    proof {
        assert(fv.take(0) =~= Seq::empty());
    }
    while i < n
        invariant
            i <= n,
            n == fetched.len(),
            fv == fetched.deep_view(),
            fv.len() == n,
            ks == known.deep_view().to_set(),
            out.deep_view() == spec_unseen(fv.take(i as int), ks),
            forall|x: Seq<char>| #[trigger] out.deep_view().contains(x) <==> fv.take(
                i as int,
            ).contains(x) && !ks.contains(x),
        decreases n - i,
    {
        let ghost pre = out.deep_view();
        proof {
            lemma_take_succ_contains(fv, i as int);
            assert(fv.take(i + 1).drop_last() =~= fv.take(i as int));
            assert(fv.take(i + 1).last() == fv[i as int]);
            assert(fv[i as int] == fetched@[i as int]@);
        }
        let in_known = contains_string(known, &fetched[i]);
        proof {
            if in_known {
                assert(ks.contains(fv[i as int]));
            } else {
                assert(!ks.contains(fv[i as int]));
            }
        }
        if !in_known {
            let in_out = contains_string(&out, &fetched[i]);
            if !in_out {
                out.push(fetched[i].clone());
                proof {
                    assert(out.deep_view() =~= pre.push(fv[i as int]));
                    lemma_push_contains(pre, fv[i as int]);
                    assert(!fv.take(i as int).contains(fv[i as int]));
                    assert(out.deep_view() == spec_unseen(fv.take(i + 1), ks));
                }
            } else {
                proof {
                    assert(pre.contains(fv[i as int]));
                    assert(fv.take(i as int).contains(fv[i as int]));
                    assert(pre == spec_unseen(fv.take(i + 1), ks));
                }
            }
        } else {
            proof {
                assert(pre == spec_unseen(fv.take(i + 1), ks));
            }
        }
        i += 1;
    }
    proof {
        assert(fv.take(n as int) =~= fv);
    }
    out
}

/// The timestamp stored for a key in an association list, the later entry
/// winning, as [`assoc_map`] reads it.
pub open spec fn spec_assoc_get(s: Seq<(Seq<char>, i64)>, k: Seq<char>) -> Option<i64>
    decreases s.len(),
{
    if s.len() == 0 {
        None
    } else if s.last().0 == k {
        Some(s.last().1)
    } else {
        spec_assoc_get(s.drop_last(), k)
    }
}

/// The association list read as a map; a repeated key keeps its last value.
pub open spec fn assoc_map(s: Seq<(Seq<char>, i64)>) -> Map<Seq<char>, i64>
    decreases s.len(),
{
    if s.len() == 0 {
        Map::empty()
    } else {
        assoc_map(s.drop_last()).insert(s.last().0, s.last().1)
    }
}

/// Reading the association list and reading the map it denotes agree.
pub proof fn lemma_assoc_get_is_map_get(s: Seq<(Seq<char>, i64)>, k: Seq<char>)
    ensures
        assoc_map(s).contains_key(k) <==> spec_assoc_get(s, k) is Some,
        spec_assoc_get(s, k) matches Some(v) ==> assoc_map(s)[k] == v,
    decreases s.len(),
{
    if s.len() == 0 {
    } else {
        lemma_assoc_get_is_map_get(s.drop_last(), k);
    }
}

/// Resolves a natural key against the known-account rows, the later row
/// winning where a key repeats.
pub fn lookup_known_ts(existing: &Vec<(String, i64)>, puuid: &String) -> (r: Option<i64>)
    ensures
        r == spec_assoc_get(existing.deep_view(), puuid@),
{
    let n = existing.len();
    let mut i: usize = n;
    proof {
        assert(existing.deep_view().take(n as int) =~= existing.deep_view());
    }
    while i > 0
        invariant
            i <= n,
            n == existing@.len(),
            existing.deep_view().len() == n,
            forall|j: int| 0 <= j < n ==> (#[trigger] existing.deep_view()[j]) == (
                existing@[j].0@,
                existing@[j].1,
            ),
            spec_assoc_get(existing.deep_view(), puuid@) == spec_assoc_get(
                existing.deep_view().take(i as int),
                puuid@,
            ),
        decreases i,
    {
        proof {
            assert(existing.deep_view().take(i as int).last() == existing.deep_view()[i - 1]);
            assert(existing.deep_view().take(i as int).drop_last() =~= existing.deep_view().take(
                i - 1,
            ));
        }
        if existing[i - 1].0.eq(puuid) {
            return Some(existing[i - 1].1);
        }
        i -= 1;
    }
    proof {
        assert(existing.deep_view().take(0) =~= Seq::empty());
    }
    None
}

/// The incoming account records whose natural key the store does not know
/// yet, in order.
pub open spec fn spec_inserts(incoming: Seq<SummonerRecord>, known: Map<Seq<char>, i64>) -> Seq<
    SummonerRecord,
>
    decreases incoming.len(),
{
    if incoming.len() == 0 {
        Seq::empty()
    } else {
        let rest = spec_inserts(incoming.drop_last(), known);
        if !known.contains_key(incoming.last().puuid@) {
            rest.push(incoming.last())
        } else {
            rest
        }
    }
}

/// The incoming account records whose natural key the store knows and whose
/// timestamp is strictly newer than the stored one, in order: the conflict
/// rule overwrites only strictly newer data, never unconditionally.
pub open spec fn spec_updates(incoming: Seq<SummonerRecord>, known: Map<Seq<char>, i64>) -> Seq<
    SummonerRecord,
>
    decreases incoming.len(),
{
    if incoming.len() == 0 {
        Seq::empty()
    } else {
        let rest = spec_updates(incoming.drop_last(), known);
        if known.contains_key(incoming.last().puuid@) && incoming.last().updated_at > known[
            incoming.last().puuid@
        ] {
            rest.push(incoming.last())
        } else {
            rest
        }
    }
}

/// Copies an account staging record field by field.
pub fn clone_summoner_record(r: &SummonerRecord) -> (c: SummonerRecord)
    ensures
        c == *r,
{
    SummonerRecord {
        puuid: r.puuid.clone(),
        game_name: r.game_name.clone(),
        tag_line: r.tag_line.clone(),
        platform: r.platform.clone(),
        summoner_level: r.summoner_level,
        profile_icon_id: r.profile_icon_id,
        updated_at: r.updated_at,
    }
}

/// Splits an incoming account batch against the already-known rows: records
/// with an unknown key are to be inserted, records with a known key are to
/// be updated only when strictly newer, and anything else is dropped, which
/// keeps a re-run of the same batch from writing anything.
pub fn plan_summoner_upserts(incoming: &Vec<SummonerRecord>, existing: &Vec<(String, i64)>) -> (r: (
    Vec<SummonerRecord>,
    Vec<SummonerRecord>,
))
    ensures
        r.0@ == spec_inserts(incoming@, assoc_map(existing.deep_view())),
        r.1@ == spec_updates(incoming@, assoc_map(existing.deep_view())),
{
    let ghost km = assoc_map(existing.deep_view());
    let mut inserts: Vec<SummonerRecord> = Vec::new();
    let mut updates: Vec<SummonerRecord> = Vec::new();
    let n = incoming.len();
    let mut i: usize = 0;
    proof {
        assert(incoming@.take(0) =~= Seq::empty());
    }
    while i < n
        invariant
            i <= n,
            n == incoming@.len(),
            km == assoc_map(existing.deep_view()),
            inserts@ == spec_inserts(incoming@.take(i as int), km),
            updates@ == spec_updates(incoming@.take(i as int), km),
        decreases n - i,
    {
        proof {
            assert(incoming@.take(i + 1).drop_last() =~= incoming@.take(i as int));
            assert(incoming@.take(i + 1).last() == incoming@[i as int]);
            lemma_assoc_get_is_map_get(existing.deep_view(), incoming@[i as int].puuid@);
        }
        match lookup_known_ts(existing, &incoming[i].puuid) {
            None => {
                inserts.push(clone_summoner_record(&incoming[i]));
            },
            Some(ts) => {
                if incoming[i].updated_at > ts {
                    updates.push(clone_summoner_record(&incoming[i]));
                }
            },
        }
        i += 1;
    }
    proof {
        assert(incoming@.take(n as int) =~= incoming@);
    }
    (inserts, updates)
}

/// The stored account rows after one committed batch: an unknown key is
/// inserted, a known key is overwritten only by a strictly newer timestamp.
pub open spec fn upsert_one(m: Map<Seq<char>, i64>, r: SummonerRecord) -> Map<Seq<char>, i64> {
    if !m.contains_key(r.puuid@) || r.updated_at > m[r.puuid@] {
        m.insert(r.puuid@, r.updated_at)
    } else {
        m
    }
}

/// The stored account rows after committing a whole batch, record by record.
pub open spec fn apply_summoners(m: Map<Seq<char>, i64>, incoming: Seq<SummonerRecord>) -> Map<
    Seq<char>,
    i64,
>
    decreases incoming.len(),
{
    if incoming.len() == 0 {
        m
    } else {
        upsert_one(apply_summoners(m, incoming.drop_last()), incoming.last())
    }
}

/// After a batch commits, the store knows every key of the batch at least
/// as fresh as the batch wrote it, and no stored row has become older.
proof fn lemma_apply_covers(m: Map<Seq<char>, i64>, s: Seq<SummonerRecord>)
    ensures
        forall|i: int| 0 <= i < s.len() ==> apply_summoners(m, s).contains_key(
            (#[trigger] s[i]).puuid@,
        ) && apply_summoners(m, s)[s[i].puuid@] >= s[i].updated_at,
        forall|k: Seq<char>| m.contains_key(k) ==> apply_summoners(m, s).contains_key(k)
            && apply_summoners(m, s)[k] >= m[k],
    decreases s.len(),
{
    if s.len() == 0 {
    } else {
        lemma_apply_covers(m, s.drop_last());
        assert forall|i: int| 0 <= i < s.len() implies apply_summoners(m, s).contains_key(
            (#[trigger] s[i]).puuid@,
        ) && apply_summoners(m, s)[s[i].puuid@] >= s[i].updated_at by {
            if i < s.len() - 1 {
                assert(s.drop_last()[i] == s[i]);
            }
        }
    }
}

/// A batch the store already holds at least as fresh writes nothing.
proof fn lemma_apply_noop(m: Map<Seq<char>, i64>, s: Seq<SummonerRecord>)
    requires
        forall|i: int| 0 <= i < s.len() ==> m.contains_key((#[trigger] s[i]).puuid@) && m[
            s[i].puuid@
        ] >= s[i].updated_at,
    ensures
        apply_summoners(m, s) == m,
        spec_inserts(s, m).len() == 0,
        spec_updates(s, m).len() == 0,
    decreases s.len(),
{
    if s.len() == 0 {
    } else {
        assert forall|i: int| 0 <= i < s.drop_last().len() implies m.contains_key(
            (#[trigger] s.drop_last()[i]).puuid@,
        ) && m[s.drop_last()[i].puuid@] >= s.drop_last()[i].updated_at by {
            assert(s.drop_last()[i] == s[i]);
        }
        lemma_apply_noop(m, s.drop_last());
        assert(s.last() == s[s.len() - 1]);
    }
}

/// Every element of a sequence of identifiers is known after the set of its
/// elements joins the known set, so nothing of it is unseen.
proof fn lemma_unseen_all_known(fetched: Seq<Seq<char>>, known: Set<Seq<char>>)
    requires
        forall|x: Seq<char>| fetched.contains(x) ==> known.contains(x),
    ensures
        spec_unseen(fetched, known).len() == 0,
    decreases fetched.len(),
{
    if fetched.len() == 0 {
    } else {
        assert forall|x: Seq<char>| fetched.drop_last().contains(x) implies known.contains(x) by {
            let j = choose|j: int| 0 <= j < fetched.drop_last().len() && #[trigger] fetched.drop_last()[j] == x;
            assert(fetched[j] == x);
            assert(fetched.contains(x));
        }
        lemma_unseen_all_known(fetched.drop_last(), known);
        assert(fetched[fetched.len() - 1] == fetched.last());
        assert(fetched.contains(fetched.last()));
    }
}

/// Idempotent re-ingestion: a second cycle against an unchanged provider
/// response stages no match, inserts no account, updates no account, and
/// leaves the persisted state exactly as the first cycle left it.
pub proof fn lemma_idempotent_reingestion(
    store: StoreModel,
    fetched: Seq<Seq<char>>,
    incoming: Seq<SummonerRecord>,
)
    ensures
        spec_unseen(fetched, store.matches.union(fetched.to_set())).len() == 0,
        store.matches.union(fetched.to_set()).union(fetched.to_set()) == store.matches.union(
            fetched.to_set(),
        ),
        spec_inserts(incoming, apply_summoners(store.summoners, incoming)).len() == 0,
        spec_updates(incoming, apply_summoners(store.summoners, incoming)).len() == 0,
        apply_summoners(apply_summoners(store.summoners, incoming), incoming) == apply_summoners(
            store.summoners,
            incoming,
        ),
{
    assert forall|x: Seq<char>| fetched.contains(x) implies store.matches.union(
        fetched.to_set(),
    ).contains(x) by {}
    lemma_unseen_all_known(fetched, store.matches.union(fetched.to_set()));
    assert(store.matches.union(fetched.to_set()).union(fetched.to_set()) =~= store.matches.union(
        fetched.to_set(),
    ));
    let m1 = apply_summoners(store.summoners, incoming);
    lemma_apply_covers(store.summoners, incoming);
    lemma_apply_noop(m1, incoming);
}

/// The steps of one ingestion cycle, in the order they run.
#[derive(Clone, Copy, PartialEq, Eq, Structural, Debug)]
pub enum CycleStep {
    Idle,
    FetchCandidates,
    ResolveExisting,
    FetchDetails,
    StageRows,
    Commit,
}

/// What the outside work of one step came to.
#[derive(Clone, Copy, PartialEq, Eq, Structural, Debug)]
pub enum StepOutcome {
    Succeeded,
    Failed,
}

/// The step that follows: success walks the cycle forward and wraps from
/// the commit back to idle; a failure at any step abandons the cycle and
/// re-enters idle, to be retried on the next schedule.
pub open spec fn spec_advance(step: CycleStep, outcome: StepOutcome) -> CycleStep {
    match outcome {
        StepOutcome::Failed => CycleStep::Idle,
        StepOutcome::Succeeded => match step {
            CycleStep::Idle => CycleStep::FetchCandidates,
            CycleStep::FetchCandidates => CycleStep::ResolveExisting,
            CycleStep::ResolveExisting => CycleStep::FetchDetails,
            CycleStep::FetchDetails => CycleStep::StageRows,
            CycleStep::StageRows => CycleStep::Commit,
            CycleStep::Commit => CycleStep::Idle,
        },
    }
}

/// Drives the cycle state machine one step; the caller performs the outside
/// work of each step and reports how it went.
pub fn advance_cycle(step: CycleStep, outcome: StepOutcome) -> (r: CycleStep)
    ensures
        r == spec_advance(step, outcome),
{
    match outcome {
        StepOutcome::Failed => CycleStep::Idle,
        StepOutcome::Succeeded => match step {
            CycleStep::Idle => CycleStep::FetchCandidates,
            CycleStep::FetchCandidates => CycleStep::ResolveExisting,
            CycleStep::ResolveExisting => CycleStep::FetchDetails,
            CycleStep::FetchDetails => CycleStep::StageRows,
            CycleStep::StageRows => CycleStep::Commit,
            CycleStep::Commit => CycleStep::Idle,
        },
    }
}

} // verus!
