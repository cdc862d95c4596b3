use ruche::batch::SummonerRecord;
use ruche::ingest::{
    advance_cycle, lookup_known_ts, plan_summoner_upserts, select_unseen_matches, CycleStep,
    StepOutcome,
};

fn record(puuid: &str, updated_at: i64) -> SummonerRecord {
    SummonerRecord {
        puuid: puuid.to_string(),
        game_name: puuid.to_uppercase(),
        tag_line: "EUW".to_string(),
        platform: "EUW1".to_string(),
        summoner_level: 100,
        profile_icon_id: 1,
        updated_at,
    }
}

#[test]
fn unseen_matches_drop_known_and_duplicates() {
    let fetched = vec![
        "m1".to_string(),
        "m2".to_string(),
        "m1".to_string(),
        "m3".to_string(),
    ];
    let known = vec!["m2".to_string()];
    assert_eq!(
        select_unseen_matches(&fetched, &known),
        vec!["m1".to_string(), "m3".to_string()]
    );
}

#[test]
fn unseen_matches_of_empty_fetch_is_empty() {
    let fetched: Vec<String> = Vec::new();
    let known = vec!["m2".to_string()];
    assert!(select_unseen_matches(&fetched, &known).is_empty());
}

#[test]
fn second_run_stages_no_matches() {
    let fetched = vec!["m1".to_string(), "m2".to_string()];
    let known: Vec<String> = Vec::new();
    let first = select_unseen_matches(&fetched, &known);
    assert_eq!(first.len(), 2);
    let second = select_unseen_matches(&fetched, &first);
    assert!(second.is_empty());
}

#[test]
fn plan_splits_new_newer_and_stale() {
    let incoming = vec![record("new", 50), record("newer", 90), record("stale", 10)];
    let existing = vec![("newer".to_string(), 80i64), ("stale".to_string(), 10i64)];
    let (inserts, updates) = plan_summoner_upserts(&incoming, &existing);
    assert_eq!(inserts.len(), 1);
    assert_eq!(inserts[0].puuid, "new");
    assert_eq!(updates.len(), 1);
    assert_eq!(updates[0].puuid, "newer");
}

#[test]
fn plan_of_replayed_batch_writes_nothing() {
    let incoming = vec![record("a", 50), record("b", 90)];
    let existing = vec![("a".to_string(), 50i64), ("b".to_string(), 90i64)];
    let (inserts, updates) = plan_summoner_upserts(&incoming, &existing);
    assert!(inserts.is_empty());
    assert!(updates.is_empty());
}

#[test]
fn known_timestamp_lookup_prefers_later_row() {
    let existing = vec![("a".to_string(), 1i64), ("a".to_string(), 7i64)];
    assert_eq!(lookup_known_ts(&existing, &"a".to_string()), Some(7));
    assert_eq!(lookup_known_ts(&existing, &"b".to_string()), None);
}

#[test]
fn cycle_walks_forward_on_success() {
    let mut step = CycleStep::Idle;
    let order = [
        CycleStep::FetchCandidates,
        CycleStep::ResolveExisting,
        CycleStep::FetchDetails,
        CycleStep::StageRows,
        CycleStep::Commit,
        CycleStep::Idle,
    ];
    for expected in order {
        step = advance_cycle(step, StepOutcome::Succeeded);
        assert_eq!(step, expected);
    }
}

#[test]
fn any_failure_reenters_idle() {
    for step in [
        CycleStep::Idle,
        CycleStep::FetchCandidates,
        CycleStep::ResolveExisting,
        CycleStep::FetchDetails,
        CycleStep::StageRows,
        CycleStep::Commit,
    ] {
        assert_eq!(advance_cycle(step, StepOutcome::Failed), CycleStep::Idle);
    }
}
