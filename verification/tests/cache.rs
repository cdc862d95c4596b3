use ruche::ids::{Puuid, RiotMatchId};
use ruche::live_game_cache::{LiveGame, LiveGameCache};

fn snapshot(duration: u64) -> LiveGame {
    LiveGame {
        game_mode: "CLASSIC".to_string(),
        game_length: duration,
        participants: vec!["A".to_string(), "B".to_string()],
    }
}

const EXPIRY_MS: u64 = 120_000;

#[test]
fn fresh_lookup_returns_stored_duration() {
    let mut cache = LiveGameCache::new(EXPIRY_MS);
    cache.set_game_data(
        RiotMatchId::new("G1".to_string()),
        vec![Puuid::new("A".to_string()), Puuid::new("B".to_string())],
        snapshot(600),
        1_000,
    );
    let got = cache.get_game_data(&Puuid::new("A".to_string()), 1_000);
    assert_eq!(got.unwrap().game_length, 600);
}

#[test]
fn lookup_extrapolates_elapsed_seconds() {
    let mut cache = LiveGameCache::new(EXPIRY_MS);
    cache.set_game_data(
        RiotMatchId::new("G1".to_string()),
        vec![Puuid::new("A".to_string()), Puuid::new("B".to_string())],
        snapshot(600),
        1_000,
    );
    let got = cache.get_game_data(&Puuid::new("A".to_string()), 31_000);
    let game = got.unwrap();
    assert_eq!(game.game_length, 630);
    assert_eq!(game.game_mode, "CLASSIC");
    assert_eq!(game.participants, vec!["A".to_string(), "B".to_string()]);
}

#[test]
fn expired_entry_is_gone_from_both_stores() {
    let mut cache = LiveGameCache::new(EXPIRY_MS);
    cache.set_game_data(
        RiotMatchId::new("G1".to_string()),
        vec![Puuid::new("A".to_string()), Puuid::new("B".to_string())],
        snapshot(600),
        1_000,
    );
    assert!(cache.get_game_data(&Puuid::new("A".to_string()), 1_000 + EXPIRY_MS).is_none());
    // the match left the primary store with the first lookup; the stale
    // entry for the other participant is healed on its own lookup
    assert!(cache.get_game_data(&Puuid::new("B".to_string()), 1_000 + EXPIRY_MS).is_none());
    // both entries stay gone even before expiry of a fresh clock reading
    assert!(cache.get_game_data(&Puuid::new("A".to_string()), 2_000).is_none());
    assert!(cache.get_game_data(&Puuid::new("B".to_string()), 2_000).is_none());
}

#[test]
fn overwrite_keeps_only_second_snapshot() {
    let mut cache = LiveGameCache::new(EXPIRY_MS);
    cache.set_game_data(
        RiotMatchId::new("G1".to_string()),
        vec![Puuid::new("A".to_string())],
        snapshot(600),
        1_000,
    );
    let mut second = snapshot(900);
    second.game_mode = "ARAM".to_string();
    cache.set_game_data(
        RiotMatchId::new("G1".to_string()),
        vec![Puuid::new("A".to_string())],
        second,
        2_000,
    );
    let game = cache.get_game_data(&Puuid::new("A".to_string()), 2_000).unwrap();
    assert_eq!(game.game_length, 900);
    assert_eq!(game.game_mode, "ARAM");
}

#[test]
fn sweep_evicts_expired_matches_and_their_index_entries() {
    let mut cache = LiveGameCache::new(EXPIRY_MS);
    cache.set_game_data(
        RiotMatchId::new("G1".to_string()),
        vec![Puuid::new("A".to_string()), Puuid::new("B".to_string())],
        snapshot(600),
        1_000,
    );
    cache.set_game_data(
        RiotMatchId::new("G2".to_string()),
        vec![Puuid::new("C".to_string())],
        snapshot(50),
        100_000,
    );
    cache.sweep(1_000 + EXPIRY_MS);
    assert!(cache.get_game_data(&Puuid::new("A".to_string()), 1_500).is_none());
    assert!(cache.get_game_data(&Puuid::new("B".to_string()), 1_500).is_none());
    assert!(cache.get_game_data(&Puuid::new("C".to_string()), 121_000).is_some());
}

#[test]
fn sweep_keeps_fresh_entries() {
    let mut cache = LiveGameCache::new(EXPIRY_MS);
    cache.set_game_data(
        RiotMatchId::new("G1".to_string()),
        vec![Puuid::new("A".to_string())],
        snapshot(600),
        1_000,
    );
    cache.sweep(2_000);
    assert_eq!(cache.get_game_data(&Puuid::new("A".to_string()), 2_000).unwrap().game_length, 601);
}

#[test]
fn example_scenario_full_lifecycle() {
    let mut cache = LiveGameCache::new(EXPIRY_MS);
    let t0: u64 = 10_000;
    cache.set_game_data(
        RiotMatchId::new("G1".to_string()),
        vec![Puuid::new("A".to_string()), Puuid::new("B".to_string())],
        snapshot(600),
        t0,
    );
    assert_eq!(cache.get_game_data(&Puuid::new("A".to_string()), t0).unwrap().game_length, 600);
    assert_eq!(
        cache.get_game_data(&Puuid::new("A".to_string()), t0 + 30_000).unwrap().game_length,
        630
    );
    assert!(cache.get_game_data(&Puuid::new("A".to_string()), t0 + EXPIRY_MS + 1).is_none());
    assert!(cache.get_game_data(&Puuid::new("B".to_string()), t0 + EXPIRY_MS + 1).is_none());
}

#[test]
fn unknown_participant_is_empty() {
    let mut cache = LiveGameCache::new(EXPIRY_MS);
    assert!(cache.get_game_data(&Puuid::new("nobody".to_string()), 0).is_none());
}
