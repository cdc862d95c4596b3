use ruche::batch::{
    pair_generated_ids, resolve_generated_id, transpose_participants, transpose_summoners,
    ParticipantRecord, SummonerRecord,
};

fn participant(summoner_id: i32, champion_id: i32) -> ParticipantRecord {
    ParticipantRecord {
        champion_id,
        summoner_id,
        lol_match_id: 7,
        summoner_spell1_id: 4,
        summoner_spell2_id: 14,
        team_id: 100,
        won: summoner_id % 2 == 0,
        champ_level: 18,
        kill_participation: 512,
        kda: 3_250,
        kills: 10,
        deaths: 4,
        assists: 3,
        damage_dealt_to_champions: 20_000,
        damage_taken: 18_000,
        gold_earned: 12_345,
        wards_placed: 9,
        cs: 210,
        cs_per_minute: 7_300,
        double_kills: 2,
        triple_kills: 1,
        quadra_kills: 0,
        penta_kills: 0,
        perk_defense_id: 5002,
        perk_flex_id: 5008,
        perk_offense_id: 5005,
        perk_primary_style_id: 8000,
        perk_sub_style_id: 8100,
        perk_primary_selection_id: 8005,
        perk_primary_selection1_id: 9111,
        perk_primary_selection2_id: 9104,
        perk_primary_selection3_id: 8014,
        perk_sub_selection1_id: 8126,
        perk_sub_selection2_id: 8135,
        item0_id: 3031,
        item1_id: 3006,
        item2_id: 3046,
        item3_id: 3072,
        item4_id: 3036,
        item5_id: 3026,
        item6_id: 3363,
    }
}

fn summoner(puuid: &str, level: i64, updated_at: i64) -> SummonerRecord {
    SummonerRecord {
        puuid: puuid.to_string(),
        game_name: format!("name-{}", puuid),
        tag_line: "EUW".to_string(),
        platform: "EUW1".to_string(),
        summoner_level: level,
        profile_icon_id: 1234,
        updated_at,
    }
}

#[test]
fn participant_columns_keep_positions() {
    let records = vec![participant(1, 266), participant(2, 103), participant(3, 84)];
    let cols = transpose_participants(&records);
    assert_eq!(cols.champion_ids, vec![266, 103, 84]);
    assert_eq!(cols.summoner_ids, vec![1, 2, 3]);
    assert_eq!(cols.wons, vec![false, true, false]);
    assert_eq!(cols.kdas.len(), 3);
    assert_eq!(cols.item6_ids, vec![3363, 3363, 3363]);
    assert_eq!(cols.cs_per_minutes, vec![7_300, 7_300, 7_300]);
}

#[test]
fn empty_participant_batch_gives_empty_columns() {
    let cols = transpose_participants(&Vec::new());
    assert_eq!(cols.champion_ids.len(), 0);
    assert_eq!(cols.item0_ids.len(), 0);
}

#[test]
fn summoner_columns_keep_positions() {
    let records = vec![summoner("p1", 30, 100), summoner("p2", 450, 200)];
    let cols = transpose_summoners(&records);
    assert_eq!(cols.puuids, vec!["p1".to_string(), "p2".to_string()]);
    assert_eq!(cols.game_names, vec!["name-p1".to_string(), "name-p2".to_string()]);
    assert_eq!(cols.summoner_levels, vec![30, 450]);
    assert_eq!(cols.updated_ats, vec![100, 200]);
}

#[test]
fn three_records_resolve_to_their_own_ids() {
    let records = vec![summoner("pa", 1, 10), summoner("pb", 2, 20), summoner("pc", 3, 30)];
    let ids = vec![101, 102, 103];
    let pairs = pair_generated_ids(&records, &ids);
    assert_eq!(resolve_generated_id(&pairs, &"pa".to_string()), Some(101));
    assert_eq!(resolve_generated_id(&pairs, &"pb".to_string()), Some(102));
    assert_eq!(resolve_generated_id(&pairs, &"pc".to_string()), Some(103));
    assert_eq!(resolve_generated_id(&pairs, &"pd".to_string()), None);
}
