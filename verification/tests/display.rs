use ruche::format::{format_timestamp, version_to_major_minor};
use ruche::match_events::{ItemEvent, ItemEventType, Skill};
use ruche::perk::Perk;
use ruche::summoner::{summoner_from_row, upsert_decision, AccountAction, Summoner};
use ruche::urls::{parse_summoner_slug, summoner_not_found_url, summoner_to_slug, summoner_url};

#[test]
fn version_keeps_major_and_minor() {
    assert_eq!(version_to_major_minor("14.23.1".to_string()), "14.23");
    assert_eq!(version_to_major_minor("14.5".to_string()), "14.5");
    assert_eq!(version_to_major_minor("1.".to_string()), "1.");
}

#[test]
fn timestamps_render_as_day_month_year() {
    assert_eq!(format_timestamp(0), "01/01/1970 00:00");
    assert_eq!(format_timestamp(1_000_000_000), "09/09/2001 01:46");
    assert_eq!(format_timestamp(1_700_000_000), "14/11/2023 22:13");
}

#[test]
fn timestamps_honour_leap_years() {
    assert_eq!(format_timestamp(951_782_400), "29/02/2000 00:00");
    assert_eq!(format_timestamp(951_868_800), "01/03/2000 00:00");
    assert_eq!(format_timestamp(68_169_600), "29/02/1972 00:00");
    assert_eq!(format_timestamp(4_107_542_399), "28/02/2100 23:59");
}

#[test]
fn slug_encodes_both_halves() {
    assert_eq!(summoner_to_slug("a b", "EUW"), "a%20b-EUW");
}

#[test]
fn slug_parses_back() {
    assert_eq!(
        parse_summoner_slug("a%20b-EUW"),
        Some(("a b".to_string(), "EUW".to_string()))
    );
    assert_eq!(parse_summoner_slug("solo"), Some(("solo".to_string(), "".to_string())));
    assert_eq!(parse_summoner_slug("a-b-c"), Some(("a".to_string(), "".to_string())));
}

#[test]
fn summoner_urls_take_the_expected_shape() {
    assert_eq!(
        summoner_url("EUW1", "a b", "EUW"),
        "/platform/EUW1/summoners/a%20b-EUW"
    );
    assert_eq!(
        summoner_not_found_url("EUW1", "ab", "EUW"),
        "/platform/EUW1?game_name=ab&tag_line=EUW"
    );
}

fn sample_summoner() -> Summoner {
    summoner_from_row(
        7,
        "a b".to_string(),
        "EUW".to_string(),
        "puuid-1".to_string(),
        "EUW1".to_string(),
        1_700_000_000,
        512,
        4321,
    )
}

#[test]
fn summoner_route_path_and_icon_url() {
    let s = sample_summoner();
    assert_eq!(s.to_route_path(), "/platform/EUW1/summoners/a%20b-EUW");
    assert_eq!(
        s.profile_icon_url(),
        "https://raw.communitydragon.org/latest/game/assets/ux/summonericons/profileicon4321.png"
    );
    assert_eq!(s.updated_at, "14/11/2023 22:13");
}

#[test]
fn upsert_decision_follows_resolution() {
    assert_eq!(upsert_decision(Some(5)), AccountAction::Update(5));
    assert_eq!(upsert_decision(None), AccountAction::Insert);
}

#[test]
fn perk_values_map_to_named_runes() {
    assert!(matches!(Perk::from(8112u16), Perk::Electrocute));
    assert!(matches!(Perk::from(5002u16), Perk::StatsArmor));
    assert!(matches!(Perk::from(9999u16), Perk::UNKNOWN));
    // values past the mapped prefix fall back to the unknown rune
    assert!(matches!(Perk::from(8005u16), Perk::UNKNOWN));
}

#[test]
fn perk_names_render() {
    assert_eq!(Perk::Electrocute.name(), "Electrocute ");
    assert_eq!(Perk::UNKNOWN.name(), "UNKNOWN");
    assert_eq!(Perk::GatheringStorm.name(), "GatheringStorm");
}

#[test]
fn skills_map_and_render() {
    assert!(matches!(Skill::from_value(1), Skill::Q));
    assert!(matches!(Skill::from_value(4), Skill::R));
    assert_eq!(Skill::from_value(2).name(), "W");
    let ev = ItemEvent { item_id: 3031, event_type: ItemEventType::Purchased };
    assert_eq!(ev.item_id, 3031);
    assert!(matches!(ev.event_type, ItemEventType::Purchased));
}
