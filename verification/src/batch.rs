use vstd::prelude::*;

verus! {

/// One staged relational row for a match participant: every column destined
/// for that row, already flattened to plain values. The ratio-valued columns
/// (`kill_participation`, `kda`, `cs_per_minute`) carry thousandths.
#[derive(Clone, Copy)]
pub struct ParticipantRecord {
    pub champion_id: i32,
    pub summoner_id: i32,
    pub lol_match_id: i32,
    pub summoner_spell1_id: i32,
    pub summoner_spell2_id: i32,
    pub team_id: i32,
    pub won: bool,
    pub champ_level: i32,
    pub kill_participation: i64,
    pub kda: i64,
    pub kills: i32,
    pub deaths: i32,
    pub assists: i32,
    pub damage_dealt_to_champions: i32,
    pub damage_taken: i32,
    pub gold_earned: i32,
    pub wards_placed: i32,
    pub cs: i32,
    pub cs_per_minute: i64,
    pub double_kills: i32,
    pub triple_kills: i32,
    pub quadra_kills: i32,
    pub penta_kills: i32,
    pub perk_defense_id: i32,
    pub perk_flex_id: i32,
    pub perk_offense_id: i32,
    pub perk_primary_style_id: i32,
    pub perk_sub_style_id: i32,
    pub perk_primary_selection_id: i32,
    pub perk_primary_selection1_id: i32,
    pub perk_primary_selection2_id: i32,
    pub perk_primary_selection3_id: i32,
    pub perk_sub_selection1_id: i32,
    pub perk_sub_selection2_id: i32,
    pub item0_id: i32,
    pub item1_id: i32,
    pub item2_id: i32,
    pub item3_id: i32,
    pub item4_id: i32,
    pub item5_id: i32,
    pub item6_id: i32,
}

/// The column arrays one participant batch commits: column `k` at position
/// `i` holds field `k` of record `i`.
pub struct ParticipantColumns {
    pub champion_ids: Vec<i32>,
    pub summoner_ids: Vec<i32>,
    pub lol_match_ids: Vec<i32>,
    pub summoner_spell1_ids: Vec<i32>,
    pub summoner_spell2_ids: Vec<i32>,
    pub team_ids: Vec<i32>,
    pub wons: Vec<bool>,
    pub champ_levels: Vec<i32>,
    pub kill_participations: Vec<i64>,
    pub kdas: Vec<i64>,
    pub kills: Vec<i32>,
    pub deaths: Vec<i32>,
    pub assists: Vec<i32>,
    pub damage_dealt_to_champions: Vec<i32>,
    pub damage_takens: Vec<i32>,
    pub gold_earneds: Vec<i32>,
    pub wards_placeds: Vec<i32>,
    pub cs: Vec<i32>,
    pub cs_per_minutes: Vec<i64>,
    pub double_kills: Vec<i32>,
    pub triple_kills: Vec<i32>,
    pub quadra_kills: Vec<i32>,
    pub penta_kills: Vec<i32>,
    pub perk_defense_ids: Vec<i32>,
    pub perk_flex_ids: Vec<i32>,
    pub perk_offense_ids: Vec<i32>,
    pub perk_primary_style_ids: Vec<i32>,
    pub perk_sub_style_ids: Vec<i32>,
    pub perk_primary_selection_ids: Vec<i32>,
    pub perk_primary_selection1_ids: Vec<i32>,
    pub perk_primary_selection2_ids: Vec<i32>,
    pub perk_primary_selection3_ids: Vec<i32>,
    pub perk_sub_selection1_ids: Vec<i32>,
    pub perk_sub_selection2_ids: Vec<i32>,
    pub item0_ids: Vec<i32>,
    pub item1_ids: Vec<i32>,
    pub item2_ids: Vec<i32>,
    pub item3_ids: Vec<i32>,
    pub item4_ids: Vec<i32>,
    pub item5_ids: Vec<i32>,
    pub item6_ids: Vec<i32>,
}

impl ParticipantColumns {
    /// Row `i` of every column array describes record `r`.
    pub open spec fn row_is(self, r: ParticipantRecord, i: int) -> bool {
        self.champion_ids@[i] == r.champion_id &&
        self.summoner_ids@[i] == r.summoner_id &&
        self.lol_match_ids@[i] == r.lol_match_id &&
        self.summoner_spell1_ids@[i] == r.summoner_spell1_id &&
        self.summoner_spell2_ids@[i] == r.summoner_spell2_id &&
        self.team_ids@[i] == r.team_id &&
        self.wons@[i] == r.won &&
        self.champ_levels@[i] == r.champ_level &&
        self.kill_participations@[i] == r.kill_participation &&
        self.kdas@[i] == r.kda &&
        self.kills@[i] == r.kills &&
        self.deaths@[i] == r.deaths &&
        self.assists@[i] == r.assists &&
        self.damage_dealt_to_champions@[i] == r.damage_dealt_to_champions &&
        self.damage_takens@[i] == r.damage_taken &&
        self.gold_earneds@[i] == r.gold_earned &&
        self.wards_placeds@[i] == r.wards_placed &&
        self.cs@[i] == r.cs &&
        self.cs_per_minutes@[i] == r.cs_per_minute &&
        self.double_kills@[i] == r.double_kills &&
        self.triple_kills@[i] == r.triple_kills &&
        self.quadra_kills@[i] == r.quadra_kills &&
        self.penta_kills@[i] == r.penta_kills &&
        self.perk_defense_ids@[i] == r.perk_defense_id &&
        self.perk_flex_ids@[i] == r.perk_flex_id &&
        self.perk_offense_ids@[i] == r.perk_offense_id &&
        self.perk_primary_style_ids@[i] == r.perk_primary_style_id &&
        self.perk_sub_style_ids@[i] == r.perk_sub_style_id &&
        self.perk_primary_selection_ids@[i] == r.perk_primary_selection_id &&
        self.perk_primary_selection1_ids@[i] == r.perk_primary_selection1_id &&
        self.perk_primary_selection2_ids@[i] == r.perk_primary_selection2_id &&
        self.perk_primary_selection3_ids@[i] == r.perk_primary_selection3_id &&
        self.perk_sub_selection1_ids@[i] == r.perk_sub_selection1_id &&
        self.perk_sub_selection2_ids@[i] == r.perk_sub_selection2_id &&
        self.item0_ids@[i] == r.item0_id &&
        self.item1_ids@[i] == r.item1_id &&
        self.item2_ids@[i] == r.item2_id &&
        self.item3_ids@[i] == r.item3_id &&
        self.item4_ids@[i] == r.item4_id &&
        self.item5_ids@[i] == r.item5_id &&
        self.item6_ids@[i] == r.item6_id
    }

    /// Every column array has one entry per record, and row `i` of every
    /// column describes record `i`: the positional correspondence the
    /// set-based statement relies on.
    pub open spec fn transposes(self, rs: Seq<ParticipantRecord>) -> bool {
        self.champion_ids@.len() == rs.len() &&
        self.summoner_ids@.len() == rs.len() &&
        self.lol_match_ids@.len() == rs.len() &&
        self.summoner_spell1_ids@.len() == rs.len() &&
        self.summoner_spell2_ids@.len() == rs.len() &&
        self.team_ids@.len() == rs.len() &&
        self.wons@.len() == rs.len() &&
        self.champ_levels@.len() == rs.len() &&
        self.kill_participations@.len() == rs.len() &&
        self.kdas@.len() == rs.len() &&
        self.kills@.len() == rs.len() &&
        self.deaths@.len() == rs.len() &&
        self.assists@.len() == rs.len() &&
        self.damage_dealt_to_champions@.len() == rs.len() &&
        self.damage_takens@.len() == rs.len() &&
        self.gold_earneds@.len() == rs.len() &&
        self.wards_placeds@.len() == rs.len() &&
        self.cs@.len() == rs.len() &&
        self.cs_per_minutes@.len() == rs.len() &&
        self.double_kills@.len() == rs.len() &&
        self.triple_kills@.len() == rs.len() &&
        self.quadra_kills@.len() == rs.len() &&
        self.penta_kills@.len() == rs.len() &&
        self.perk_defense_ids@.len() == rs.len() &&
        self.perk_flex_ids@.len() == rs.len() &&
        self.perk_offense_ids@.len() == rs.len() &&
        self.perk_primary_style_ids@.len() == rs.len() &&
        self.perk_sub_style_ids@.len() == rs.len() &&
        self.perk_primary_selection_ids@.len() == rs.len() &&
        self.perk_primary_selection1_ids@.len() == rs.len() &&
        self.perk_primary_selection2_ids@.len() == rs.len() &&
        self.perk_primary_selection3_ids@.len() == rs.len() &&
        self.perk_sub_selection1_ids@.len() == rs.len() &&
        self.perk_sub_selection2_ids@.len() == rs.len() &&
        self.item0_ids@.len() == rs.len() &&
        self.item1_ids@.len() == rs.len() &&
        self.item2_ids@.len() == rs.len() &&
        self.item3_ids@.len() == rs.len() &&
        self.item4_ids@.len() == rs.len() &&
        self.item5_ids@.len() == rs.len() &&
        self.item6_ids@.len() == rs.len() &&
        (forall|i: int| 0 <= i < rs.len() ==> self.row_is(#[trigger] rs[i], i))
    }
}

/// Turns an ordered sequence of row-shaped staging records into one column
/// array per field, preserving the record order in every column.
pub fn transpose_participants(records: &Vec<ParticipantRecord>) -> (r: ParticipantColumns)
    ensures
        r.transposes(records@),
{
    let mut cols = ParticipantColumns {
        champion_ids: Vec::new(),
        summoner_ids: Vec::new(),
        lol_match_ids: Vec::new(),
        summoner_spell1_ids: Vec::new(),
        summoner_spell2_ids: Vec::new(),
        team_ids: Vec::new(),
        wons: Vec::new(),
        champ_levels: Vec::new(),
        kill_participations: Vec::new(),
        kdas: Vec::new(),
        kills: Vec::new(),
        deaths: Vec::new(),
        assists: Vec::new(),
        damage_dealt_to_champions: Vec::new(),
        damage_takens: Vec::new(),
        gold_earneds: Vec::new(),
        wards_placeds: Vec::new(),
        cs: Vec::new(),
        cs_per_minutes: Vec::new(),
        double_kills: Vec::new(),
        triple_kills: Vec::new(),
        quadra_kills: Vec::new(),
        penta_kills: Vec::new(),
        perk_defense_ids: Vec::new(),
        perk_flex_ids: Vec::new(),
        perk_offense_ids: Vec::new(),
        perk_primary_style_ids: Vec::new(),
        perk_sub_style_ids: Vec::new(),
        perk_primary_selection_ids: Vec::new(),
        perk_primary_selection1_ids: Vec::new(),
        perk_primary_selection2_ids: Vec::new(),
        perk_primary_selection3_ids: Vec::new(),
        perk_sub_selection1_ids: Vec::new(),
        perk_sub_selection2_ids: Vec::new(),
        item0_ids: Vec::new(),
        item1_ids: Vec::new(),
        item2_ids: Vec::new(),
        item3_ids: Vec::new(),
        item4_ids: Vec::new(),
        item5_ids: Vec::new(),
        item6_ids: Vec::new(),
    };
    let n = records.len();
    let mut i: usize = 0;
    while i < n
        invariant
            i <= n,
            n == records@.len(),
            cols.champion_ids@.len() == i,
                cols.summoner_ids@.len() == i,
                cols.lol_match_ids@.len() == i,
                cols.summoner_spell1_ids@.len() == i,
                cols.summoner_spell2_ids@.len() == i,
                cols.team_ids@.len() == i,
                cols.wons@.len() == i,
                cols.champ_levels@.len() == i,
                cols.kill_participations@.len() == i,
                cols.kdas@.len() == i,
                cols.kills@.len() == i,
                cols.deaths@.len() == i,
                cols.assists@.len() == i,
                cols.damage_dealt_to_champions@.len() == i,
                cols.damage_takens@.len() == i,
                cols.gold_earneds@.len() == i,
                cols.wards_placeds@.len() == i,
                cols.cs@.len() == i,
                cols.cs_per_minutes@.len() == i,
                cols.double_kills@.len() == i,
                cols.triple_kills@.len() == i,
                cols.quadra_kills@.len() == i,
                cols.penta_kills@.len() == i,
                cols.perk_defense_ids@.len() == i,
                cols.perk_flex_ids@.len() == i,
                cols.perk_offense_ids@.len() == i,
                cols.perk_primary_style_ids@.len() == i,
                cols.perk_sub_style_ids@.len() == i,
                cols.perk_primary_selection_ids@.len() == i,
                cols.perk_primary_selection1_ids@.len() == i,
                cols.perk_primary_selection2_ids@.len() == i,
                cols.perk_primary_selection3_ids@.len() == i,
                cols.perk_sub_selection1_ids@.len() == i,
                cols.perk_sub_selection2_ids@.len() == i,
                cols.item0_ids@.len() == i,
                cols.item1_ids@.len() == i,
                cols.item2_ids@.len() == i,
                cols.item3_ids@.len() == i,
                cols.item4_ids@.len() == i,
                cols.item5_ids@.len() == i,
                cols.item6_ids@.len() == i,
            forall|j: int| 0 <= j < i ==> cols.row_is(#[trigger] records@[j], j),
        decreases n - i,
    {
        let r = records[i];
        cols.champion_ids.push(r.champion_id);
        cols.summoner_ids.push(r.summoner_id);
        cols.lol_match_ids.push(r.lol_match_id);
        cols.summoner_spell1_ids.push(r.summoner_spell1_id);
        cols.summoner_spell2_ids.push(r.summoner_spell2_id);
        cols.team_ids.push(r.team_id);
        cols.wons.push(r.won);
        cols.champ_levels.push(r.champ_level);
        cols.kill_participations.push(r.kill_participation);
        cols.kdas.push(r.kda);
        cols.kills.push(r.kills);
        cols.deaths.push(r.deaths);
        cols.assists.push(r.assists);
        cols.damage_dealt_to_champions.push(r.damage_dealt_to_champions);
        cols.damage_takens.push(r.damage_taken);
        cols.gold_earneds.push(r.gold_earned);
        cols.wards_placeds.push(r.wards_placed);
        cols.cs.push(r.cs);
        cols.cs_per_minutes.push(r.cs_per_minute);
        cols.double_kills.push(r.double_kills);
        cols.triple_kills.push(r.triple_kills);
        cols.quadra_kills.push(r.quadra_kills);
        cols.penta_kills.push(r.penta_kills);
        cols.perk_defense_ids.push(r.perk_defense_id);
        cols.perk_flex_ids.push(r.perk_flex_id);
        cols.perk_offense_ids.push(r.perk_offense_id);
        cols.perk_primary_style_ids.push(r.perk_primary_style_id);
        cols.perk_sub_style_ids.push(r.perk_sub_style_id);
        cols.perk_primary_selection_ids.push(r.perk_primary_selection_id);
        cols.perk_primary_selection1_ids.push(r.perk_primary_selection1_id);
        cols.perk_primary_selection2_ids.push(r.perk_primary_selection2_id);
        cols.perk_primary_selection3_ids.push(r.perk_primary_selection3_id);
        cols.perk_sub_selection1_ids.push(r.perk_sub_selection1_id);
        cols.perk_sub_selection2_ids.push(r.perk_sub_selection2_id);
        cols.item0_ids.push(r.item0_id);
        cols.item1_ids.push(r.item1_id);
        cols.item2_ids.push(r.item2_id);
        cols.item3_ids.push(r.item3_id);
        cols.item4_ids.push(r.item4_id);
        cols.item5_ids.push(r.item5_id);
        cols.item6_ids.push(r.item6_id);
        i += 1;
    }
    cols
}

/// One staged relational row for a tracked account, keyed by the provider's
/// stable account identifier (the natural key). `updated_at` is the record's
/// freshness timestamp in whole seconds.
pub struct SummonerRecord {
    pub puuid: String,
    pub game_name: String,
    pub tag_line: String,
    pub platform: String,
    pub summoner_level: i64,
    pub profile_icon_id: i32,
    pub updated_at: i64,
}

/// The column arrays one account batch commits.
pub struct SummonerColumns {
    pub puuids: Vec<String>,
    pub game_names: Vec<String>,
    pub tag_lines: Vec<String>,
    pub platforms: Vec<String>,
    pub summoner_levels: Vec<i64>,
    pub profile_icon_ids: Vec<i32>,
    pub updated_ats: Vec<i64>,
}

impl SummonerColumns {
    /// Row `i` of every column array describes record `r`.
    pub open spec fn row_is(self, r: SummonerRecord, i: int) -> bool {
        self.puuids@[i]@ == r.puuid@ &&
        self.game_names@[i]@ == r.game_name@ &&
        self.tag_lines@[i]@ == r.tag_line@ &&
        self.platforms@[i]@ == r.platform@ &&
        self.summoner_levels@[i] == r.summoner_level &&
        self.profile_icon_ids@[i] == r.profile_icon_id &&
        self.updated_ats@[i] == r.updated_at
    }

    /// Every column array has one entry per record, and row `i` of every
    /// column describes record `i`.
    pub open spec fn transposes(self, rs: Seq<SummonerRecord>) -> bool {
        self.puuids@.len() == rs.len() &&
        self.game_names@.len() == rs.len() &&
        self.tag_lines@.len() == rs.len() &&
        self.platforms@.len() == rs.len() &&
        self.summoner_levels@.len() == rs.len() &&
        self.profile_icon_ids@.len() == rs.len() &&
        self.updated_ats@.len() == rs.len() &&
        (forall|i: int| 0 <= i < rs.len() ==> self.row_is(#[trigger] rs[i], i))
    }
}

/// Turns an ordered sequence of account staging records into one column
/// array per field, preserving the record order in every column.
pub fn transpose_summoners(records: &Vec<SummonerRecord>) -> (r: SummonerColumns)
    ensures
        r.transposes(records@),
{
    let mut cols = SummonerColumns {
        puuids: Vec::new(),
        game_names: Vec::new(),
        tag_lines: Vec::new(),
        platforms: Vec::new(),
        summoner_levels: Vec::new(),
        profile_icon_ids: Vec::new(),
        updated_ats: Vec::new(),
    };
    let n = records.len();
    let mut i: usize = 0;
    while i < n
        invariant
            i <= n,
            n == records@.len(),
            cols.puuids@.len() == i,
            cols.game_names@.len() == i,
            cols.tag_lines@.len() == i,
            cols.platforms@.len() == i,
            cols.summoner_levels@.len() == i,
            cols.profile_icon_ids@.len() == i,
            cols.updated_ats@.len() == i,
            forall|j: int| 0 <= j < i ==> cols.row_is(#[trigger] records@[j], j),
        decreases n - i,
    {
        cols.puuids.push(records[i].puuid.clone());
        cols.game_names.push(records[i].game_name.clone());
        cols.tag_lines.push(records[i].tag_line.clone());
        cols.platforms.push(records[i].platform.clone());
        cols.summoner_levels.push(records[i].summoner_level);
        cols.profile_icon_ids.push(records[i].profile_icon_id);
        cols.updated_ats.push(records[i].updated_at);
        i += 1;
    }
    cols
}

/// The natural-key-to-generated-id pairs that a commit hands back: position
/// `i` pairs the key of input record `i` with the `i`-th returned id.
pub open spec fn spec_pairs(records: Seq<SummonerRecord>, ids: Seq<i32>) -> Seq<(Seq<char>, i32)> {
    Seq::new(records.len(), |i: int| (records[i].puuid@, ids[i]))
}

/// Zips the submitted records with the generated ids the store returned, in
/// submission order, pairing each record's natural key with the id at the
/// same position.
pub fn pair_generated_ids(records: &Vec<SummonerRecord>, ids: &Vec<i32>) -> (r: Vec<(String, i32)>)
    requires
        ids@.len() == records@.len(),
    ensures
        r.deep_view() == spec_pairs(records@, ids@),
{
    let mut out: Vec<(String, i32)> = Vec::new();
    let n = records.len();
    let mut i: usize = 0;
    while i < n
        invariant
            i <= n,
            n == records@.len(),
            ids@.len() == n,
            out@.len() == i,
            forall|j: int| 0 <= j < i ==> (#[trigger] out@[j]).0@ == records@[j].puuid@
                && out@[j].1 == ids@[j],
        decreases n - i,
    {
        out.push((records[i].puuid.clone(), ids[i]));
        i += 1;
    }
    proof {
        assert(out.deep_view() =~= spec_pairs(records@, ids@));
    }
    out
}

/// The id paired with the first occurrence of the key, if any.
pub open spec fn spec_lookup(s: Seq<(Seq<char>, i32)>, k: Seq<char>) -> Option<i32>
    decreases s.len(),
{
    if s.len() == 0 {
        None
    } else if s[0].0 == k {
        Some(s[0].1)
    } else {
        spec_lookup(s.drop_first(), k)
    }
}

/// Resolves a natural key against the pairing a commit returned.
pub fn resolve_generated_id(pairs: &Vec<(String, i32)>, puuid: &String) -> (r: Option<i32>)
    ensures
        r == spec_lookup(pairs.deep_view(), puuid@),
{
    let n = pairs.len();
    let mut i: usize = 0;
    proof {
        assert(pairs.deep_view().skip(0) =~= pairs.deep_view());
    }
    while i < n
        invariant
            i <= n,
            n == pairs@.len(),
            pairs.deep_view().len() == n,
            spec_lookup(pairs.deep_view(), puuid@) == spec_lookup(
                pairs.deep_view().skip(i as int),
                puuid@,
            ),
            forall|j: int| 0 <= j < n ==> (#[trigger] pairs.deep_view()[j])
                == (pairs@[j].0@, pairs@[j].1),
        decreases n - i,
    {
        proof {
            assert(pairs.deep_view().skip(i as int)[0] == pairs.deep_view()[i as int]);
            assert(pairs.deep_view().skip(i as int).drop_first() =~= pairs.deep_view().skip(
                i as int + 1,
            ));
        }
        if pairs[i].0.eq(puuid) {
            return Some(pairs[i].1);
        }
        i += 1;
    }
    proof {
        assert(pairs.deep_view().skip(n as int) =~= Seq::empty());
    }
    None
}

/// No natural key occurs twice among the pairs.
pub open spec fn keys_distinct(s: Seq<(Seq<char>, i32)>) -> bool {
    forall|i: int, j: int| 0 <= i < j < s.len() ==> (#[trigger] s[i]).0 != (#[trigger] s[j]).0
}

/// Looking up the key at position `i` of a distinct-keyed pairing finds
/// exactly the value at position `i`.
proof fn lemma_lookup_distinct(s: Seq<(Seq<char>, i32)>, i: int)
    requires
        0 <= i < s.len(),
        keys_distinct(s),
    ensures
        spec_lookup(s, s[i].0) == Some(s[i].1),
    decreases i,
{
    if i == 0 {
    } else {
        assert(s[0].0 != s[i].0);
        assert(keys_distinct(s.drop_first())) by {
            assert forall|a: int, b: int| 0 <= a < b < s.drop_first().len() implies (
            #[trigger] s.drop_first()[a]).0 != (#[trigger] s.drop_first()[b]).0 by {
                assert(s.drop_first()[a] == s[a + 1]);
                assert(s.drop_first()[b] == s[b + 1]);
            }
        }
        lemma_lookup_distinct(s.drop_first(), i - 1);
        assert(s.drop_first()[i - 1] == s[i]);
    }
}

/// Upsert positional integrity: for staging records with pairwise distinct
/// natural keys committed in one call, resolving any record's key against
/// the returned pairing yields the generated id at that record's original
/// position - never a shifted or misaligned id.
pub proof fn lemma_positional_integrity(records: Seq<SummonerRecord>, ids: Seq<i32>, i: int)
    requires
        ids.len() == records.len(),
        0 <= i < records.len(),
        forall|a: int, b: int| 0 <= a < b < records.len() ==> (#[trigger] records[a]).puuid@ != (
        #[trigger] records[b]).puuid@,
    ensures
        spec_lookup(spec_pairs(records, ids), records[i].puuid@) == Some(ids[i]),
{
    let s = spec_pairs(records, ids);
    assert(keys_distinct(s));
    lemma_lookup_distinct(s, i);
}

} // verus!
