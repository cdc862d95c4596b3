use vstd::prelude::*;
use vstd::string::{StrSliceExecFns, StringExecFns};

use crate::format::{format_timestamp, spec_format_timestamp};
use crate::urls::{summoner_url, url_encoded};

verus! {

/// A tracked account as pages show it; `platform` is the provider's region
/// code and `updated_at` the already-rendered freshness stamp.
pub struct Summoner {
    pub id: i32,
    pub game_name: String,
    pub tag_line: String,
    pub puuid: String,
    pub platform: String,
    pub updated_at: String,
    pub summoner_level: i64,
    pub profile_icon_id: i32,
}

/// The decimal digits of a non-negative number.
pub open spec fn spec_digits(n: int) -> Seq<char>
    decreases n,
{
    if n < 10 {
        seq![crate::format::digit_char(if n < 0 { 0 } else { n })]
    } else {
        spec_digits(n / 10).push(crate::format::digit_char(n % 10))
    }
}

/// The decimal rendering of a number, a minus sign first when negative.
pub open spec fn spec_signed_digits(n: int) -> Seq<char> {
    if n < 0 {
        seq!['-'] + spec_digits(-n)
    } else {
        spec_digits(n)
    }
}

/// Renders a non-negative number in decimal.
fn u64_digits(n: u64) -> (r: String)
    ensures
        r@ == spec_digits(n as int),
    decreases n,
{
    if n < 10 {
        String::from_str(crate::format::digit_str(n))
    } else {
        let mut s = u64_digits(n / 10);
        s.append(crate::format::digit_str(n % 10));
        proof {
            assert(s@ =~= spec_digits(n as int));
        }
        s
    }
}

/// Renders a number in decimal, a minus sign first when negative.
pub fn i32_digits(n: i32) -> (r: String)
    ensures
        r@ == spec_signed_digits(n as int),
{
    if n >= 0 {
        u64_digits(n as u64)
    } else {
        let v: u64 = (-(n as i64)) as u64;
        let mut s = String::from_str("-");
        let d = u64_digits(v);
        s.append(d.as_str());
        proof {
            reveal_strlit("-");
            assert(s@ =~= spec_signed_digits(n as int));
        }
        s
    }
}

impl Summoner {
    /// The page path of this account: the platform, then the slug built
    /// from the game name and tag line.
    pub fn to_route_path(&self) -> (r: String)
        ensures
            r@ == "/platform/"@ + self.platform@ + "/summoners/"@ + url_encoded(self.game_name@)
                + "-"@ + url_encoded(self.tag_line@),
    {
        summoner_url(self.platform.as_str(), self.game_name.as_str(), self.tag_line.as_str())
    }

    /// The URL of the account's profile icon image, named by the icon id.
    pub fn profile_icon_url(&self) -> (r: String)
        ensures
            r@ == "https://raw.communitydragon.org/latest/game/assets/ux/summonericons/profileicon"@
                + spec_signed_digits(self.profile_icon_id as int) + ".png"@,
    {
        let mut s = String::from_str(
            "https://raw.communitydragon.org/latest/game/assets/ux/summonericons/profileicon",
        );
        let d = i32_digits(self.profile_icon_id);
        s.append(d.as_str());
        s.append(".png");
        proof {
            assert(s@ =~= "https://raw.communitydragon.org/latest/game/assets/ux/summonericons/profileicon"@
                + spec_signed_digits(self.profile_icon_id as int) + ".png"@);
        }
        s
    }
}

/// Builds the account a fetched row describes, rendering the freshness
/// timestamp on the way.
pub fn summoner_from_row(
    id: i32,
    game_name: String,
    tag_line: String,
    puuid: String,
    platform: String,
    updated_at_secs: u64,
    summoner_level: i64,
    profile_icon_id: i32,
) -> (r: Summoner)
    requires
        updated_at_secs < 253234080000,
    ensures
        r.id == id,
        r.game_name@ == game_name@,
        r.tag_line@ == tag_line@,
        r.puuid@ == puuid@,
        r.platform@ == platform@,
        r.updated_at@ == spec_format_timestamp(updated_at_secs as int),
        r.summoner_level == summoner_level,
        r.profile_icon_id == profile_icon_id,
{
    Summoner {
        id,
        game_name,
        tag_line,
        puuid,
        platform,
        updated_at: format_timestamp(updated_at_secs),
        summoner_level,
        profile_icon_id,
    }
}

/// What to do for an account the provider reported: overwrite the stored
/// row that its stable identifier already names, or insert a new row.
#[derive(Clone, Copy, PartialEq, Eq, Structural, Debug)]
pub enum AccountAction {
    Update(i32),
    Insert,
}

/// Picks the action from the outcome of resolving the account's stable
/// identifier against the store: a known id is updated in place, an
/// unknown one inserted.
pub fn upsert_decision(found: Option<i32>) -> (r: AccountAction)
    ensures
        found matches Some(id) ==> r == AccountAction::Update(id),
        found is None ==> r == AccountAction::Insert,
{
    match found {
        Some(id) => AccountAction::Update(id),
        None => AccountAction::Insert,
    }
}

} // verus!
