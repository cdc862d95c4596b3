use vstd::prelude::*;
use vstd::string::{StrSliceExecFns, StringExecFns};

use crate::text::{find_char, find_from};

verus! {

/// What urlencoding::encode yields for the given characters; the encoding
/// depends on the characters alone.
pub uninterp spec fn url_encoded(s: Seq<char>) -> Seq<char>;

/// What urlencoding::decode yields for the given characters, when it
/// yields text at all; the decoding depends on the characters alone.
pub uninterp spec fn url_decoded(s: Seq<char>) -> Seq<char>;

/// Relies on urlencoding::encode: percent-encodes the text, a pure function
/// of its characters.
#[verifier::external_body]
fn url_encode(s: &str) -> (r: String)
    ensures
        r@ == url_encoded(s@),
{
    urlencoding::encode(s).into_owned()
}

/// Relies on urlencoding::decode: percent-decodes the text, a pure function
/// of its characters; yields nothing when the decoded bytes are not valid
/// text.
#[verifier::external_body]
fn url_decode(s: &str) -> (r: Option<String>)
    ensures
        r matches Some(t) ==> t@ == url_decoded(s@),
{
    urlencoding::decode(s).ok().map(|c| c.into_owned())
}

/// The slug that names an account in a page path: the encoded game name and
/// the encoded tag line, joined by a dash.
pub fn summoner_to_slug(game_name: &str, tag_line: &str) -> (r: String)
    ensures
        r@ == url_encoded(game_name@) + "-"@ + url_encoded(tag_line@),
{
    let mut r = url_encode(game_name);
    r.append("-");
    let t = url_encode(tag_line);
    r.append(t.as_str());
    r
}

/// Splits a slug back into the decoded game name and tag line. A slug of
/// exactly two dash-separated parts yields both; any other shape yields the
/// decoded first part and an empty tag line. Yields nothing only when
/// decoding does (invalid percent-encoded text).
pub fn parse_summoner_slug(slug: &str) -> (r: Option<(String, String)>)
    ensures
        r matches Some(p) ==> p.0@ == url_decoded(slug@.take(find_from(slug@, '-', 0))),
        r matches Some(p) ==> (slug_has_two_parts(slug@) ==> p.1@ == url_decoded(
            slug@.subrange(find_from(slug@, '-', 0) + 1, slug@.len() as int),
        )),
        r matches Some(p) ==> (!slug_has_two_parts(slug@) ==> p.1@ == Seq::<char>::empty()),
{
    let n = slug.unicode_len();
    let d1 = find_char(slug, '-', 0);
    let first = slug.substring_char(0, d1);
    let game_name = match url_decode(first) {
        None => { return None; },
        Some(g) => g,
    };
    if d1 < n {
        let d2 = find_char(slug, '-', d1 + 1);
        if d2 == n {
            let second = slug.substring_char(d1 + 1, n);
            let tag_line = match url_decode(second) {
                None => { return None; },
                Some(t) => t,
            };
            return Some((game_name, tag_line));
        }
    }
    Some((game_name, String::new()))
}

/// A slug of exactly two parts: one dash, and none after it.
pub open spec fn slug_has_two_parts(s: Seq<char>) -> bool {
    find_from(s, '-', 0) < s.len() && find_from(s, '-', find_from(s, '-', 0) + 1) == s.len()
}

/// The page path of an account: the platform, then the account's slug.
pub fn summoner_url(platform: &str, game_name: &str, tag_line: &str) -> (r: String)
    ensures
        r@ == "/platform/"@ + platform@ + "/summoners/"@ + url_encoded(game_name@) + "-"@
            + url_encoded(tag_line@),
{
    let mut r = String::from_str("/platform/");
    r.append(platform);
    r.append("/summoners/");
    let slug = summoner_to_slug(game_name, tag_line);
    r.append(slug.as_str());
    proof {
        assert(r@ =~= "/platform/"@ + platform@ + "/summoners/"@ + url_encoded(game_name@)
            + "-"@ + url_encoded(tag_line@));
    }
    r
}

/// The search page an unknown account falls back to, carrying the name and
/// tag as query parameters, unencoded.
pub fn summoner_not_found_url(platform: &str, game_name: &str, tag_line: &str) -> (r: String)
    ensures
        r@ == "/platform/"@ + platform@ + "?game_name="@ + game_name@ + "&tag_line="@
            + tag_line@,
{
    let mut r = String::from_str("/platform/");
    r.append(platform);
    r.append("?game_name=");
    r.append(game_name);
    r.append("&tag_line=");
    r.append(tag_line);
    proof {
        assert(r@ =~= "/platform/"@ + platform@ + "?game_name="@ + game_name@ + "&tag_line="@
            + tag_line@);
    }
    r
}

} // verus!
