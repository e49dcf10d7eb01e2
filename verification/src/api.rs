//! Shaping the requests to the Riot player-data service and reading the
//! answers of it and of valorant-api.com.
use vstd::prelude::*;
use crate::auth::Tokens;
use crate::error::CommandError;
use crate::json::{
    collect_strings, field, law_field_finds_member, law_text_at_step, string_items, text_at,
    unique_member, JsonValue,
};
use crate::text::opt_view;

verus! {

/// The client-platform descriptor every player-data request announces.
pub const CLIENT_PLATFORM: &'static str = "ew0KCSJwbGF0Zm9ybVR5cGUiOiAiUEMiLA0KCSJwbGF0Zm9ybU9TIjogIldpbmRvd3MiLA0KCSJwbGF0Zm9ybU9TVmVyc2lvbiI6ICIxMC4wLjE5MDQyLjEuMjU2LjY0Yml0IiwNCgkicGxhdGZvcm1DaGlwc2V0IjogIkludGVsIg0KfQ==";

/// Where the current Riot client version is published.
pub const VERSION_URL: &'static str = "https://valorant-api.com/v1/version";

/// The language of the skin names when none is asked for.
pub const DEFAULT_LANGUAGE: &'static str = "zh-TW";

/// `https://pd.{region}.a.pvp.net/store/v3/storefront/{puuid}`
pub fn storefront_url(region: &str, puuid: &str) -> (r: String)
    ensures
        r@ == "https://pd."@ + region@ + ".a.pvp.net/store/v3/storefront/"@ + puuid@,
{
    let mut u = String::from_str("https://pd.");
    u.append(region);
    u.append(".a.pvp.net/store/v3/storefront/");
    u.append(puuid);
    u
}

/// `https://pd.{region}.a.pvp.net/match-history/v1/history/{puuid}?startIndex=0&endIndex=10`
pub fn match_history_url(region: &str, puuid: &str) -> (r: String)
    ensures
        r@ == "https://pd."@ + region@ + ".a.pvp.net/match-history/v1/history/"@ + puuid@
            + "?startIndex=0&endIndex=10"@,
{
    let mut u = String::from_str("https://pd.");
    u.append(region);
    u.append(".a.pvp.net/match-history/v1/history/");
    u.append(puuid);
    u.append("?startIndex=0&endIndex=10");
    u
}

/// `https://pd.{region}.a.pvp.net/match-details/v1/matches/{match_id}`
pub fn match_details_url(region: &str, match_id: &str) -> (r: String)
    ensures
        r@ == "https://pd."@ + region@ + ".a.pvp.net/match-details/v1/matches/"@ + match_id@,
{
    let mut u = String::from_str("https://pd.");
    u.append(region);
    u.append(".a.pvp.net/match-details/v1/matches/");
    u.append(match_id);
    u
}

/// `https://valorant-api.com/v1/weapons/skinlevels/{uuid}?language={language}`
pub fn skin_level_url(uuid: &str, language: &str) -> (r: String)
    ensures
        r@ == "https://valorant-api.com/v1/weapons/skinlevels/"@ + uuid@ + "?language="@ + language@,
{
    let mut u = String::from_str("https://valorant-api.com/v1/weapons/skinlevels/");
    u.append(uuid);
    u.append("?language=");
    u.append(language);
    u
}

/// The value of an `Authorization` header for `token`.
pub fn bearer(token: &str) -> (r: String)
    ensures
        r@ == "Bearer "@ + token@,
{
    let mut b = String::from_str("Bearer ");
    b.append(token);
    b
}

/// The headers of a player-data request, in order.
pub open spec fn riot_headers_spec(tokens: Tokens, version: Seq<char>) -> Seq<(Seq<char>, Seq<char>)> {
    seq![
        ("Authorization"@, "Bearer "@ + tokens.access_token@),
        ("X-Riot-Entitlements-JWT"@, tokens.entitlements_token@),
        ("X-Riot-ClientPlatform"@, CLIENT_PLATFORM@),
        ("X-Riot-ClientVersion"@, version),
    ]
}

/// The headers every player-data request carries: the bearer token, the
/// entitlements token, the client platform and the client version.
pub fn riot_headers(tokens: &Tokens, version: &str) -> (r: Vec<(String, String)>)
    ensures
        r@.len() == 4,
        forall|i: int| 0 <= i < 4 ==> (#[trigger] r@[i]).0@ == riot_headers_spec(*tokens, version@)[i].0
            && r@[i].1@ == riot_headers_spec(*tokens, version@)[i].1,
{
    let mut h: Vec<(String, String)> = Vec::new();
    h.push(("Authorization".to_owned(), bearer(tokens.access_token.as_str())));
    h.push(("X-Riot-Entitlements-JWT".to_owned(), tokens.entitlements_token.clone()));
    h.push(("X-Riot-ClientPlatform".to_owned(), CLIENT_PLATFORM.to_owned()));
    h.push(("X-Riot-ClientVersion".to_owned(), version.to_owned()));
    h
}

/// The client version, once it has been learned; it is asked for at most
/// once per run.
#[derive(Clone, Debug, PartialEq, Eq)]
pub struct ClientVersionCache {
    pub version: Option<String>,
}

impl ClientVersionCache {
    /// Nothing learned yet.
    pub fn new() -> (r: ClientVersionCache)
        ensures
            r.version is None,
    {
        ClientVersionCache { version: None }
    }

    /// The version learned so far.
    pub fn cached(&self) -> (r: Option<String>)
        ensures
            opt_view(r) == opt_view(self.version),
    {
        match &self.version {
            Some(v) => Some(v.clone()),
            None => None,
        }
    }

    /// Reads the version out of the answer of valorant-api.com and keeps it;
    /// an answer without one leaves the cache as it was.
    pub fn learn(&mut self, answer: &JsonValue) -> (r: Result<String, CommandError>)
        ensures
            match text_at(*answer, seq!["data"@, "riotClientVersion"@]) {
                Some(t) => r matches Ok(s) && s@ == t && opt_view(final(self).version) == Some(t),
                None => r == Err::<String, CommandError>(CommandError::MissingClientVersion)
                    && *final(self) == *old(self),
            },
    {
        let path: [&str; 2] = ["data", "riotClientVersion"];
        assert(path@.map_values(|k: &str| k@) =~= seq!["data"@, "riotClientVersion"@]);
        match answer.text_at_path(&path) {
            Some(v) => {
                self.version = Some(v.clone());
                Ok(v)
            },
            None => Err(CommandError::MissingClientVersion),
        }
    }
}

/// The process-wide version cache: created empty the first time it is
/// needed, the same one every time after.
pub fn get_client_version_cache(slot: &mut Option<ClientVersionCache>) -> (r: &mut ClientVersionCache)
    ensures
        *r == (match *old(slot) {
            Some(c) => c,
            None => ClientVersionCache { version: None },
        }),
        *final(slot) == Some(*final(r)),
{
    if slot.is_none() {
        *slot = Some(ClientVersionCache::new());
    }
    match slot {
        Some(c) => c,
        None => unreached(),
    }
}

/// The offers of the daily storefront: the string items of
/// `SkinsPanelLayout.SingleItemOffers`.
pub open spec fn storefront_offers_spec(answer: JsonValue) -> Option<Seq<Seq<char>>> {
    match field(answer, "SkinsPanelLayout"@) {
        Some(layout) => match field(layout, "SingleItemOffers"@) {
            Some(JsonValue::Array(items)) => Some(string_items(items@)),
            _ => None,
        },
        None => None,
    }
}

/// The skin-level ids offered today, in the order of the answer.
pub fn storefront_offers(answer: &JsonValue) -> (r: Result<Vec<String>, CommandError>)
    ensures
        match storefront_offers_spec(*answer) {
            Some(ids) => r matches Ok(v) && v@.map_values(|s: String| s@) == ids,
            None => r == Err::<Vec<String>, CommandError>(CommandError::MissingOffers),
        },
{
    match answer.get("SkinsPanelLayout") {
        Some(layout) => match layout.get("SingleItemOffers") {
            Some(JsonValue::Array(items)) => Ok(collect_strings(items)),
            _ => Err(CommandError::MissingOffers),
        },
        None => Err(CommandError::MissingOffers),
    }
}

/// Name and icon of one skin level.
#[derive(Clone, Debug, PartialEq, Eq)]
pub struct SkinDetails {
    pub uuid: String,
    pub display_name: Option<String>,
    pub display_icon: Option<String>,
}

/// The language asked for, or the default one.
pub fn resolve_language(language: Option<String>) -> (r: String)
    ensures
        r@ == (match language {
            Some(l) => l@,
            None => DEFAULT_LANGUAGE@,
        }),
{
    match language {
        Some(l) => l,
        None => DEFAULT_LANGUAGE.to_owned(),
    }
}

/// The details of skin level `uuid` from the answer of valorant-api.com
/// (`None` when the request or its decoding failed): `data.displayName`
/// and `data.displayIcon` when they are strings.
pub fn skin_details_from(uuid: String, answer: Option<&JsonValue>) -> (r: SkinDetails)
    ensures
        r.uuid == uuid,
        opt_view(r.display_name) == (match answer {
            Some(a) => text_at(*a, seq!["data"@, "displayName"@]),
            None => None,
        }),
        opt_view(r.display_icon) == (match answer {
            Some(a) => text_at(*a, seq!["data"@, "displayIcon"@]),
            None => None,
        }),
{
    let name_path: [&str; 2] = ["data", "displayName"];
    let icon_path: [&str; 2] = ["data", "displayIcon"];
    assert(name_path@.map_values(|k: &str| k@) =~= seq!["data"@, "displayName"@]);
    assert(icon_path@.map_values(|k: &str| k@) =~= seq!["data"@, "displayIcon"@]);
    match answer {
        Some(a) => SkinDetails {
            uuid,
            display_name: a.text_at_path(&name_path),
            display_icon: a.text_at_path(&icon_path),
        },
        None => SkinDetails { uuid, display_name: None, display_icon: None },
    }
}


/// The Authorization header is `Bearer ` followed by the whole access
/// token; the other three carry the entitlements token, the client
/// platform and the version unchanged.
pub proof fn law_riot_headers(tokens: Tokens, version: Seq<char>)
    ensures
        riot_headers_spec(tokens, version).len() == 4,
        riot_headers_spec(tokens, version)[0].0 == "Authorization"@,
        riot_headers_spec(tokens, version)[0].1.len() == 7 + tokens.access_token@.len(),
        riot_headers_spec(tokens, version)[0].1.take(7) == "Bearer "@,
        riot_headers_spec(tokens, version)[0].1.skip(7) == tokens.access_token@,
        riot_headers_spec(tokens, version)[1].0 == "X-Riot-Entitlements-JWT"@,
        riot_headers_spec(tokens, version)[1].1 == tokens.entitlements_token@,
        riot_headers_spec(tokens, version)[2].0 == "X-Riot-ClientPlatform"@,
        riot_headers_spec(tokens, version)[2].1 == CLIENT_PLATFORM@,
        riot_headers_spec(tokens, version)[3].0 == "X-Riot-ClientVersion"@,
        riot_headers_spec(tokens, version)[3].1 == version,
{
    reveal_strlit("Bearer ");
    let h = "Bearer "@ + tokens.access_token@;
    assert(h.take(7) =~= "Bearer "@);
    assert(h.skip(7) =~= tokens.access_token@);
}

/// The offers are the string items of `SkinsPanelLayout.SingleItemOffers`,
/// wherever those members stand and whatever other members sit beside them.
pub proof fn law_storefront_offers(
    top: Vec<(String, JsonValue)>,
    i: int,
    layout: Vec<(String, JsonValue)>,
    j: int,
    items: Vec<JsonValue>,
)
    requires
        unique_member(top@, "SkinsPanelLayout"@, i),
        top@[i].1 == JsonValue::Object(layout),
        unique_member(layout@, "SingleItemOffers"@, j),
        layout@[j].1 == JsonValue::Array(items),
    ensures
        storefront_offers_spec(JsonValue::Object(top)) == Some(string_items(items@)),
{
    law_field_finds_member(top, "SkinsPanelLayout"@, i);
    law_field_finds_member(layout, "SingleItemOffers"@, j);
}

/// The client version is the whole string of `data.riotClientVersion`,
/// wherever those members stand and whatever other members sit beside them.
pub proof fn law_client_version(
    top: Vec<(String, JsonValue)>,
    i: int,
    data: Vec<(String, JsonValue)>,
    j: int,
    version: String,
)
    requires
        unique_member(top@, "data"@, i),
        top@[i].1 == JsonValue::Object(data),
        unique_member(data@, "riotClientVersion"@, j),
        data@[j].1 == JsonValue::Str(version),
    ensures
        text_at(JsonValue::Object(top), seq!["data"@, "riotClientVersion"@]) == Some(version@),
{
    law_text_at_step(top, "data"@, i, seq!["riotClientVersion"@]);
    assert(seq!["data"@] + seq!["riotClientVersion"@] =~= seq!["data"@, "riotClientVersion"@]);
    law_text_at_step(data, "riotClientVersion"@, j, Seq::empty());
    assert(seq!["riotClientVersion"@] + Seq::<Seq<char>>::empty() =~= seq!["riotClientVersion"@]);
}

} // verus!
