use valorant_store::api::{
    bearer, get_client_version_cache, match_details_url, match_history_url, resolve_language,
    riot_headers, skin_details_from, skin_level_url, storefront_offers, storefront_url,
    ClientVersionCache, CLIENT_PLATFORM,
};
use valorant_store::auth::Tokens;
use valorant_store::error::CommandError;
use valorant_store::json::{collect_strings, JsonValue};

fn s(t: &str) -> JsonValue {
    JsonValue::Str(t.to_string())
}

fn obj(members: Vec<(&str, JsonValue)>) -> JsonValue {
    JsonValue::Object(members.into_iter().map(|(k, v)| (k.to_string(), v)).collect())
}

#[test]
fn json_lookups() {
    let v = obj(vec![("a", obj(vec![("b", s("x"))])), ("n", JsonValue::Number("1".into()))]);
    assert!(matches!(v.get("a"), Some(JsonValue::Object(_))));
    assert!(v.get("z").is_none());
    assert!(s("q").get("a").is_none());
    assert_eq!(v.text_at_path(&["a", "b"]), Some("x".to_string()));
    assert_eq!(v.text_at_path(&["n"]), None);
    assert_eq!(v.text_at_path(&["a"]), None);
    assert_eq!(s("top").text_at_path(&[]), Some("top".to_string()));
    let items = vec![s("u1"), JsonValue::Null, JsonValue::Bool(true), s("u2")];
    assert_eq!(collect_strings(&items), vec!["u1".to_string(), "u2".to_string()]);
}

#[test]
fn player_data_urls() {
    assert_eq!(storefront_url("ap", "p-1"), "https://pd.ap.a.pvp.net/store/v3/storefront/p-1");
    assert_eq!(
        match_history_url("eu", "p-1"),
        "https://pd.eu.a.pvp.net/match-history/v1/history/p-1?startIndex=0&endIndex=10"
    );
    assert_eq!(match_details_url("na", "m-9"), "https://pd.na.a.pvp.net/match-details/v1/matches/m-9");
    assert_eq!(
        skin_level_url("s-1", "en-US"),
        "https://valorant-api.com/v1/weapons/skinlevels/s-1?language=en-US"
    );
    assert_eq!(bearer("tok"), "Bearer tok");
}

#[test]
fn headers_of_a_player_data_request() {
    let t = Tokens { access_token: "A".into(), entitlements_token: "E".into() };
    let h = riot_headers(&t, "release-09.00");
    let expected = vec![
        ("Authorization".to_string(), "Bearer A".to_string()),
        ("X-Riot-Entitlements-JWT".to_string(), "E".to_string()),
        ("X-Riot-ClientPlatform".to_string(), CLIENT_PLATFORM.to_string()),
        ("X-Riot-ClientVersion".to_string(), "release-09.00".to_string()),
    ];
    assert_eq!(h, expected);
}

#[test]
fn version_cache_learns_once() {
    let mut slot = None;
    {
        let cache = get_client_version_cache(&mut slot);
        assert_eq!(cache.cached(), None);
        let bad = obj(vec![("data", obj(vec![]))]);
        let e = cache.learn(&bad).unwrap_err();
        assert_eq!(e, CommandError::MissingClientVersion);
        assert_eq!(e.message(), "Missing riotClientVersion in valorant-api.com response");
        assert_eq!(cache.cached(), None);
        let good = obj(vec![("status", JsonValue::Number("200".into())), ("data", obj(vec![("riotClientVersion", s("v9"))]))]);
        assert_eq!(cache.learn(&good), Ok("v9".to_string()));
    }
    let again = get_client_version_cache(&mut slot);
    assert_eq!(again.cached(), Some("v9".to_string()));
    assert_eq!(ClientVersionCache::new().version, None);
}

#[test]
fn storefront_offers_keep_string_ids_in_order() {
    let answer = obj(vec![(
        "SkinsPanelLayout",
        obj(vec![("SingleItemOffers", JsonValue::Array(vec![s("a"), JsonValue::Number("3".into()), s("b")]))]),
    )]);
    assert_eq!(storefront_offers(&answer), Ok(vec!["a".to_string(), "b".to_string()]));
}

#[test]
fn storefront_without_offers_is_refused() {
    let not_array = obj(vec![("SkinsPanelLayout", obj(vec![("SingleItemOffers", s("x"))]))]);
    let e = storefront_offers(&not_array).unwrap_err();
    assert_eq!(e, CommandError::MissingOffers);
    assert_eq!(e.message(), "Missing SingleItemOffers in JSON");
    assert_eq!(storefront_offers(&JsonValue::Null), Err(CommandError::MissingOffers));
}

#[test]
fn skin_details() {
    assert_eq!(resolve_language(None), "zh-TW");
    assert_eq!(resolve_language(Some("ja-JP".into())), "ja-JP");
    let answer = obj(vec![("data", obj(vec![("displayName", s("Prime Vandal")), ("displayIcon", JsonValue::Null)]))]);
    let d = skin_details_from("u".into(), Some(&answer));
    assert_eq!(d.uuid, "u");
    assert_eq!(d.display_name.as_deref(), Some("Prime Vandal"));
    assert_eq!(d.display_icon, None);
    let d = skin_details_from("u2".into(), None);
    assert_eq!((d.uuid.as_str(), d.display_name, d.display_icon), ("u2", None, None));
}
