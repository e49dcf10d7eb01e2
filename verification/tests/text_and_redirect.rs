use valorant_store::error::CommandError;
use valorant_store::redirect::{parse_login_redirect, DEFAULT_EXPIRES_IN};
use valorant_store::text::{contains, parse_u64, same_text, starts_with};

#[test]
fn parse_u64_accepts_plain_and_plus_signed_digits() {
    assert_eq!(parse_u64("3600"), Some(3600));
    assert_eq!(parse_u64("+5"), Some(5));
    assert_eq!(parse_u64("007"), Some(7));
    assert_eq!(parse_u64("18446744073709551615"), Some(u64::MAX));
}

#[test]
fn parse_u64_rejects_what_std_rejects() {
    assert_eq!(parse_u64(""), None);
    assert_eq!(parse_u64("+"), None);
    assert_eq!(parse_u64("-5"), None);
    assert_eq!(parse_u64("12a"), None);
    assert_eq!(parse_u64(" 1"), None);
    assert_eq!(parse_u64("18446744073709551616"), None);
    assert_eq!(parse_u64("99999999999999999999x"), None);
}

#[test]
fn parse_u64_agrees_with_std() {
    for s in ["0", "1", "+0", "++1", "4294967296", "184467440737095516150", "x", "٣"] {
        assert_eq!(parse_u64(s), s.parse::<u64>().ok(), "input {:?}", s);
    }
}

#[test]
fn text_predicates() {
    assert!(starts_with("https://playvalorant.com/opt_in#x", "https://playvalorant.com"));
    assert!(!starts_with("http", "https"));
    assert!(contains("a#access_token=1", "access_token="));
    assert!(!contains("a#token=1", "access_token="));
    assert!(contains("abc", ""));
    assert!(same_text("response", "response"));
    assert!(!same_text("response", "responses"));
}

#[test]
fn redirect_with_all_tokens() {
    let url = "https://playvalorant.com/opt_in#access_token=AT.x&scope=openid&id_token=ID&token_type=Bearer&expires_in=1800";
    let r = parse_login_redirect(url).unwrap();
    assert_eq!(r.access_token, "AT.x");
    assert_eq!(r.id_token.as_deref(), Some("ID"));
    assert_eq!(r.expires_in, 1800);
}

#[test]
fn redirect_without_fragment_is_refused() {
    let e = parse_login_redirect("https://playvalorant.com/opt_in?access_token=1").unwrap_err();
    assert_eq!(e, CommandError::NoFragment);
    assert_eq!(e.message(), "No fragment in URI");
}

#[test]
fn redirect_without_access_token_is_refused() {
    let e = parse_login_redirect("https://playvalorant.com/opt_in#id_token=1&expires_in=5").unwrap_err();
    assert_eq!(e, CommandError::MissingAccessTokenInFragment);
    assert_eq!(e.message(), "Missing access_token in URI fragment");
}

#[test]
fn redirect_lifetime_defaults() {
    let r = parse_login_redirect("x#access_token=a").unwrap();
    assert_eq!(r.expires_in, DEFAULT_EXPIRES_IN);
    assert_eq!(r.id_token, None);
    let r = parse_login_redirect("x#access_token=a&expires_in=soon").unwrap();
    assert_eq!(r.expires_in, 3600);
}

#[test]
fn redirect_pairs_follow_split_semantics() {
    // the last pair that names a key wins; a value keeps its own '='
    let r = parse_login_redirect("x#access_token=first&access_token=sec=ond").unwrap();
    assert_eq!(r.access_token, "sec=ond");
    // only the text up to a second '#' is the fragment
    let r = parse_login_redirect("x#access_token=a#expires_in=10").unwrap();
    assert_eq!(r.access_token, "a");
    assert_eq!(r.expires_in, 3600);
    // pieces without '=' are skipped
    let r = parse_login_redirect("x#access_token&access_token=z&&").unwrap();
    assert_eq!(r.access_token, "z");
    // an empty value counts
    let r = parse_login_redirect("x#access_token=").unwrap();
    assert_eq!(r.access_token, "");
}

#[test]
fn redirect_reads_back_what_it_carries() {
    let r = parse_login_redirect("https://playvalorant.com/opt_in#access_token=tok.123").unwrap();
    assert_eq!((r.access_token.as_str(), r.id_token, r.expires_in), ("tok.123", None, 3600));
    let r = parse_login_redirect("https://playvalorant.com/opt_in#access_token=tok.123&expires_in=900").unwrap();
    assert_eq!((r.access_token.as_str(), r.id_token, r.expires_in), ("tok.123", None, 900));
}
