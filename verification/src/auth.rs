//! Sign-in and session bookkeeping: what the client holds while signed in,
//! when the access token must be renewed, and how the sign-in window and
//! the silent renewal are judged.
use vstd::prelude::*;
use crate::error::CommandError;
use crate::json::{law_text_at_step, text_at, unique_member, JsonValue};
use crate::redirect::LoginRedirect;
use crate::store::ConfigData;
use crate::text::{
    contains, law_contains_occurrence, law_starts_with_prefix, opt_view, same_text, seq_contains,
    seq_starts_with, starts_with,
};

verus! {

/// The Riot sign-in page the login window opens.
pub const LOGIN_URL: &'static str = "https://auth.riotgames.com/authorize?client_id=play-valorant-web-prod&nonce=1&redirect_uri=https%3A%2F%2Fplayvalorant.com%2Fopt_in&response_type=token%20id_token&scope=account%20openid";

/// Where the sign-in page sends the browser once the user is signed in.
pub const LOGIN_REDIRECT_PREFIX: &'static str = "https://playvalorant.com/opt_in";

/// Exchanges an access token for an entitlements token.
pub const ENTITLEMENTS_URL: &'static str = "https://entitlements.auth.riotgames.com/api/token/v1";

/// Tells who the access token belongs to.
pub const USERINFO_URL: &'static str = "https://auth.riotgames.com/userinfo";

/// Answers a silent renewal of the access token.
pub const AUTHORIZATION_URL: &'static str = "https://auth.riotgames.com/api/v1/authorization";

/// How often the login window is looked at.
pub const LOGIN_POLL_INTERVAL_MS: u64 = 500;

/// How many times the login window is looked at before giving up (five minutes).
pub const LOGIN_POLL_LIMIT: u32 = 600;

/// A token is renewed when it has less than this many seconds left.
pub const EXPIRY_MARGIN_SECS: u64 = 300;

/// The outcome of a sign-in.
#[derive(Clone, Debug, PartialEq, Eq)]
pub enum LoginResult {
    Success,
    Require2FA,
    Error(String),
}

/// What the client holds about the signed-in player.
#[derive(Clone, Debug, PartialEq, Eq)]
pub struct Session {
    pub access_token: Option<String>,
    pub entitlements_token: Option<String>,
    pub config: ConfigData,
}

/// The two tokens every Riot API request carries.
#[derive(Clone, Debug, PartialEq, Eq)]
pub struct Tokens {
    pub access_token: String,
    pub entitlements_token: String,
}

/// The stored expiry, or 0 when none is stored.
pub open spec fn expiry_or_zero(config: ConfigData) -> int {
    match config.token_expiry {
        Some(e) => e as int,
        None => 0,
    }
}

/// The access token is still good at `now`, with the renewal margin to spare.
pub open spec fn token_fresh(config: ConfigData, now: u64) -> bool {
    expiry_or_zero(config) > 0 && now + EXPIRY_MARGIN_SECS < expiry_or_zero(config)
}

/// Whether the stored access token can still be used at `now` (seconds since
/// the Unix epoch) without renewing it.
pub fn token_is_fresh(config: &ConfigData, now: u64) -> (r: bool)
    ensures
        r == token_fresh(*config, now),
{
    let expiry = match config.token_expiry {
        Some(e) => e,
        None => 0,
    };
    expiry > 0 && expiry > EXPIRY_MARGIN_SECS && now < expiry - EXPIRY_MARGIN_SECS
}

impl Session {
    /// Nobody signed in.
    pub open spec fn signed_out(self) -> bool {
        self.access_token is None && self.entitlements_token is None && self.config.is_empty()
    }

    /// The session as the stored tokens and configuration describe it.
    pub fn restore(
        access_token: Option<String>,
        entitlements_token: Option<String>,
        config: ConfigData,
    ) -> (r: Session)
        ensures
            r.access_token == access_token,
            r.entitlements_token == entitlements_token,
            r.config == config,
    {
        Session { access_token, entitlements_token, config }
    }

    /// Whether an access token is held.
    pub fn has_access_token(&self) -> (r: bool)
        ensures
            r == self.access_token is Some,
    {
        self.access_token.is_some()
    }

    /// Records a completed sign-in made at `now`: both tokens, the player,
    /// and the moment the access token expires.
    pub fn complete_login(
        &mut self,
        redirect: &LoginRedirect,
        entitlements_token: String,
        puuid: String,
        now: u64,
    ) -> (r: LoginResult)
        requires
            now + redirect.expires_in <= u64::MAX,
        ensures
            opt_view(final(self).access_token) == Some(redirect.access_token@),
            opt_view(final(self).entitlements_token) == Some(entitlements_token@),
            opt_view(final(self).config.puuid) == Some(puuid@),
            final(self).config.token_expiry == Some((now + redirect.expires_in) as u64),
            r == LoginResult::Success,
    {
        self.config.puuid = Some(puuid);
        self.config.token_expiry = Some(now + redirect.expires_in);
        self.access_token = Some(redirect.access_token.clone());
        self.entitlements_token = Some(entitlements_token);
        LoginResult::Success
    }

    /// Forgets the player and both tokens.
    pub fn logout(&mut self)
        ensures
            final(self).signed_out(),
    {
        self.access_token = None;
        self.entitlements_token = None;
        self.config = ConfigData::default();
    }

    /// The two tokens, or the first one that is missing.
    pub open spec fn tokens_spec(self) -> Result<(Seq<char>, Seq<char>), CommandError> {
        match (self.access_token, self.entitlements_token) {
            (Some(a), Some(e)) => Ok((a@, e@)),
            (None, _) => Err(CommandError::MissingAccessToken),
            (Some(_), None) => Err(CommandError::MissingEntitlements),
        }
    }

    /// The two tokens and the player's id, or the first of them that is missing.
    pub open spec fn player_credentials_spec(self) -> Result<
        (Seq<char>, Seq<char>, Seq<char>),
        CommandError,
    > {
        match self.tokens_spec() {
            Err(e) => Err(e),
            Ok(t) => match self.config.puuid {
                Some(p) => Ok((t.0, t.1, p@)),
                None => Err(CommandError::MissingPuuid),
            },
        }
    }

    /// Both tokens, or the first one that is missing.
    pub fn tokens(&self) -> (r: Result<Tokens, CommandError>)
        ensures
            match self.tokens_spec() {
                Ok(t) => r matches Ok(v) && v.access_token@ == t.0 && v.entitlements_token@ == t.1,
                Err(e) => r == Err::<Tokens, CommandError>(e),
            },
    {
        let access_token = match &self.access_token {
            Some(a) => a.clone(),
            None => {
                return Err(CommandError::MissingAccessToken);
            },
        };
        let entitlements_token = match &self.entitlements_token {
            Some(e) => e.clone(),
            None => {
                return Err(CommandError::MissingEntitlements);
            },
        };
        Ok(Tokens { access_token, entitlements_token })
    }

    /// Both tokens and the player's id, or the first of them that is missing.
    pub fn player_credentials(&self) -> (r: Result<(Tokens, String), CommandError>)
        ensures
            match self.player_credentials_spec() {
                Ok(c) => r matches Ok(v) && v.0.access_token@ == c.0 && v.0.entitlements_token@ == c.1
                    && v.1@ == c.2,
                Err(e) => r == Err::<(Tokens, String), CommandError>(e),
            },
    {
        let tokens = match self.tokens() {
            Ok(t) => t,
            Err(e) => {
                return Err(e);
            },
        };
        match &self.config.puuid {
            Some(p) => Ok((tokens, p.clone())),
            None => Err(CommandError::MissingPuuid),
        }
    }
}

/// A token keeps being fresh until its renewal margin: fresh at `later`
/// means fresh at every earlier moment.
pub proof fn lemma_freshness_lasts(config: ConfigData, earlier: u64, later: u64)
    requires
        earlier <= later,
        token_fresh(config, later),
    ensures
        token_fresh(config, earlier),
{
}

/// A sign-in made at `now` with a token living `expires_in` seconds leaves a
/// token that counts as fresh at `now` exactly when it lives longer than
/// the renewal margin.
pub proof fn lemma_login_freshness(session: Session, now: u64, expires_in: u64)
    requires
        now + expires_in <= u64::MAX,
        session.config.token_expiry == Some((now + expires_in) as u64),
    ensures
        token_fresh(session.config, now) <==> expires_in > EXPIRY_MARGIN_SECS,
{
}

/// A signed-in session answers with the tokens and the player it was given.
pub proof fn lemma_login_credentials(session: Session, access: Seq<char>, entitlements: Seq<char>, puuid: Seq<char>)
    requires
        opt_view(session.access_token) == Some(access),
        opt_view(session.entitlements_token) == Some(entitlements),
        opt_view(session.config.puuid) == Some(puuid),
    ensures
        session.tokens_spec() == Ok::<(Seq<char>, Seq<char>), CommandError>((access, entitlements)),
        session.player_credentials_spec() == Ok::<(Seq<char>, Seq<char>, Seq<char>), CommandError>(
            (access, entitlements, puuid),
        ),
{
}

/// A signed-out session is refused as not signed in, and its token is
/// never fresh.
pub proof fn lemma_signed_out_refused(session: Session, now: u64)
    requires
        session.signed_out(),
    ensures
        session.tokens_spec() == Err::<(Seq<char>, Seq<char>), CommandError>(CommandError::MissingAccessToken),
        session.player_credentials_spec() == Err::<(Seq<char>, Seq<char>, Seq<char>), CommandError>(
            CommandError::MissingAccessToken,
        ),
        !token_fresh(session.config, now),
{
}

/// Whether the login window shows the page the sign-in redirects to with a
/// token in it.
pub fn is_login_redirect(url: &str) -> (r: bool)
    ensures
        r == (seq_starts_with(url@, LOGIN_REDIRECT_PREFIX@) && seq_contains(url@, "access_token="@)),
{
    starts_with(url, LOGIN_REDIRECT_PREFIX) && contains(url, "access_token=")
}

/// What to do after one look at the login window.
#[derive(Clone, Debug, PartialEq, Eq)]
pub enum PollAction {
    /// Look again after the poll interval.
    Wait,
    /// The user signed in; the window showed this URL.
    Finish(String),
    /// The window was closed, could not be read, or the time ran out.
    Abandon,
}

/// The watch over the login window: how many looks were taken.
#[derive(Clone, Copy, Debug, PartialEq, Eq)]
pub struct LoginPoll {
    pub polls: u32,
}

impl LoginPoll {
    /// No look taken yet.
    pub fn new() -> (r: LoginPoll)
        ensures
            r.polls == 0,
    {
        LoginPoll { polls: 0 }
    }

    /// One look at the window: the URL it shows (`None` when it cannot be
    /// read) and whether it is visible (`None` when that cannot be told).
    /// A look may only be taken while the limit has not been reached, and
    /// `Wait` is answered only while another look is allowed.
    pub fn observe(&mut self, url: Option<String>, visible: Option<bool>) -> (r: PollAction)
        requires
            old(self).polls < LOGIN_POLL_LIMIT,
        ensures
            final(self).polls == old(self).polls + 1,
            match url {
                Some(u) if seq_starts_with(u@, LOGIN_REDIRECT_PREFIX@) && seq_contains(
                    u@,
                    "access_token="@,
                ) => r matches PollAction::Finish(f) && f@ == u@,
                _ => if visible == Some(true) && final(self).polls < LOGIN_POLL_LIMIT {
                    r == PollAction::Wait
                } else {
                    r == PollAction::Abandon
                },
            },
            r == PollAction::Wait ==> final(self).polls < LOGIN_POLL_LIMIT,
    {
        self.polls = self.polls + 1;
        match url {
            Some(u) => {
                if is_login_redirect(u.as_str()) {
                    return PollAction::Finish(u);
                }
            },
            None => {},
        }
        match visible {
            Some(true) => {
                if self.polls < LOGIN_POLL_LIMIT {
                    PollAction::Wait
                } else {
                    PollAction::Abandon
                }
            },
            _ => PollAction::Abandon,
        }
    }
}

/// The entitlements token in the answer of the entitlements service.
pub fn entitlements_token_from(answer: &JsonValue) -> (r: Result<String, CommandError>)
    ensures
        match text_at(*answer, seq!["entitlements_token"@]) {
            Some(t) => r matches Ok(s) && s@ == t,
            None => r == Err::<String, CommandError>(CommandError::MissingEntitlementsToken),
        },
{
    let path: [&str; 1] = ["entitlements_token"];
    let ghost keys = path@.map_values(|k: &str| k@);
    assert(keys =~= seq!["entitlements_token"@]);
    match answer.text_at_path(&path) {
        Some(t) => Ok(t),
        None => Err(CommandError::MissingEntitlementsToken),
    }
}

/// The player's id (`sub`) in the answer of the userinfo service.
pub fn puuid_from_userinfo(answer: &JsonValue) -> (r: Result<String, CommandError>)
    ensures
        match text_at(*answer, seq!["sub"@]) {
            Some(t) => r matches Ok(s) && s@ == t,
            None => r == Err::<String, CommandError>(CommandError::MissingSubject),
        },
{
    let path: [&str; 1] = ["sub"];
    let ghost keys = path@.map_values(|k: &str| k@);
    assert(keys =~= seq!["sub"@]);
    match answer.text_at_path(&path) {
        Some(t) => Ok(t),
        None => Err(CommandError::MissingSubject),
    }
}

/// The members of the silent-renewal request, in order.
pub open spec fn silent_refresh_members() -> Seq<(Seq<char>, Seq<char>)> {
    seq![
        ("client_id"@, "play-valorant-web-prod"@),
        ("nonce"@, "1"@),
        ("redirect_uri"@, "https://playvalorant.com/opt_in"@),
        ("response_type"@, "token id_token"@),
        ("scope"@, "account openid"@),
    ]
}

fn text_member(key: &str, value: &str) -> (r: (String, JsonValue))
    ensures
        r.0@ == key@,
        r.1 matches JsonValue::Str(v) && v@ == value@,
{
    (key.to_owned(), JsonValue::Str(value.to_owned()))
}

/// The body of the silent-renewal request: an object of string members.
pub fn silent_refresh_body() -> (r: JsonValue)
    ensures
        r matches JsonValue::Object(m) && m@.len() == silent_refresh_members().len() && forall|i: int|
            0 <= i < m@.len() ==> (#[trigger] m@[i]).0@ == silent_refresh_members()[i].0 && (
            m@[i].1 matches JsonValue::Str(v) && v@ == silent_refresh_members()[i].1),
{
    let mut m: Vec<(String, JsonValue)> = Vec::new();
    m.push(text_member("client_id", "play-valorant-web-prod"));
    m.push(text_member("nonce", "1"));
    m.push(text_member("redirect_uri", "https://playvalorant.com/opt_in"));
    m.push(text_member("response_type", "token id_token"));
    m.push(text_member("scope", "account openid"));
    JsonValue::Object(m)
}

/// How a silent-renewal answer is judged: a redirect URI to read the new
/// tokens from, a `response` answer without one, or a refusal.
pub open spec fn silent_refresh_spec(answer: JsonValue) -> Result<Seq<char>, CommandError> {
    if text_at(answer, seq!["type"@]) == Some("response"@) {
        match text_at(answer, seq!["response"@, "parameters"@, "uri"@]) {
            Some(u) => Ok(u),
            None => Err(CommandError::MissingAuthUri),
        }
    } else {
        Err(CommandError::SilentRefreshFailed)
    }
}

/// Reads the answer of a silent renewal: the redirect URI that carries the
/// new tokens, or why there is none.
pub fn silent_refresh_uri(answer: &JsonValue) -> (r: Result<String, CommandError>)
    ensures
        match silent_refresh_spec(*answer) {
            Ok(u) => r matches Ok(s) && s@ == u,
            Err(e) => r == Err::<String, CommandError>(e),
        },
{
    let type_path: [&str; 1] = ["type"];
    let uri_path: [&str; 3] = ["response", "parameters", "uri"];
    assert(type_path@.map_values(|k: &str| k@) =~= seq!["type"@]);
    assert(uri_path@.map_values(|k: &str| k@) =~= seq!["response"@, "parameters"@, "uri"@]);
    let is_response = match answer.text_at_path(&type_path) {
        Some(t) => same_text(t.as_str(), "response"),
        None => false,
    };
    if !is_response {
        return Err(CommandError::SilentRefreshFailed);
    }
    match answer.text_at_path(&uri_path) {
        Some(u) => Ok(u),
        None => Err(CommandError::MissingAuthUri),
    }
}


/// The next step of a silent renewal.
#[derive(Clone, Debug, PartialEq, Eq)]
pub enum RefreshStep {
    /// Read the new tokens from this redirect URI, as a sign-in does.
    SignInWith(String),
    /// The token was renewed.
    Renewed,
    /// The renewal failed with this error; when `announce_expiry` holds,
    /// the front end is told that the token expired.
    GiveUp { error: CommandError, announce_expiry: bool },
}

/// What follows the answer of a silent renewal: signing in with the
/// redirect URI it carries, failing quietly when a `response` answer has
/// none, or giving up and announcing the expiry.
pub fn refresh_after_answer(answer: &JsonValue) -> (r: RefreshStep)
    ensures
        match silent_refresh_spec(*answer) {
            Ok(u) => r matches RefreshStep::SignInWith(s) && s@ == u,
            Err(CommandError::MissingAuthUri) => r == (RefreshStep::GiveUp {
                error: CommandError::MissingAuthUri,
                announce_expiry: false,
            }),
            Err(_) => r == (RefreshStep::GiveUp {
                error: CommandError::SilentRefreshFailed,
                announce_expiry: true,
            }),
        },
{
    match silent_refresh_uri(answer) {
        Ok(u) => RefreshStep::SignInWith(u),
        Err(CommandError::MissingAuthUri) => RefreshStep::GiveUp {
            error: CommandError::MissingAuthUri,
            announce_expiry: false,
        },
        Err(_) => RefreshStep::GiveUp { error: CommandError::SilentRefreshFailed, announce_expiry: true },
    }
}

/// What follows the sign-in with the renewal's redirect URI: renewed when
/// it succeeded, else giving up and announcing the expiry.
pub fn refresh_after_sign_in(signed_in: bool) -> (r: RefreshStep)
    ensures
        signed_in ==> r == RefreshStep::Renewed,
        !signed_in ==> r == (RefreshStep::GiveUp {
            error: CommandError::SilentRefreshFailed,
            announce_expiry: true,
        }),
{
    if signed_in {
        RefreshStep::Renewed
    } else {
        RefreshStep::GiveUp { error: CommandError::SilentRefreshFailed, announce_expiry: true }
    }
}


/// Every page of the sign-in redirect that carries a token is recognised,
/// whatever its length and wherever the token stands after the prefix.
pub proof fn law_login_redirect_recognised(middle: Seq<char>, after: Seq<char>)
    ensures
        seq_starts_with(LOGIN_REDIRECT_PREFIX@ + middle + "access_token="@ + after, LOGIN_REDIRECT_PREFIX@),
        seq_contains(LOGIN_REDIRECT_PREFIX@ + middle + "access_token="@ + after, "access_token="@),
{
    let u = LOGIN_REDIRECT_PREFIX@ + middle + "access_token="@ + after;
    law_starts_with_prefix(LOGIN_REDIRECT_PREFIX@, middle + "access_token="@ + after);
    assert(LOGIN_REDIRECT_PREFIX@ + (middle + "access_token="@ + after) =~= u);
    law_contains_occurrence(LOGIN_REDIRECT_PREFIX@ + middle, "access_token="@, after);
}

/// A renewal answer whose `type` member is the string `response` and that
/// carries `response.parameters.uri` is read as that URI, wherever these
/// members stand among the others.
pub proof fn law_silent_refresh_reads_uri(
    top: Vec<(String, JsonValue)>,
    t: int,
    kind: String,
    r: int,
    response: Vec<(String, JsonValue)>,
    p: int,
    parameters: Vec<(String, JsonValue)>,
    u: int,
    uri: String,
)
    requires
        unique_member(top@, "type"@, t),
        top@[t].1 == JsonValue::Str(kind),
        kind@ == "response"@,
        unique_member(top@, "response"@, r),
        top@[r].1 == JsonValue::Object(response),
        unique_member(response@, "parameters"@, p),
        response@[p].1 == JsonValue::Object(parameters),
        unique_member(parameters@, "uri"@, u),
        parameters@[u].1 == JsonValue::Str(uri),
    ensures
        silent_refresh_spec(JsonValue::Object(top)) == Ok::<Seq<char>, CommandError>(uri@),
{
    law_text_at_step(top, "type"@, t, Seq::empty());
    assert(seq!["type"@] + Seq::<Seq<char>>::empty() =~= seq!["type"@]);
    law_text_at_step(top, "response"@, r, seq!["parameters"@, "uri"@]);
    assert(seq!["response"@] + seq!["parameters"@, "uri"@] =~= seq!["response"@, "parameters"@, "uri"@]);
    law_text_at_step(response, "parameters"@, p, seq!["uri"@]);
    assert(seq!["parameters"@] + seq!["uri"@] =~= seq!["parameters"@, "uri"@]);
    law_text_at_step(parameters, "uri"@, u, Seq::empty());
    assert(seq!["uri"@] + Seq::<Seq<char>>::empty() =~= seq!["uri"@]);
}

/// A renewal answer whose `type` member is not the string `response` is a
/// refusal, whatever else it carries.
pub proof fn law_silent_refresh_refused(top: Vec<(String, JsonValue)>, t: int, kind: String)
    requires
        unique_member(top@, "type"@, t),
        top@[t].1 == JsonValue::Str(kind),
        kind@ != "response"@,
    ensures
        silent_refresh_spec(JsonValue::Object(top)) == Err::<Seq<char>, CommandError>(
            CommandError::SilentRefreshFailed,
        ),
{
    law_text_at_step(top, "type"@, t, Seq::empty());
    assert(seq!["type"@] + Seq::<Seq<char>>::empty() =~= seq!["type"@]);
}

/// A `response` answer without a `response` member has no URI to read.
pub proof fn law_silent_refresh_without_uri(top: Vec<(String, JsonValue)>, t: int, kind: String)
    requires
        unique_member(top@, "type"@, t),
        top@[t].1 == JsonValue::Str(kind),
        kind@ == "response"@,
        forall|j: int| 0 <= j < top@.len() ==> (#[trigger] top@[j]).0@ != "response"@,
    ensures
        silent_refresh_spec(JsonValue::Object(top)) == Err::<Seq<char>, CommandError>(
            CommandError::MissingAuthUri,
        ),
{
    law_text_at_step(top, "type"@, t, Seq::empty());
    assert(seq!["type"@] + Seq::<Seq<char>>::empty() =~= seq!["type"@]);
    crate::json::law_field_absent(top, "response"@);
}

} // verus!
