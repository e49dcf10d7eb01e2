//! The failures that the library itself detects, with the text the user sees.
use vstd::prelude::*;

verus! {

/// A failure decided by the library's own logic (transport and decoding
/// failures of the network layer are reported by the application).
#[derive(Clone, Copy, Debug, PartialEq, Eq, Structural)]
pub enum CommandError {
    /// The login redirect carries no `#fragment`.
    NoFragment,
    /// The fragment of the login redirect has no `access_token`.
    MissingAccessTokenInFragment,
    /// The entitlements answer has no `entitlements_token` string.
    MissingEntitlementsToken,
    /// The userinfo answer has no `sub` string.
    MissingSubject,
    /// A silent-refresh answer of type `response` carries no redirect URI.
    MissingAuthUri,
    /// The stored token expired and could not be renewed silently.
    SilentRefreshFailed,
    /// The login window was closed, or the user took too long.
    LoginCancelled,
    /// No access token is held.
    MissingAccessToken,
    /// No entitlements token is held.
    MissingEntitlements,
    /// The player's id is not known.
    MissingPuuid,
    /// The version answer has no `data.riotClientVersion` string.
    MissingClientVersion,
    /// The storefront answer has no `SkinsPanelLayout.SingleItemOffers` array.
    MissingOffers,
}

impl CommandError {
    /// The text shown for each failure.
    pub open spec fn text(self) -> Seq<char> {
        match self {
            CommandError::NoFragment => "No fragment in URI"@,
            CommandError::MissingAccessTokenInFragment => "Missing access_token in URI fragment"@,
            CommandError::MissingEntitlementsToken => "Missing entitlements_token in response"@,
            CommandError::MissingSubject => "Missing sub (puuid) in userinfo"@,
            CommandError::MissingAuthUri => "Missing URI in auth response"@,
            CommandError::SilentRefreshFailed => "Token expired and silent refresh failed"@,
            CommandError::LoginCancelled => "Login cancelled or timed out"@,
            CommandError::MissingAccessToken => "Not logged in (Missing access token)"@,
            CommandError::MissingEntitlements => "Not logged in (Missing entitlements token)"@,
            CommandError::MissingPuuid => "Missing PUUID"@,
            CommandError::MissingClientVersion => "Missing riotClientVersion in valorant-api.com response"@,
            CommandError::MissingOffers => "Missing SingleItemOffers in JSON"@,
        }
    }

    /// The message of this failure, as the commands return it.
    pub fn message(&self) -> (r: String)
        ensures
            r@ == self.text(),
    {
        match self {
            CommandError::NoFragment => "No fragment in URI".to_owned(),
            CommandError::MissingAccessTokenInFragment => "Missing access_token in URI fragment".to_owned(),
            CommandError::MissingEntitlementsToken => "Missing entitlements_token in response".to_owned(),
            CommandError::MissingSubject => "Missing sub (puuid) in userinfo".to_owned(),
            CommandError::MissingAuthUri => "Missing URI in auth response".to_owned(),
            CommandError::SilentRefreshFailed => "Token expired and silent refresh failed".to_owned(),
            CommandError::LoginCancelled => "Login cancelled or timed out".to_owned(),
            CommandError::MissingAccessToken => "Not logged in (Missing access token)".to_owned(),
            CommandError::MissingEntitlements => "Not logged in (Missing entitlements token)".to_owned(),
            CommandError::MissingPuuid => "Missing PUUID".to_owned(),
            CommandError::MissingClientVersion => "Missing riotClientVersion in valorant-api.com response".to_owned(),
            CommandError::MissingOffers => "Missing SingleItemOffers in JSON".to_owned(),
        }
    }
}

} // verus!
