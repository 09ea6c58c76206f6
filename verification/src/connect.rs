//! How a REST client connects: which build numbers and API version it uses,
//! which request checks the token, what that request's status means, and
//! the defaults for the locale and the time zone.

use vstd::prelude::*;
use vstd::string::StringExecFns;
use crate::auth::{
    Authentication, authorization_value, invalid_token_message, normalized_bot_token,
};
use crate::parser::{parse_id_from_token, token_user_id};
use crate::routes::{api_url, build_api_url};
use crate::text::{append_decimal, append_str, copy_str, decimal};

verus! {

/// The API version a bot uses unless told otherwise.
pub const DEFAULT_API_VERSION: u8 = 9;

/// Where the client build numbers come from.
#[derive(Clone, Copy, Debug, PartialEq, Eq, Structural)]
pub enum BuildNumbersSource {
    /// The ones the caller gave.
    Custom,
    /// Looked up from the web client.
    Fetch,
    /// Zero, for a bot.
    Zero,
}

/// Where the API version comes from.
#[derive(Clone, Copy, Debug, PartialEq, Eq, Structural)]
pub enum ApiVersionSource {
    /// This version.
    Fixed(u8),
    /// Read from the web client's page (when no version is given to a user
    /// client).
    FromAppShell,
}

/// The request that checks the token when connecting.
#[derive(Clone, Copy, Debug, PartialEq, Eq, Structural)]
pub enum ConnectStage {
    /// A user client fetches the experiments.
    Experiments,
    /// A bot fetches its own user.
    CurrentBot,
    /// A user client fetches its application command index.
    ApplicationCommandIndex,
}

/// Where the build numbers come from.
pub open spec fn build_numbers_source_spec(auth: Authentication, has_custom: bool) -> BuildNumbersSource {
    if has_custom {
        BuildNumbersSource::Custom
    } else if auth == Authentication::User {
        BuildNumbersSource::Fetch
    } else {
        BuildNumbersSource::Zero
    }
}

/// Where the API version comes from.
pub open spec fn api_version_source_spec(auth: Authentication, custom: Option<u8>) -> ApiVersionSource {
    match custom {
        Some(v) => ApiVersionSource::Fixed(v),
        None => if auth == Authentication::User {
            ApiVersionSource::FromAppShell
        } else {
            ApiVersionSource::Fixed(DEFAULT_API_VERSION)
        },
    }
}

/// A custom API version is always used, by a user and a bot alike; without
/// one a user reads it from the web client and a bot uses 9. Custom build
/// numbers are always used; without them a user fetches them and a bot
/// uses zero.
pub proof fn law_connect_sources(auth: Authentication, version: u8, has_custom: bool)
    ensures
        api_version_source_spec(auth, Some(version)) == ApiVersionSource::Fixed(version),
        api_version_source_spec(Authentication::User, None) == ApiVersionSource::FromAppShell,
        api_version_source_spec(Authentication::Bot, None) == ApiVersionSource::Fixed(9),
        build_numbers_source_spec(auth, true) == BuildNumbersSource::Custom,
        build_numbers_source_spec(Authentication::User, false) == BuildNumbersSource::Fetch,
        build_numbers_source_spec(Authentication::Bot, false) == BuildNumbersSource::Zero,
{
}

/// The custom build numbers when given; otherwise fetched for a user and
/// zero for a bot.
pub fn build_numbers_source(authentication: Authentication, has_custom: bool) -> (s:
    BuildNumbersSource)
    ensures
        s == build_numbers_source_spec(authentication, has_custom),
{
    if has_custom {
        BuildNumbersSource::Custom
    } else if authentication == Authentication::User {
        BuildNumbersSource::Fetch
    } else {
        BuildNumbersSource::Zero
    }
}

/// The custom API version when given; otherwise read from the web client
/// for a user and 9 for a bot.
pub fn api_version_source(authentication: Authentication, custom: Option<u8>) -> (s:
    ApiVersionSource)
    ensures
        s == api_version_source_spec(authentication, custom),
{
    match custom {
        Some(v) => ApiVersionSource::Fixed(v),
        None => if authentication == Authentication::User {
            ApiVersionSource::FromAppShell
        } else {
            ApiVersionSource::Fixed(DEFAULT_API_VERSION)
        },
    }
}

/// The path of the request of a stage.
pub open spec fn stage_path(stage: ConnectStage) -> Seq<char> {
    match stage {
        ConnectStage::Experiments => "experiments?with_guild_experiments=true"@,
        ConnectStage::CurrentBot => "users/@me"@,
        ConnectStage::ApplicationCommandIndex => "users/@me/application-command-index"@,
    }
}

/// What a stage fetches, as its error names it.
pub open spec fn stage_subject(stage: ConnectStage) -> Seq<char> {
    match stage {
        ConnectStage::Experiments => "experiments"@,
        ConnectStage::CurrentBot => "current bot"@,
        ConnectStage::ApplicationCommandIndex => "application command index"@,
    }
}

/// The URL a stage requests under API version `version`.
pub fn stage_url(stage: ConnectStage, version: u8) -> (s: String)
    ensures
        s@ == api_url(version, stage_path(stage)),
{
    match stage {
        ConnectStage::Experiments => build_api_url(version, "experiments?with_guild_experiments=true"),
        ConnectStage::CurrentBot => build_api_url(version, "users/@me"),
        ConnectStage::ApplicationCommandIndex => build_api_url(
            version,
            "users/@me/application-command-index",
        ),
    }
}

/// The error of a stage whose request answered `code`, if any.
pub open spec fn stage_error(stage: ConnectStage, code: u16) -> Option<Seq<char>> {
    if code == 401 {
        Some(invalid_token_message())
    } else if code != 200 {
        Some("Failed to fetch "@ + stage_subject(stage) + ", response code: "@ + decimal(code as nat))
    } else {
        None
    }
}

/// Checks the status of a stage's request: 401 means an invalid token, any
/// other status but 200 a failure naming it.
pub fn check_stage_status(stage: ConnectStage, code: u16) -> (r: Result<(), String>)
    ensures
        match stage_error(stage, code) {
            None => r is Ok,
            Some(m) => r matches Err(e) && e@ == m,
        },
{
    if code == 401 {
        return Err(String::from_str("Invalid token"));
    }
    if code != 200 {
        let mut m = copy_str("Failed to fetch ");
        match stage {
            ConnectStage::Experiments => append_str(&mut m, "experiments"),
            ConnectStage::CurrentBot => append_str(&mut m, "current bot"),
            ConnectStage::ApplicationCommandIndex => append_str(&mut m, "application command index"),
        }
        append_str(&mut m, ", response code: ");
        append_decimal(&mut m, code as u64);
        return Err(m);
    }
    Ok(())
}

/// The time zone, `America/New_York` when the system names none.
pub fn timezone_or_default(tz: Option<String>) -> (s: String)
    ensures
        s@ == match tz {
            Some(t) => t@,
            None => "America/New_York"@,
        },
{
    match tz {
        Some(t) => t,
        None => String::from_str("America/New_York"),
    }
}

/// The locale, `en-US` when the system names none.
pub fn locale_or_default(locale: Option<String>) -> (s: String)
    ensures
        s@ == match locale {
            Some(l) => l@,
            None => "en-US"@,
        },
{
    match locale {
        Some(l) => l,
        None => String::from_str("en-US"),
    }
}

/// What a connecting client settles before any request.
pub struct ConnectPlan {
    /// The token as kept.
    pub token: String,
    /// The user id the token names.
    pub user_id: u64,
    /// The value of the `Authorization` header.
    pub authorization: String,
    pub build_numbers: BuildNumbersSource,
    pub api_version: ApiVersionSource,
    /// The request that checks the token.
    pub validation_stage: ConnectStage,
    /// Whether the application command index is fetched (for a user only;
    /// a bot has none).
    pub fetches_command_index: bool,
}

/// The request that checks a token: the experiments for a user, the
/// current user for a bot.
pub open spec fn validation_stage_spec(auth: Authentication) -> ConnectStage {
    match auth {
        Authentication::User => ConnectStage::Experiments,
        Authentication::Bot => ConnectStage::CurrentBot,
    }
}

/// The token a client keeps: a user token as given, a bot token normalized.
pub open spec fn kept_token(auth: Authentication, token: Seq<char>) -> Seq<char> {
    if auth == Authentication::User {
        token
    } else {
        normalized_bot_token(token)
    }
}

/// Whether a connection can be settled: a bot token must not be empty once
/// normalized, and the kept token must name a user id.
pub open spec fn connect_accepts(auth: Authentication, token: Seq<char>) -> bool {
    &&& (auth == Authentication::Bot ==> normalized_bot_token(token).len() > 0)
    &&& token_user_id(kept_token(auth, token)) is Some
}

/// Settles a connection: normalizes the token (refusing an empty bot
/// token), reads the user id from it (refusing a token that names none),
/// computes the authorization, and picks where the build numbers and the
/// API version come from. No request is made before this succeeds.
pub fn plan_connect(
    authentication: Authentication,
    token: String,
    custom_api_version: Option<u8>,
    has_custom_build_numbers: bool,
) -> (r: Result<ConnectPlan, String>)
    ensures
        r is Ok <==> connect_accepts(authentication, token@),
        r matches Err(e) ==> e@ == invalid_token_message(),
        r matches Ok(p) ==> {
            &&& p.token@ == kept_token(authentication, token@)
            &&& Some(p.user_id) == token_user_id(p.token@)
            &&& p.authorization@ == authorization_value(authentication, p.token@)
            &&& p.build_numbers == build_numbers_source_spec(authentication, has_custom_build_numbers)
            &&& p.api_version == api_version_source_spec(authentication, custom_api_version)
            &&& p.validation_stage == validation_stage_spec(authentication)
            &&& p.fetches_command_index == (authentication == Authentication::User)
        },
{
    let token = match authentication.normalize_token(token) {
        Ok(t) => t,
        Err(e) => return Err(e),
    };
    let user_id = match parse_id_from_token(token.as_str()) {
        Some(id) => id,
        None => return Err(String::from_str("Invalid token")),
    };
    let authorization = authentication.authorization(token.as_str());
    Ok(
        ConnectPlan {
            token,
            user_id,
            authorization,
            build_numbers: build_numbers_source(authentication, has_custom_build_numbers),
            api_version: api_version_source(authentication, custom_api_version),
            validation_stage: match authentication {
                Authentication::User => ConnectStage::Experiments,
                Authentication::Bot => ConnectStage::CurrentBot,
            },
            fetches_command_index: authentication == Authentication::User,
        },
    )
}

/// A user's token is checked by fetching the experiments and a bot's by
/// fetching its own user; a check answered 200 passes, 401 means an invalid
/// token, and any other status fails naming the status.
pub proof fn law_token_check(auth: Authentication, stage: ConnectStage, code: u16)
    ensures
        validation_stage_spec(Authentication::User) == ConnectStage::Experiments,
        validation_stage_spec(Authentication::Bot) == ConnectStage::CurrentBot,
        stage_error(stage, 200) is None,
        stage_error(stage, 401) == Some("Invalid token"@),
        (code != 200 && code != 401) ==> stage_error(stage, code) == Some(
            "Failed to fetch "@ + stage_subject(stage) + ", response code: "@ + decimal(code as nat),
        ),
{
}

} // verus!
