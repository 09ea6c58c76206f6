use discord_client::auth::Authentication;
use discord_client::connect::{
    api_version_source, build_numbers_source, check_stage_status, locale_or_default, plan_connect,
    stage_url, timezone_or_default, ApiVersionSource, BuildNumbersSource, ConnectStage,
};
use discord_client::parser::{base64_decode_chars, parse_id_from_token, parse_u64_bytes};
use discord_client::routes::{build_api_url, rate_limit_route};
use discord_client::text::decimal_string;

#[test]
fn decimal_rendering() {
    assert_eq!(decimal_string(0), "0");
    assert_eq!(decimal_string(7), "7");
    assert_eq!(decimal_string(1234567890), "1234567890");
    assert_eq!(decimal_string(u64::MAX), u64::MAX.to_string());
}

#[test]
fn bot_token_trims_unicode_whitespace() {
    let t = Authentication::Bot
        .normalize_token("\u{3000}Bot \u{a0}abc\t\n".to_string())
        .unwrap();
    assert_eq!(t, "abc");
    let t = Authentication::Bot.normalize_token("abc".to_string()).unwrap();
    assert_eq!(t, "abc");
    // Trimming comes first, so a lone `Bot` keeps its name.
    assert_eq!(
        Authentication::Bot.normalize_token("Bot  ".to_string()),
        Ok("Bot".to_string())
    );
    assert!(Authentication::Bot.normalize_token(" \t\u{2028} ".to_string()).is_err());
    assert_eq!(
        Authentication::Bot.normalize_token("".to_string()),
        Err("Invalid token".to_string())
    );
}

#[test]
fn normalizing_twice_changes_nothing() {
    let once = Authentication::Bot
        .normalize_token("  Bot abc ".to_string())
        .unwrap();
    let twice = Authentication::Bot.normalize_token(once.clone()).unwrap();
    assert_eq!(once, twice);
    // The exception: a token that still begins with `Bot `.
    let once = Authentication::Bot
        .normalize_token("Bot Bot x".to_string())
        .unwrap();
    assert_eq!(once, "Bot x");
    let twice = Authentication::Bot.normalize_token(once).unwrap();
    assert_eq!(twice, "x");
}

#[test]
fn api_urls() {
    assert_eq!(
        build_api_url(9, "users/@me"),
        "https://discord.com/api/v9/users/@me"
    );
    assert_eq!(
        stage_url(ConnectStage::Experiments, 10),
        "https://discord.com/api/v10/experiments?with_guild_experiments=true"
    );
    assert_eq!(
        stage_url(ConnectStage::ApplicationCommandIndex, 9),
        "https://discord.com/api/v9/users/@me/application-command-index"
    );
}

#[test]
fn profile_route_edge_cases() {
    assert_eq!(rate_limit_route("users//profile"), "users/:user_id/profile");
    assert_eq!(rate_limit_route("users/1/2/profile"), "users/1/2/profile");
    assert_eq!(rate_limit_route("users/profile"), "users/profile");
    assert_eq!(rate_limit_route("users/1/profile/x"), "users/1/profile/x");
    assert_eq!(rate_limit_route("guilds/1/profile"), "guilds/1/profile");
}

#[test]
fn connect_stage_errors() {
    assert_eq!(
        check_stage_status(ConnectStage::Experiments, 401),
        Err("Invalid token".to_string())
    );
    assert_eq!(
        check_stage_status(ConnectStage::CurrentBot, 500),
        Err("Failed to fetch current bot, response code: 500".to_string())
    );
    assert_eq!(
        check_stage_status(ConnectStage::ApplicationCommandIndex, 403),
        Err("Failed to fetch application command index, response code: 403".to_string())
    );
    assert_eq!(check_stage_status(ConnectStage::Experiments, 200), Ok(()));
}

#[test]
fn connect_sources_and_defaults() {
    assert_eq!(
        build_numbers_source(Authentication::User, false),
        BuildNumbersSource::Fetch
    );
    assert_eq!(
        build_numbers_source(Authentication::Bot, false),
        BuildNumbersSource::Zero
    );
    assert_eq!(
        build_numbers_source(Authentication::Bot, true),
        BuildNumbersSource::Custom
    );
    assert_eq!(
        api_version_source(Authentication::Bot, None),
        ApiVersionSource::Fixed(9)
    );
    assert_eq!(
        api_version_source(Authentication::User, None),
        ApiVersionSource::FromAppShell
    );
    assert_eq!(
        api_version_source(Authentication::User, Some(10)),
        ApiVersionSource::Fixed(10)
    );
    assert_eq!(timezone_or_default(None), "America/New_York");
    assert_eq!(timezone_or_default(Some("Europe/Paris".to_string())), "Europe/Paris");
    assert_eq!(locale_or_default(None), "en-US");
}

#[test]
fn connect_plan() {
    let p = plan_connect(Authentication::Bot, " Bot MTIz.x.y ".to_string(), None, false).unwrap();
    assert_eq!(p.token, "MTIz.x.y");
    assert_eq!(p.user_id, 123);
    assert_eq!(p.authorization, "Bot MTIz.x.y");
    assert_eq!(p.api_version, ApiVersionSource::Fixed(9));
    assert_eq!(p.validation_stage, ConnectStage::CurrentBot);
    assert!(!p.fetches_command_index);
    let p = plan_connect(Authentication::User, "MTIzNDU2Nzg5MDEyMzQ1Njc4.a.b".to_string(), None, false)
        .unwrap();
    assert_eq!(p.token, "MTIzNDU2Nzg5MDEyMzQ1Njc4.a.b");
    assert_eq!(p.user_id, 123456789012345678);
    assert_eq!(p.authorization, "MTIzNDU2Nzg5MDEyMzQ1Njc4.a.b");
    assert_eq!(p.validation_stage, ConnectStage::Experiments);
    assert!(p.fetches_command_index);
    assert_eq!(
        plan_connect(Authentication::Bot, "   ".to_string(), None, false).err(),
        Some("Invalid token".to_string())
    );
}

#[test]
fn connect_refuses_token_without_user_id() {
    assert_eq!(
        plan_connect(Authentication::User, "!".to_string(), None, false).err(),
        Some("Invalid token".to_string())
    );
    assert_eq!(
        plan_connect(Authentication::User, " u ".to_string(), None, false).err(),
        Some("Invalid token".to_string())
    );
    assert_eq!(
        plan_connect(Authentication::Bot, "Bot abc".to_string(), None, false).err(),
        Some("Invalid token".to_string())
    );
}

#[test]
fn user_id_from_token() {
    assert_eq!(parse_id_from_token("MTIzNDU2Nzg5MDEyMzQ1Njc4.GhIjKl.abc"), Some(123456789012345678));
    assert_eq!(parse_id_from_token("MTIzNDU2Nzg5MDEyMzQ1Njc4OQ==.x"), Some(1234567890123456789));
    assert_eq!(parse_id_from_token("MTIzNDU2Nzg5MDEyMzQ1Njc4OQ.x"), Some(1234567890123456789));
    assert_eq!(parse_id_from_token("MTg0NDY3NDQwNzM3MDk1NTE2MTU="), Some(u64::MAX));
    assert_eq!(parse_id_from_token("MTg0NDY3NDQwNzM3MDk1NTE2MTY="), None);
    assert_eq!(parse_id_from_token("KzQy.x"), Some(42));
    assert_eq!(parse_id_from_token("MTJh.x"), None);
    assert_eq!(parse_id_from_token("M.x"), None);
    assert_eq!(parse_id_from_token(".x"), None);
    assert_eq!(parse_id_from_token("!"), None);
}

#[test]
fn base64_and_decimal_readers() {
    let chars: Vec<char> = "TWFu".chars().collect();
    assert_eq!(base64_decode_chars(&chars), Some(b"Man".to_vec()));
    let chars: Vec<char> = "TWE=".chars().collect();
    assert_eq!(base64_decode_chars(&chars), Some(b"Ma".to_vec()));
    let chars: Vec<char> = "TQ==".chars().collect();
    assert_eq!(base64_decode_chars(&chars), Some(b"M".to_vec()));
    let chars: Vec<char> = "T".chars().collect();
    assert_eq!(base64_decode_chars(&chars), None);
    assert_eq!(parse_u64_bytes(&b"+7".to_vec()), Some(7));
    assert_eq!(parse_u64_bytes(&b"+".to_vec()), None);
    assert_eq!(parse_u64_bytes(&b"".to_vec()), None);
    assert_eq!(parse_u64_bytes(&b"007".to_vec()), Some(7));
}
