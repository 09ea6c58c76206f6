use discord_client::bootstrap::{clearance_step, parse_api_version, parse_challenge_token, ClearanceStep};
use discord_client::gateway::json_model::Json;
use discord_client::guild::{ChannelScope, GuildRest};
use discord_client::headers::{rest_headers, sessionless_headers};
use discord_client::auth::Authentication;
use discord_client::properties::{Context, Referer, RequestProperties, SolvedCaptcha};
use discord_client::request::Method;
use discord_client::structs::{ComponentType, MessageActivityType, MessageType};

fn s(x: &str) -> String {
    x.to_string()
}

fn pairs(v: &[(&str, &str)]) -> Vec<(String, String)> {
    v.iter().map(|(a, b)| (s(a), s(b))).collect()
}

#[test]
fn api_version_from_page() {
    assert_eq!(parse_api_version(r#"window.GLOBAL_ENV = {"API_VERSION":9,"X":1}"#), Ok(9));
    assert_eq!(parse_api_version(r#""API_VERSION":"x", "API_VERSION":010"#), Ok(10));
    assert_eq!(
        parse_api_version(r#""API_VERSION":300"#),
        Err(s("number too large to fit in target type"))
    );
    assert_eq!(
        parse_api_version("no version here"),
        Err(s("Failed to find API version"))
    );
    assert_eq!(parse_api_version("é\"API_VERSION\":255"), Ok(255));
}

#[test]
fn api_version_with_unicode_digits() {
    // An Arabic-Indic nine is a decimal digit for the pattern but not for the
    // number parser.
    assert_eq!(
        parse_api_version("\"API_VERSION\":9\u{669}"),
        Err(s("invalid digit found in string"))
    );
    assert_eq!(
        parse_api_version("\"API_VERSION\":\u{669}, \"API_VERSION\":9"),
        Err(s("invalid digit found in string"))
    );
    assert_eq!(
        parse_api_version("\"API_VERSION\":999\u{669}"),
        Err(s("number too large to fit in target type"))
    );
    assert_eq!(parse_api_version("\"API_VERSION\":9\u{e9}"), Ok(9));
}

#[test]
fn challenge_token_from_page() {
    assert_eq!(
        parse_challenge_token(b"x r:'zz' y r:'12ab' z"),
        Some(b"12ab".to_vec())
    );
    assert_eq!(parse_challenge_token(b"r:'12ab"), None);
    assert_eq!(parse_challenge_token(b"r:''"), None);
    assert_eq!(clearance_step(false, true), ClearanceStep::SkipSetupFailed);
    assert_eq!(clearance_step(true, false), ClearanceStep::SkipNoToken);
    assert_eq!(clearance_step(true, true), ClearanceStep::Solve);
}

#[test]
fn referer_values_and_properties() {
    assert_eq!(Referer::HomePage.header_value(), "https://discord.com/channels/@me");
    assert_eq!(Referer::Guild { guild_id: 5 }.header_value(), "https://discord.com/channels/5");
    assert_eq!(
        Referer::GuildChannel { guild_id: 5, channel_id: 6 }.header_value(),
        "https://discord.com/channels/5/6"
    );
    assert_eq!(
        Referer::DmChannel { channel_id: 6 }.header_value(),
        "https://discord.com/channels/@me/6"
    );
    let p = RequestProperties::guild_channel(1, 2)
        .with_context(Context { header_value: s("ctx") })
        .with_solved_captcha(SolvedCaptcha { headers: pairs(&[("X-Captcha-Key", "k")]) });
    assert_eq!(p.referer, Some(Referer::GuildChannel { guild_id: 1, channel_id: 2 }));
    assert_eq!(p.context, Some(Context { header_value: s("ctx") }));
    assert_eq!(RequestProperties::home().referer, Some(Referer::HomePage));
    assert_eq!(RequestProperties::dm_channel(3).referer, Some(Referer::DmChannel { channel_id: 3 }));
    assert_eq!(RequestProperties::default().referer, None);
}

#[test]
fn request_headers() {
    let props = Some(
        RequestProperties::guild(4).with_solved_captcha(SolvedCaptcha {
            headers: pairs(&[("X-Captcha-Key", "k"), ("X-Captcha-Rqtoken", "r")]),
        }),
    );
    assert_eq!(
        rest_headers(Authentication::Bot, "Bot t", "en-US", "UTC", "sp", &props),
        pairs(&[("Authorization", "Bot t")])
    );
    assert_eq!(
        rest_headers(Authentication::User, "t", "en-US", "UTC", "sp", &props),
        pairs(&[
            ("Authorization", "t"),
            ("X-Debug-Options", "bugReporterEnabled"),
            ("X-Discord-Locale", "en-US"),
            ("X-Discord-Timezone", "UTC"),
            ("X-Super-Properties", "sp"),
            ("Referer", "https://discord.com/channels/4"),
            ("X-Captcha-Key", "k"),
            ("X-Captcha-Rqtoken", "r"),
        ])
    );
    assert_eq!(
        sessionless_headers("fr", "UTC", "sp", &Some(s("fp")), &None),
        pairs(&[
            ("X-Debug-Options", "bugReporterEnabled"),
            ("X-Discord-Locale", "fr"),
            ("X-Discord-Timezone", "UTC"),
            ("X-Super-Properties", "sp"),
            ("X-Fingerprint", "fp"),
        ])
    );
}

#[test]
fn guild_requests() {
    let none = GuildRest { guild_id: None };
    assert_eq!(none.get_roles().unwrap_err(), "Guild ID is required");
    assert_eq!(none.leave().unwrap_err(), "Guild ID is required");
    assert_eq!(none.channel(Some(1)), None);
    let g = GuildRest { guild_id: Some(42) };
    assert_eq!(g.channel(Some(1)), Some(ChannelScope { channel_id: Some(1), guild_id: 42 }));

    let r = g.get(true).unwrap();
    assert_eq!(r.method, Method::Get);
    assert_eq!(r.path, "guilds/42");
    assert_eq!(r.query, pairs(&[("with_counts", "true")]));
    assert_eq!(r.properties, RequestProperties::guild(42));

    let r = g.list_members(1000, Some(7)).unwrap();
    assert_eq!(r.path, "guilds/42/members");
    assert_eq!(r.query, pairs(&[("limit", "1000"), ("after", "7")]));
    assert_eq!(
        g.list_members(0, None).unwrap_err(),
        "Member list limit must be between 1 and 1000"
    );
    assert_eq!(
        g.list_members(1001, None).unwrap_err(),
        "Member list limit must be between 1 and 1000"
    );
    assert_eq!(none.list_members(0, None).unwrap_err(), "Guild ID is required");

    let r = g.add_member_role(5, 6).unwrap();
    assert_eq!(r.method, Method::Put);
    assert_eq!(r.path, "guilds/42/members/5/roles/6");
    assert_eq!(r.body, None);

    let r = g.bulk_ban(vec![1, 2], 60).unwrap();
    assert_eq!(r.method, Method::Post);
    assert_eq!(r.path, "guilds/42/bulk-ban");
    assert_eq!(
        r.body,
        Some(Json::Obj(vec![
            (s("user_ids"), Json::Arr(vec![Json::Str(s("1")), Json::Str(s("2"))])),
            (s("delete_message_seconds"), Json::Num(60)),
        ]))
    );

    let r = g.get_bans(10, None, Some(3)).unwrap();
    assert_eq!(r.query, pairs(&[("limit", "10"), ("after", "3")]));
    assert_eq!(g.get_current_member().unwrap().path, "users/@me/guilds/42/member");
    assert_eq!(g.leave().unwrap().path, "users/@me/guilds/42");
    assert_eq!(g.leave().unwrap().method, Method::Delete);
    assert_eq!(g.get_widget().unwrap().path, "guilds/42/widget.json");
    assert_eq!(g.get_role_member_ids(8).unwrap().path, "guilds/42/roles/8/member-ids");
    let r = GuildRest::get_user_guilds();
    assert_eq!(r.path, "users/@me/guilds");
    assert_eq!(r.properties, RequestProperties::home());
}

#[test]
fn kind_codes() {
    assert_eq!(MessageType::from_code(19), MessageType::Reply);
    assert_eq!(MessageType::from_code(13), MessageType::Unknown(13));
    assert_eq!(MessageType::PollResult.code(), 46);
    assert_eq!(MessageType::default(), MessageType::Default);
    for n in 0..=300u16 {
        assert_eq!(MessageType::from_code(n).code(), n);
        assert_eq!(MessageActivityType::from_code(n).code(), n);
        assert_eq!(ComponentType::from_code(n).code(), n);
    }
    assert_eq!(MessageActivityType::from_code(5), MessageActivityType::JoinRequest);
    assert_eq!(ComponentType::from_code(8), ComponentType::ChannelSelect);
}
