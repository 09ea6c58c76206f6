use discord_client::auth::Authentication;
use discord_client::routes::{rate_limit_route, should_retry_search_indexing};

#[test]
fn builds_bot_authorization() {
    let token = Authentication::Bot
        .normalize_token(" Bot token ".to_string())
        .unwrap();

    assert_eq!(token, "token");
    assert_eq!(Authentication::Bot.authorization(&token), "Bot token");
    assert!(
        Authentication::Bot
            .normalize_token(" ".to_string())
            .is_err()
    );
}

#[test]
fn preserves_user_authorization() {
    let token = Authentication::User
        .normalize_token(" user-token ".to_string())
        .unwrap();

    assert_eq!(token, " user-token ");
    assert_eq!(Authentication::User.authorization(&token), " user-token ");
}

#[test]
fn scopes_search_indexing_retries_to_bots_and_search_paths() {
    assert!(should_retry_search_indexing(
        Authentication::Bot,
        202,
        "guilds/1/messages/search"
    ));
    assert!(!should_retry_search_indexing(
        Authentication::User,
        202,
        "guilds/1/messages/search"
    ));
    assert!(!should_retry_search_indexing(
        Authentication::Bot,
        200,
        "guilds/1/messages/search"
    ));
    assert!(!should_retry_search_indexing(
        Authentication::Bot,
        202,
        "channels/1/messages"
    ));
}

#[test]
fn profile_requests_share_one_rate_limit_route() {
    assert_eq!(
        rate_limit_route("users/123/profile"),
        "users/:user_id/profile"
    );
    assert_eq!(
        rate_limit_route("users/456/profile"),
        "users/:user_id/profile"
    );
    assert_eq!(rate_limit_route("users/123"), "users/123");
}
