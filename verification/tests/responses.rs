use discord_client::auth::Authentication;
use discord_client::response::{
    interpret_rest_response, interpret_sessionless_response, ResponseOutcome,
};
use discord_client::response::{
    bad_request_error, bad_request_message, classify_bad_request, classify_rest_status,
    classify_sessionless_status, classify_unauthorized, parse_error_body, rate_limit_from_body,
    bad_request_kind, rate_limit_decision, unauthorized_kind,
    BadRequestError, BadRequestKind, DiscordApiError, RateLimitError, ResponseClass,
    UnauthorizedKind,
};

#[test]
fn status_classes() {
    let bot = Authentication::Bot;
    let user = Authentication::User;
    let search = "guilds/1/messages/search";
    assert_eq!(classify_rest_status(user, 401, "x"), ResponseClass::Unauthorized);
    assert_eq!(classify_rest_status(user, 204, "x"), ResponseClass::NoContent);
    assert_eq!(classify_rest_status(bot, 202, search), ResponseClass::SearchIndexing);
    assert_eq!(classify_rest_status(user, 202, search), ResponseClass::Success);
    assert_eq!(classify_rest_status(bot, 202, "channels/1"), ResponseClass::Success);
    assert_eq!(classify_rest_status(user, 200, "x"), ResponseClass::Success);
    assert_eq!(classify_rest_status(user, 429, "x"), ResponseClass::RateLimited);
    assert_eq!(classify_rest_status(user, 400, "x"), ResponseClass::BadRequest);
    assert_eq!(classify_rest_status(user, 404, "x"), ResponseClass::Failed);
    assert_eq!(classify_rest_status(user, 302, "x"), ResponseClass::Failed);
    assert_eq!(classify_sessionless_status(401), ResponseClass::Failed);
    assert_eq!(classify_sessionless_status(204), ResponseClass::NoContent);
    assert_eq!(classify_sessionless_status(202), ResponseClass::Success);
    assert_eq!(classify_sessionless_status(429), ResponseClass::RateLimited);
}

#[test]
fn api_error_from_body() {
    let e = DiscordApiError::from_body(
        404,
        "https://discord.com/api/v9/guilds/1",
        br#"{"code":10004,"message":"Unknown Guild"}"#,
    );
    assert_eq!(e.status, 404);
    assert_eq!(e.code, Some(10004));
    assert_eq!(e.message.as_deref(), Some("Unknown Guild"));
    assert_eq!(e.body, r#"{"code":10004,"message":"Unknown Guild"}"#);
    assert_eq!(
        e.to_message(),
        r#"Request to https://discord.com/api/v9/guilds/1 failed with code 404: {"code":10004,"message":"Unknown Guild"}"#
    );
    let e = DiscordApiError::from_body(503, "u", b"oops \xff");
    assert_eq!(e.code, None);
    assert_eq!(e.message, None);
    assert_eq!(e.body, "oops \u{fffd}");
}

#[test]
fn non_json_error_bodies() {
    assert_eq!(parse_error_body(b"{}", 400, "u"), Ok(()));
    let body = "x".repeat(250);
    let m = parse_error_body(body.as_bytes(), 401, "https://a").unwrap_err();
    assert_eq!(
        m,
        format!(
            "Request to https://a failed with code 401 and a non-JSON body (likely a Cloudflare block rather than a Discord API response): {}",
            "x".repeat(200)
        )
    );
}

#[test]
fn unauthorized_bodies() {
    assert_eq!(
        classify_unauthorized(br#"{"code":60003,"mfa":{}}"#, "u"),
        Ok(UnauthorizedKind::MfaRequired)
    );
    assert_eq!(
        classify_unauthorized(br#"{"code":0}"#, "u"),
        Ok(UnauthorizedKind::InvalidToken)
    );
    assert_eq!(
        classify_unauthorized(br#"{"message":"401: Unauthorized"}"#, "u"),
        Ok(UnauthorizedKind::InvalidToken)
    );
    assert!(classify_unauthorized(b"<html>", "u").is_err());
}

#[test]
fn bad_request_bodies() {
    assert_eq!(
        classify_bad_request(br#"{"captcha_sitekey":"abc","captcha_key":["x"]}"#, "u"),
        Ok(BadRequestKind::CaptchaRequired)
    );
    assert_eq!(
        classify_bad_request(br#"{"captcha_sitekey":5}"#, "u"),
        Ok(BadRequestKind::Other)
    );
    assert!(classify_bad_request(b"nope", "u").is_err());
    assert_eq!(bad_request_message(), "Bad request");
    assert!(matches!(
        bad_request_error(br#"{"captcha_sitekey":"k"}"#, "u"),
        BadRequestError::CaptchaRequired
    ));
    match bad_request_error(br#"{"code":50035}"#, "u") {
        BadRequestError::Api(e) => {
            assert_eq!(e.status, 400);
            assert_eq!(e.code, Some(50035));
        }
        _ => panic!("expected an API error"),
    }
}

#[test]
fn rate_limit_bodies() {
    assert_eq!(
        rate_limit_from_body(br#"{"retry_after":2.5,"global":true}"#, Some(2_500_000_000)),
        RateLimitError::new(2_500_000_000, true)
    );
    assert_eq!(
        rate_limit_from_body(br#"{"message":"slow down"}"#, None),
        RateLimitError::new(1_000_000_000, false)
    );
    assert_eq!(
        rate_limit_from_body(b"<html>429</html>", None),
        RateLimitError::new(2_000_000_000, false)
    );
}

#[test]
fn response_outcomes() {
    let bot = Authentication::Bot;
    let user = Authentication::User;
    assert!(matches!(
        interpret_rest_response(user, 204, "x", "u", b"ignored", None),
        ResponseOutcome::DefaultValue
    ));
    assert!(matches!(
        interpret_rest_response(user, 200, "x", "u", b"", None),
        ResponseOutcome::DefaultValue
    ));
    assert!(matches!(
        interpret_rest_response(user, 200, "x", "u", b"{}", None),
        ResponseOutcome::Decode
    ));
    assert!(matches!(
        interpret_rest_response(bot, 202, "guilds/1/messages/search", "u", b"{}", None),
        ResponseOutcome::SearchIndexing
    ));
    assert!(matches!(
        interpret_rest_response(user, 401, "x", "u", br#"{"code":60003,"mfa":{}}"#, None),
        ResponseOutcome::MfaRequired
    ));
    match interpret_rest_response(user, 401, "x", "u", br#"{"code":1}"#, None) {
        ResponseOutcome::InvalidToken(m) => assert_eq!(m, "Invalid token"),
        other => panic!("unexpected {:?}", other),
    }
    match interpret_rest_response(user, 429, "x", "u", br#"{"global":true}"#, None) {
        ResponseOutcome::RateLimited(e) => assert_eq!(e, RateLimitError::new(1_000_000_000, true)),
        other => panic!("unexpected {:?}", other),
    }
    match interpret_rest_response(user, 400, "x", "u", b"{}", None) {
        ResponseOutcome::BadRequest(m) => assert_eq!(m, "Bad request"),
        other => panic!("unexpected {:?}", other),
    }
    match interpret_rest_response(user, 400, "x", "https://u", b"blocked", None) {
        ResponseOutcome::NonJsonError(m) => assert!(m.starts_with(
            "Request to https://u failed with code 400 and a non-JSON body"
        )),
        other => panic!("unexpected {:?}", other),
    }
    match interpret_sessionless_response(401, "u", br#"{"code":0,"message":"401: Unauthorized"}"#, None) {
        ResponseOutcome::Api(e) => {
            assert_eq!(e.status, 401);
            assert_eq!(e.message.as_deref(), Some("401: Unauthorized"));
        }
        other => panic!("unexpected {:?}", other),
    }
}

#[test]
fn decisions_after_reading_bodies() {
    assert_eq!(unauthorized_kind(Some(60003)), UnauthorizedKind::MfaRequired);
    assert_eq!(unauthorized_kind(Some(50014)), UnauthorizedKind::InvalidToken);
    assert_eq!(unauthorized_kind(None), UnauthorizedKind::InvalidToken);
    assert_eq!(bad_request_kind(&Some("k".to_string())), BadRequestKind::CaptchaRequired);
    assert_eq!(bad_request_kind(&None), BadRequestKind::Other);
    assert_eq!(
        rate_limit_decision(true, Some(2_500_000_000), Some(true)),
        RateLimitError::new(2_500_000_000, true)
    );
    assert_eq!(rate_limit_decision(true, None, None), RateLimitError::new(1_000_000_000, false));
    assert_eq!(rate_limit_decision(true, Some(5), Some(false)), RateLimitError::new(5, false));
    assert_eq!(rate_limit_decision(false, Some(5), Some(true)), RateLimitError::new(2_000_000_000, false));
}
