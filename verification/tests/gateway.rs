use discord_client::gateway::commands::{
    create_op_28, create_op_1, create_op_18, create_op_30, create_op_35, create_op_36, create_op_4, create_op_8,
    create_stream_key_op,
};
use discord_client::gateway::json_model::Json;
use discord_client::gateway::requested::{
    GuildMemberListItem, GuildMemberListOperation, GuildMemberListUpdateEvent,
};
use discord_client::gateway::session::{
    check_requested_user_ids, heartbeat_schedule, heartbeat_tick, hello_heartbeat_interval,
    hello_interval_from, identify_payload, member_list_wake, EventSignal, FollowUp, Frame,
    FrameStep, GatewaySession, HeartbeatTick, HelloFrame,
};
use discord_client::gateway::subscription::{bulk_subscriptions, create_op_37, GuildSubscription};
use std::collections::HashMap;

fn s(x: &str) -> String {
    x.to_string()
}

fn obj(fields: Vec<(&str, Json)>) -> Json {
    Json::Obj(fields.into_iter().map(|(k, v)| (s(k), v)).collect())
}

#[test]
fn hello_interval() {
    assert_eq!(
        hello_heartbeat_interval(
            HelloFrame::Decompressed,
            br#"{"op":10,"d":{"heartbeat_interval":41250}}"#
        ),
        Ok(41250)
    );
    assert_eq!(hello_heartbeat_interval(HelloFrame::Missing, b""), Ok(30000));
    assert_eq!(hello_heartbeat_interval(HelloFrame::NotBinary, b""), Ok(30000));
    assert_eq!(
        hello_heartbeat_interval(HelloFrame::Incomplete, b""),
        Err(s("Need more data"))
    );
    assert_eq!(
        hello_heartbeat_interval(HelloFrame::Broken, b""),
        Err(s("Broken frame"))
    );
    assert_eq!(
        hello_heartbeat_interval(HelloFrame::Decompressed, br#"{"op":10,"d":{}}"#),
        Err(s("No heartbeat interval"))
    );
    let e = hello_heartbeat_interval(HelloFrame::Decompressed, b"{").unwrap_err();
    assert!(e.starts_with("Failed to parse hello payload: "));
}

#[test]
fn hello_decision() {
    assert_eq!(hello_interval_from(None, Some(45000)), Ok(45000));
    assert_eq!(hello_interval_from(None, None), Err(s("No heartbeat interval")));
    assert_eq!(
        hello_interval_from(Some(s("EOF")), Some(45000)),
        Err(s("Failed to parse hello payload: EOF"))
    );
}

#[test]
fn session_for_token() {
    let g = GatewaySession::for_token("MTIzNDU2Nzg5MDEyMzQ1Njc4.a.b", true).ok().unwrap();
    assert_eq!(g.user_id, 123456789012345678);
    assert_eq!(g.session_id, None);
    assert_eq!(g.analytics_token, None);
    assert_eq!(g.auth_session_id_hash, None);
    assert_eq!(g.resume_gateway_url, None);
    assert_eq!(g.last_sequence, 0);
    assert!(g.automatic_reconnect);
    assert_eq!(g.status, "unknown");
    assert_eq!(g.idling_millis, 0);
    assert!(!g.afk);
    assert_eq!(GatewaySession::for_token("!", true).err(), Some(s("Invalid token")));
}

#[test]
fn heartbeats_carry_the_last_sequence() {
    let mut g = GatewaySession::new(7, true);
    assert_eq!(g.heartbeat_command(), create_op_1(0));
    g.record_sequence(Some(5));
    assert_eq!(g.heartbeat_command(), create_op_1(5));
    g.record_sequence(None);
    assert_eq!(g.heartbeat_command(), create_op_1(5));
    g.on_dispatch(EventSignal::Ready {
        session_id: s("sid"),
        analytics_token: s("at"),
        auth_session_id_hash: s("h"),
        resume_gateway_url: s("wss://r"),
    });
    g.record_sequence(Some(9));
    assert_eq!(g.heartbeat_command(), create_op_1(9));
    assert_eq!(
        g.resume_command("tok"),
        Ok(obj(vec![
            ("op", Json::Num(6)),
            (
                "d",
                obj(vec![
                    ("token", Json::Str(s("tok"))),
                    ("session_id", Json::Str(s("sid"))),
                    ("seq", Json::Num(9)),
                ])
            ),
        ]))
    );
}

#[test]
fn reconnect_keeps_presence() {
    let mut g = GatewaySession::new(7, true);
    g.status = s("idle");
    g.idling_millis = 1234;
    g.afk = true;
    g.record_sequence(Some(3));
    g.on_dispatch(EventSignal::Ready {
        session_id: s("sid"),
        analytics_token: s("at"),
        auth_session_id_hash: s("h"),
        resume_gateway_url: s("wss://r"),
    });
    let r = g.renewed();
    assert_eq!(r.user_id, 7);
    assert_eq!(r.status, "idle");
    assert_eq!(r.idling_millis, 1234);
    assert!(r.afk);
    assert!(r.automatic_reconnect);
    assert_eq!(r.last_sequence, 0);
    assert!(!r.can_resume());
    assert_eq!(
        r.presence_command(Json::Arr(vec![])),
        obj(vec![
            ("op", Json::Num(3)),
            (
                "d",
                obj(vec![
                    ("since", Json::Num(1234)),
                    ("activities", Json::Arr(vec![])),
                    ("status", Json::Str(s("idle"))),
                    ("afk", Json::Bool(true)),
                ])
            ),
        ])
    );
}

#[test]
fn identify_text() {
    let p = identify_payload("tok", 16381, None, 123);
    assert!(p.starts_with(r#"{"op":2,"d":{"token":"tok","capabilities":16381,"properties":{"os":"Windows""#));
    assert!(p.contains(r#""client_build_number":123,"client_event_source":null"#));
    assert!(p.ends_with(r#""compress":false,"client_state":{"guild_versions":{}}}}"#));
    let v: serde_json::Value = serde_json::from_str(&p).unwrap();
    assert_eq!(v["d"]["capabilities"], 16381);
    let p = identify_payload("tok", 1, Some(513), 2);
    assert!(p.contains(r#""capabilities":1,"intents":513,"properties""#));
    let v: serde_json::Value = serde_json::from_str(&p).unwrap();
    assert_eq!(v["d"]["intents"], 513);
}

#[test]
fn heartbeat_timing() {
    let h = heartbeat_schedule(41250, 500);
    assert_eq!(h.steady_delay, 39250);
    assert_eq!(h.first_delay, 20625);
    let h = heartbeat_schedule(41250, 0);
    assert_eq!(h.first_delay, 1000);
    let h = heartbeat_schedule(41250, 999);
    assert_eq!(h.first_delay, 39250);
    let h = heartbeat_schedule(1500, 999);
    assert_eq!(h.steady_delay, 1000);
    assert_eq!(h.first_delay, 1000);
    // An interval above a thousandth of the largest number still schedules
    // as long as the product with the jitter fits.
    let big = u64::MAX / 999;
    let h = heartbeat_schedule(big, 999);
    assert_eq!(h.steady_delay, big - 2000);
    assert_eq!(h.first_delay, big * 999 / 1000);
    assert_eq!(heartbeat_tick(true), HeartbeatTick::Beat);
    assert_eq!(heartbeat_tick(false), HeartbeatTick::Close);
}

#[test]
fn member_list_pacing_and_limits() {
    assert_eq!(member_list_wake(None), None);
    assert_eq!(member_list_wake(Some(1_000)), Some(650_001_000));
    assert!(check_requested_user_ids(&None).is_ok());
    assert!(check_requested_user_ids(&Some(vec![1; 100])).is_ok());
    assert_eq!(
        check_requested_user_ids(&Some(vec![1; 101])),
        Err(s("User IDs can't be more than 100"))
    );
}

#[test]
fn frames_with_and_without_reconnect() {
    let auto = GatewaySession::new(1, true);
    let manual = GatewaySession::new(1, false);
    assert_eq!(auto.on_frame(Frame::StreamEnded), FrameStep::ResumeOrReconnect);
    assert_eq!(
        manual.on_frame(Frame::StreamEnded),
        FrameStep::Fail(s("Connection closed"))
    );
    assert_eq!(auto.on_frame(Frame::BinaryBroken), FrameStep::ResetAndReconnect);
    assert_eq!(
        manual.on_frame(Frame::BinaryBroken),
        FrameStep::ResetAndFail(s("Broken frame"))
    );
    assert_eq!(auto.on_frame(Frame::Close), FrameStep::ResumeOrReconnect);
    assert_eq!(manual.on_frame(Frame::Close), FrameStep::CloseAndFail);
    assert_eq!(manual.on_frame(Frame::Text), FrameStep::DeliverText);
    assert_eq!(manual.on_frame(Frame::BinaryPayload), FrameStep::DeliverBinary);
    assert_eq!(manual.on_frame(Frame::BinaryIncomplete), FrameStep::Continue);
    assert_eq!(manual.on_frame(Frame::Other), FrameStep::Continue);
}

#[test]
fn session_events_and_resume() {
    let mut g = GatewaySession::new(1, true);
    assert!(!g.can_resume());
    assert_eq!(g.resume_url(), Err(s("wss://gateway.discord.gg/")));
    assert_eq!(g.resume_command("t").err(), Some(s("No session ID")));
    let e = g.on_dispatch(EventSignal::Ready {
        session_id: s("sid"),
        analytics_token: s("at"),
        auth_session_id_hash: s("h1"),
        resume_gateway_url: s("wss://resume.example"),
    });
    assert!(e.acknowledge);
    assert_eq!(e.follow_up, FollowUp::Nothing);
    assert!(g.can_resume());
    assert_eq!(
        g.resume_url(),
        Ok(s("wss://resume.example?encoding=json&v=9&compress=zlib-stream"))
    );
    g.record_sequence(Some(42));
    assert_eq!(
        g.resume_command("tok"),
        Ok(obj(vec![
            ("op", Json::Num(6)),
            (
                "d",
                obj(vec![
                    ("token", Json::Str(s("tok"))),
                    ("session_id", Json::Str(s("sid"))),
                    ("seq", Json::Num(42)),
                ])
            ),
        ]))
    );
    let e = g.on_dispatch(EventSignal::AuthSessionChange { auth_session_id_hash: s("h2") });
    assert!(!e.acknowledge);
    assert_eq!(g.auth_session_id_hash, Some(s("h2")));
    assert!(g.on_dispatch(EventSignal::HeartbeatAck).acknowledge);
    assert_eq!(
        g.on_dispatch(EventSignal::InvalidSession { resumable: true }).follow_up,
        FollowUp::Resume
    );
    assert_eq!(
        g.on_dispatch(EventSignal::InvalidSession { resumable: false }).follow_up,
        FollowUp::Reconnect
    );
    assert_eq!(
        g.on_dispatch(EventSignal::Reconnect).follow_up,
        FollowUp::ResumeOrReconnect
    );
    let mut m = GatewaySession::new(1, false);
    assert_eq!(
        m.on_dispatch(EventSignal::InvalidSession { resumable: true }).follow_up,
        FollowUp::Nothing
    );
    assert_eq!(m.on_dispatch(EventSignal::Reconnect).follow_up, FollowUp::Nothing);
    assert_eq!(m.on_dispatch(EventSignal::Other).follow_up, FollowUp::Nothing);
}

#[test]
fn command_documents() {
    assert_eq!(
        create_op_1(7),
        obj(vec![("op", Json::Num(1)), ("d", Json::Num(7))])
    );
    assert_eq!(
        create_op_36(5),
        obj(vec![("op", Json::Num(36)), ("d", obj(vec![("guild_id", Json::Num(5))]))])
    );
    assert_eq!(
        create_stream_key_op(20, "k"),
        obj(vec![
            ("op", Json::Num(20)),
            ("d", obj(vec![("stream_key", Json::Str(s("k")))]))
        ])
    );
    assert_eq!(
        create_op_35(1, "q", Some(99), None),
        obj(vec![
            ("op", Json::Num(35)),
            (
                "d",
                obj(vec![
                    ("guild_id", Json::Num(1)),
                    ("query", Json::Str(s("q"))),
                    ("continuation_token", Json::Str(s("99"))),
                    ("nonce", Json::Null),
                ])
            ),
        ])
    );
    assert_eq!(
        create_op_4(Some(10), None, true, false, None),
        obj(vec![
            ("op", Json::Num(4)),
            (
                "d",
                obj(vec![
                    ("guild_id", Json::Str(s("10"))),
                    ("channel_id", Json::Null),
                    ("self_mute", Json::Bool(true)),
                    ("self_deaf", Json::Bool(false)),
                ])
            ),
        ])
    );
    assert_eq!(
        create_op_18("guild", None, 3, Some("us-east")),
        obj(vec![
            ("op", Json::Num(18)),
            (
                "d",
                obj(vec![
                    ("type", Json::Str(s("guild"))),
                    ("guild_id", Json::Null),
                    ("channel_id", Json::Str(s("3"))),
                    ("preferred_region", Json::Str(s("us-east"))),
                ])
            ),
        ])
    );
    assert_eq!(
        create_op_30(2, None, Some("r"), None, Some("s")),
        obj(vec![
            ("op", Json::Num(30)),
            (
                "d",
                obj(vec![
                    ("guild_id", Json::Str(s("2"))),
                    ("role_ids_hash", Json::Str(s("r"))),
                    ("sticker_ids_hash", Json::Str(s("s"))),
                ])
            ),
        ])
    );
}

#[test]
fn guild_members_request_document() {
    assert_eq!(
        create_op_8(7, None, Some(50), None, None, None),
        obj(vec![
            ("op", Json::Num(8)),
            (
                "d",
                obj(vec![
                    ("guild_id", Json::Arr(vec![Json::Str(s("7"))])),
                    ("query", Json::Str(s(""))),
                    ("limit", Json::Num(0)),
                ])
            ),
        ])
    );
    assert_eq!(
        create_op_8(7, Some("ab"), Some(50), Some(true), Some(vec![1, 2]), Some("n")),
        obj(vec![
            ("op", Json::Num(8)),
            (
                "d",
                obj(vec![
                    ("guild_id", Json::Arr(vec![Json::Str(s("7"))])),
                    ("query", Json::Str(s("ab"))),
                    ("limit", Json::Num(50)),
                    ("presences", Json::Bool(true)),
                    ("user_ids", Json::Arr(vec![Json::Str(s("1")), Json::Str(s("2"))])),
                    ("nonce", Json::Str(s("n"))),
                ])
            ),
        ])
    );
    assert_eq!(
        create_op_8(7, Some("ab"), None, None, None, None),
        obj(vec![
            ("op", Json::Num(8)),
            (
                "d",
                obj(vec![
                    ("guild_id", Json::Arr(vec![Json::Str(s("7"))])),
                    ("query", Json::Str(s("ab"))),
                ])
            ),
        ])
    );
}

#[test]
fn subscriptions() {
    let a = GuildSubscription::all_events();
    assert_eq!(a.typing, Some(true));
    assert_eq!(a.member_updates, Some(true));
    assert_eq!(a.channels, None);
    let mut ranges = HashMap::new();
    ranges.insert(9u64, vec![[0u64, 99u64]]);
    let m = GuildSubscription::member_lists(ranges.clone());
    assert_eq!(m.typing, Some(true));
    assert_eq!(m.threads, None);
    assert_eq!(m.channels, Some(ranges));
    let b = bulk_subscriptions(vec![1, 2, 2]);
    assert_eq!(b.len(), 2);
    assert_eq!(b[&1], GuildSubscription::all_events());
}

#[test]
fn synced_members_of_sync_operations() {
    let item = |m: Option<u32>| GuildMemberListItem { member: m, group: None };
    let op = |name: &str, items: Vec<GuildMemberListItem<u32>>| GuildMemberListOperation {
        op: s(name),
        range: None,
        items,
        index: None,
        item: None,
    };
    let ev = GuildMemberListUpdateEvent {
        id: s("everyone"),
        guild_id: 1,
        member_count: 3,
        online_count: 1,
        groups: vec![],
        ops: vec![
            op("SYNC", vec![item(Some(1)), item(None), item(Some(2))]),
            op("INSERT", vec![item(Some(9))]),
            op("SYNC", vec![item(Some(3))]),
        ],
    };
    let members: Vec<u32> = ev.synced_members().into_iter().copied().collect();
    assert_eq!(members, vec![1, 2, 3]);
}

#[test]
fn subscriptions_command() {
    let mut channels = HashMap::new();
    channels.insert(10u64, vec![[0u64, 99u64], [100, 199]]);
    let mut subs = HashMap::new();
    subs.insert(1u64, GuildSubscription::all_events());
    subs.insert(2u64, GuildSubscription::member_lists(channels));
    let j = create_op_37(&subs);
    let Json::Obj(top) = j else { panic!("not an object") };
    assert_eq!(top[0], (s("op"), Json::Num(37)));
    assert_eq!(top[1].0, "d");
    let Json::Obj(d) = &top[1].1 else { panic!("no data") };
    assert_eq!(d.len(), 1);
    assert_eq!(d[0].0, "subscriptions");
    let Json::Obj(members) = &d[0].1 else { panic!("no subscriptions") };
    assert_eq!(members.len(), 2);
    let one = members.iter().find(|(k, _)| k == "1").unwrap();
    assert_eq!(
        one.1,
        obj(vec![
            ("typing", Json::Bool(true)),
            ("threads", Json::Bool(true)),
            ("activities", Json::Bool(true)),
            ("member_updates", Json::Bool(true)),
        ])
    );
    let two = members.iter().find(|(k, _)| k == "2").unwrap();
    let range = |a: u64, b: u64| Json::Arr(vec![Json::Num(a), Json::Num(b)]);
    assert_eq!(
        two.1,
        obj(vec![
            ("typing", Json::Bool(true)),
            (
                "channels",
                obj(vec![("10", Json::Arr(vec![range(0, 99), range(100, 199)]))])
            ),
        ])
    );
}

#[test]
fn commands_carry_any_number() {
    let payload = obj(vec![
        ("delta", Json::Int(-5)),
        ("ratio", Json::NumberText(s("0.25"))),
    ]);
    assert_eq!(
        create_op_28(payload),
        obj(vec![
            ("op", Json::Num(28)),
            (
                "d",
                obj(vec![
                    ("delta", Json::Int(-5)),
                    ("ratio", Json::NumberText(s("0.25"))),
                ])
            ),
        ])
    );
}
