//! The commands a client sends over the gateway, as JSON documents: each
//! one is `{"op": <opcode>, "d": <data>}`.

use vstd::prelude::*;
use crate::gateway::json_model::{
    Json, JsonV, ObjBuilder, jdecimals, jnums, jstr, jstr_or_null, jstrs, json_decimal,
    json_decimals, json_nums, json_str, json_str_or_null, json_strs,
};
use crate::text::decimal;

verus! {

/// The members `a`.
pub open spec fn fields1(a: (Seq<char>, JsonV)) -> Seq<(Seq<char>, JsonV)> {
    Seq::empty().push(a)
}

/// The members `a`, `b`.
pub open spec fn fields2(a: (Seq<char>, JsonV), b: (Seq<char>, JsonV)) -> Seq<(Seq<char>, JsonV)> {
    fields1(a).push(b)
}

/// The members `a`, `b`, `c`.
pub open spec fn fields3(
    a: (Seq<char>, JsonV),
    b: (Seq<char>, JsonV),
    c: (Seq<char>, JsonV),
) -> Seq<(Seq<char>, JsonV)> {
    fields2(a, b).push(c)
}

/// The members `a`, `b`, `c`, `d`.
pub open spec fn fields4(
    a: (Seq<char>, JsonV),
    b: (Seq<char>, JsonV),
    c: (Seq<char>, JsonV),
    d: (Seq<char>, JsonV),
) -> Seq<(Seq<char>, JsonV)> {
    fields3(a, b, c).push(d)
}

/// The members `a`, `b`, `c`, `d`, `e`.
pub open spec fn fields5(
    a: (Seq<char>, JsonV),
    b: (Seq<char>, JsonV),
    c: (Seq<char>, JsonV),
    d: (Seq<char>, JsonV),
    e: (Seq<char>, JsonV),
) -> Seq<(Seq<char>, JsonV)> {
    fields4(a, b, c, d).push(e)
}

/// The view of an optional string.
pub open spec fn opt_str(s: Option<&str>) -> Option<Seq<char>> {
    match s {
        Some(t) => Some(t@),
        None => None,
    }
}

/// A command with opcode `op` and data `d`.
pub open spec fn op_message(op: u64, d: JsonV) -> JsonV {
    JsonV::Obj(fields2(("op"@, JsonV::Num(op)), ("d"@, d)))
}

/// `fields` with `(key, value)` added when `value` is present.
pub open spec fn with_opt(
    fields: Seq<(Seq<char>, JsonV)>,
    key: Seq<char>,
    value: Option<JsonV>,
) -> Seq<(Seq<char>, JsonV)> {
    match value {
        Some(v) => fields.push((key, v)),
        None => fields,
    }
}

/// The decimal rendering of an optional id, as a string or `null`.
pub open spec fn jdecimal_or_null(id: Option<u64>) -> JsonV {
    match id {
        Some(g) => JsonV::Str(decimal(g as nat)),
        None => JsonV::Null,
    }
}

/// The command `{"op": op, "d": d}`.
pub fn message(op: u64, d: Json) -> (j: Json)
    ensures
        j.v() == op_message(op, d.v()),
{
    let mut b = ObjBuilder::new();
    b.put("op", Json::Num(op));
    b.put("d", d);
    b.build()
}

/// The decimal rendering of an optional id, as a string or `null`.
pub fn json_decimal_or_null(id: Option<u64>) -> (j: Json)
    ensures
        j.v() == jdecimal_or_null(id),
{
    match id {
        Some(g) => json_decimal(g),
        None => Json::Null,
    }
}

/// The heartbeat (op 1) with the last sequence number seen.
pub fn create_op_1(last_sequence: u32) -> (j: Json)
    ensures
        j.v() == op_message(1, JsonV::Num(last_sequence as u64)),
{
    message(1, Json::Num(last_sequence as u64))
}

/// Requests the statuses of a guild's channels (op 36).
pub fn create_op_36(guild_id: u64) -> (j: Json)
    ensures
        j.v() == op_message(36, JsonV::Obj(fields1(("guild_id"@, JsonV::Num(guild_id))))),
{
    let mut d = ObjBuilder::new();
    d.put("guild_id", Json::Num(guild_id));
    message(36, d.build())
}

/// Requests the last messages of channels of a guild (op 34).
pub fn create_op_34(guild_id: u64, channel_ids: Vec<u64>) -> (j: Json)
    ensures
        j.v() == op_message(
            34,
            JsonV::Obj(
                fields2(("guild_id"@, JsonV::Num(guild_id)), ("channel_ids"@, jnums(channel_ids@))),
            ),
        ),
{
    let mut d = ObjBuilder::new();
    d.put("guild_id", Json::Num(guild_id));
    d.put("channel_ids", json_nums(&channel_ids));
    message(34, d.build())
}

/// Searches the recent members of a guild (op 35); the continuation token
/// is sent as a decimal string.
pub fn create_op_35(
    guild_id: u64,
    query: &str,
    continuation_token: Option<u64>,
    nonce: Option<&str>,
) -> (j: Json)
    ensures
        j.v() == op_message(
            35,
            JsonV::Obj(
                fields4(
                    ("guild_id"@, JsonV::Num(guild_id)),
                    ("query"@, jstr(query@)),
                    ("continuation_token"@, jdecimal_or_null(continuation_token)),
                    ("nonce"@, jstr_or_null(opt_str(nonce)))),
            ),
        ),
{
    let mut d = ObjBuilder::new();
    d.put("guild_id", Json::Num(guild_id));
    d.put("query", json_str(query));
    d.put("continuation_token", json_decimal_or_null(continuation_token));
    d.put("nonce", json_str_or_null(nonce));
    message(35, d.build())
}

/// The data of a guild members request (op 8).
pub open spec fn op_8_data(
    guild_id: u64,
    query: Option<Seq<char>>,
    limit: Option<u64>,
    presences: Option<bool>,
    user_ids: Option<Seq<u64>>,
    nonce: Option<Seq<char>>,
) -> JsonV {
    let q = match query {
        Some(q) => q,
        None => Seq::empty(),
    };
    let base = fields2(("guild_id"@, jdecimals(seq![guild_id])), ("query"@, jstr(q)));
    let with_limit = if q.len() == 0 {
        base.push(("limit"@, JsonV::Num(0)))
    } else {
        with_opt(
            base,
            "limit"@,
            match limit {
                Some(l) => Some(JsonV::Num(l)),
                None => None,
            },
        )
    };
    let with_presences = with_opt(
        with_limit,
        "presences"@,
        match presences {
            Some(p) => Some(JsonV::Bool(p)),
            None => None,
        },
    );
    let with_ids = with_opt(
        with_presences,
        "user_ids"@,
        match user_ids {
            Some(ids) => Some(jdecimals(ids)),
            None => None,
        },
    );
    JsonV::Obj(
        with_opt(
            with_ids,
            "nonce"@,
            match nonce {
                Some(n) => Some(JsonV::Str(n)),
                None => None,
            },
        ),
    )
}

/// Requests members of a guild (op 8). The guild id goes in a list of one
/// decimal string; an empty (or absent) query asks for all members with a
/// limit of 0, otherwise the limit is sent when given; user ids are sent as
/// decimal strings.
pub fn create_op_8(
    guild_id: u64,
    query: Option<&str>,
    limit: Option<u64>,
    presences: Option<bool>,
    user_ids: Option<Vec<u64>>,
    nonce: Option<&str>,
) -> (j: Json)
    ensures
        j.v() == op_message(
            8,
            op_8_data(
                guild_id,
                opt_str(query),
                limit,
                presences,
                match user_ids {
                    Some(ids) => Some(ids@),
                    None => None,
                },
                opt_str(nonce),
            ),
        ),
{
    let mut d = ObjBuilder::new();
    let mut ids: Vec<u64> = Vec::new();
    ids.push(guild_id);
    d.put("guild_id", json_decimals(&ids));
    let q: &str = match query {
        Some(q) => q,
        None => "",
    };
    proof {
        if query is None {
            reveal_strlit("");
            assert(q@ =~= Seq::<char>::empty());
        }
    }
    d.put("query", json_str(q));
    if q.unicode_len() == 0 {
        d.put("limit", Json::Num(0));
    } else {
        match limit {
            Some(l) => d.put("limit", Json::Num(l)),
            None => {},
        }
    }
    match presences {
        Some(p) => d.put("presences", Json::Bool(p)),
        None => {},
    }
    match &user_ids {
        Some(u) => d.put("user_ids", json_decimals(u)),
        None => {},
    }
    match nonce {
        Some(n) => d.put("nonce", json_str(n)),
        None => {},
    }
    proof {
        assert(ids@ =~= Seq::<u64>::empty().push(guild_id));
    }
    message(8, d.build())
}

/// Sends `payload` to another session of the account (op 29).
pub fn create_op_29(target_session_id: &str, payload: Json) -> (j: Json)
    ensures
        j.v() == op_message(
            29,
            JsonV::Obj(
                fields2(("target_session_id"@, jstr(target_session_id@)), ("payload"@, payload.v())),
            ),
        ),
{
    let ghost pv = payload.v();
    let mut d = ObjBuilder::new();
    d.put("target_session_id", json_str(target_session_id));
    d.put("payload", payload);
    message(29, d.build())
}

/// Resumes a session (op 6).
pub fn create_op_6(token: &str, session_id: &str, last_seq: u32) -> (j: Json)
    ensures
        j.v() == op_message(
            6,
            JsonV::Obj(
                fields3(
                    ("token"@, jstr(token@)),
                    ("session_id"@, jstr(session_id@)),
                    ("seq"@, JsonV::Num(last_seq as u64))),
            ),
        ),
{
    let mut d = ObjBuilder::new();
    d.put("token", json_str(token));
    d.put("session_id", json_str(session_id));
    d.put("seq", Json::Num(last_seq as u64));
    message(6, d.build())
}

/// Requests the soundboard sounds of guilds (op 31), ids as decimal strings.
pub fn create_op_31(guild_ids: Vec<u64>) -> (j: Json)
    ensures
        j.v() == op_message(31, JsonV::Obj(fields1(("guild_ids"@, jdecimals(guild_ids@))))),
{
    let mut d = ObjBuilder::new();
    d.put("guild_ids", json_decimals(&guild_ids));
    message(31, d.build())
}

/// Updates the presence (op 3); `activities` is the list as JSON and
/// `status` the status's name.
pub fn create_op_3(since: u64, activities: Json, status: &str, afk: bool) -> (j: Json)
    ensures
        j.v() == op_message(
            3,
            JsonV::Obj(
                fields4(
                    ("since"@, JsonV::Num(since)),
                    ("activities"@, activities.v()),
                    ("status"@, jstr(status@)),
                    ("afk"@, JsonV::Bool(afk))),
            ),
        ),
{
    let ghost av = activities.v();
    let mut d = ObjBuilder::new();
    d.put("since", Json::Num(since));
    d.put("activities", activities);
    d.put("status", json_str(status));
    d.put("afk", Json::Bool(afk));
    message(3, d.build())
}

/// Updates the voice state (op 4); ids as decimal strings or `null`, and
/// `self_video` only when given.
pub fn create_op_4(
    guild_id: Option<u64>,
    channel_id: Option<u64>,
    self_mute: bool,
    self_deaf: bool,
    self_video: Option<bool>,
) -> (j: Json)
    ensures
        j.v() == op_message(
            4,
            JsonV::Obj(
                with_opt(
                    fields4(
                        ("guild_id"@, jdecimal_or_null(guild_id)),
                        ("channel_id"@, jdecimal_or_null(channel_id)),
                        ("self_mute"@, JsonV::Bool(self_mute)),
                        ("self_deaf"@, JsonV::Bool(self_deaf))),
                    "self_video"@,
                    match self_video {
                        Some(v) => Some(JsonV::Bool(v)),
                        None => None,
                    },
                ),
            ),
        ),
{
    let mut d = ObjBuilder::new();
    d.put("guild_id", json_decimal_or_null(guild_id));
    d.put("channel_id", json_decimal_or_null(channel_id));
    d.put("self_mute", Json::Bool(self_mute));
    d.put("self_deaf", Json::Bool(self_deaf));
    match self_video {
        Some(v) => d.put("self_video", Json::Bool(v)),
        None => {},
    }
    message(4, d.build())
}

/// Creates a stream (op 18).
pub fn create_op_18(
    stream_type: &str,
    guild_id: Option<u64>,
    channel_id: u64,
    preferred_region: Option<&str>,
) -> (j: Json)
    ensures
        j.v() == op_message(
            18,
            JsonV::Obj(
                fields4(
                    ("type"@, jstr(stream_type@)),
                    ("guild_id"@, jdecimal_or_null(guild_id)),
                    ("channel_id"@, jstr(decimal(channel_id as nat))),
                    ("preferred_region"@, jstr_or_null(opt_str(preferred_region)))),
            ),
        ),
{
    let mut d = ObjBuilder::new();
    d.put("type", json_str(stream_type));
    d.put("guild_id", json_decimal_or_null(guild_id));
    d.put("channel_id", json_decimal(channel_id));
    d.put("preferred_region", json_str_or_null(preferred_region));
    message(18, d.build())
}

/// A command about a stream (ops 19, 20 and 21) naming its key.
pub fn create_stream_key_op(op: u8, stream_key: &str) -> (j: Json)
    ensures
        j.v() == op_message(op as u64, JsonV::Obj(fields1(("stream_key"@, jstr(stream_key@))))),
{
    let mut d = ObjBuilder::new();
    d.put("stream_key", json_str(stream_key));
    message(op as u64, d.build())
}

/// Pauses or unpauses a stream (op 22).
pub fn create_op_22(stream_key: &str, paused: bool) -> (j: Json)
    ensures
        j.v() == op_message(
            22,
            JsonV::Obj(fields2(("stream_key"@, jstr(stream_key@)), ("paused"@, JsonV::Bool(paused)))),
        ),
{
    let mut d = ObjBuilder::new();
    d.put("stream_key", json_str(stream_key));
    d.put("paused", Json::Bool(paused));
    message(22, d.build())
}

/// Updates the session of the time-spent tracker (op 41).
pub fn create_op_41(initialization_timestamp: u64, session_id: &str, client_launch_id: &str) -> (j:
    Json)
    ensures
        j.v() == op_message(
            41,
            JsonV::Obj(
                fields3(
                    ("initialization_timestamp"@, JsonV::Num(initialization_timestamp)),
                    ("session_id"@, jstr(session_id@)),
                    ("client_launch_id"@, jstr(client_launch_id@))),
            ),
        ),
{
    let mut d = ObjBuilder::new();
    d.put("initialization_timestamp", Json::Num(initialization_timestamp));
    d.put("session_id", json_str(session_id));
    d.put("client_launch_id", json_str(client_launch_id));
    message(41, d.build())
}

/// Pings the voice server (op 5), with no data.
pub fn create_op_5() -> (j: Json)
    ensures
        j.v() == op_message(5, JsonV::Null),
{
    message(5, Json::Null)
}

/// Asks to connect a call in a channel (op 13).
pub fn create_op_13(channel_id: u64) -> (j: Json)
    ensures
        j.v() == op_message(13, JsonV::Obj(fields1(("channel_id"@, jstr(decimal(channel_id as nat)))))),
{
    let mut d = ObjBuilder::new();
    d.put("channel_id", json_decimal(channel_id));
    message(13, d.build())
}

/// Creates a speed test (op 32).
pub fn create_op_32(preferred_region: Option<&str>) -> (j: Json)
    ensures
        j.v() == op_message(
            32,
            JsonV::Obj(fields1(("preferred_region"@, jstr_or_null(opt_str(preferred_region))))),
        ),
{
    let mut d = ObjBuilder::new();
    d.put("preferred_region", json_str_or_null(preferred_region));
    message(32, d.build())
}

/// Deletes the speed test (op 33), with empty data.
pub fn create_op_33() -> (j: Json)
    ensures
        j.v() == op_message(33, JsonV::Obj(Seq::empty())),
{
    let d = ObjBuilder::new();
    message(33, d.build())
}

/// Resynchronizes the channels of a guild (op 38).
pub fn create_op_38(guild_id: u64, obfuscated_channel_ids: Vec<u64>) -> (j: Json)
    ensures
        j.v() == op_message(
            38,
            JsonV::Obj(
                fields2(
                    ("guild_id"@, jstr(decimal(guild_id as nat))),
                    ("obfuscated_channel_ids"@, jdecimals(obfuscated_channel_ids@))),
            ),
        ),
{
    let mut d = ObjBuilder::new();
    d.put("guild_id", json_decimal(guild_id));
    d.put("obfuscated_channel_ids", json_decimals(&obfuscated_channel_ids));
    message(38, d.build())
}

/// Requests the member count of a channel (op 39).
pub fn create_op_39(guild_id: u64, channel_id: u64) -> (j: Json)
    ensures
        j.v() == op_message(
            39,
            JsonV::Obj(
                fields2(
                    ("guild_id"@, jstr(decimal(guild_id as nat))),
                    ("channel_id"@, jstr(decimal(channel_id as nat)))),
            ),
        ),
{
    let mut d = ObjBuilder::new();
    d.put("guild_id", json_decimal(guild_id));
    d.put("channel_id", json_decimal(channel_id));
    message(39, d.build())
}

/// Sends a quality-of-service heartbeat (op 40).
pub fn create_op_40(seq: Option<u32>, qos: Json, ver: u32, active: bool, reasons: Vec<String>) -> (j:
    Json)
    ensures
        j.v() == op_message(
            40,
            JsonV::Obj(
                fields5(
                    ("seq"@, match seq {
                        Some(s) => JsonV::Num(s as u64),
                        None => JsonV::Null,
                    }),
                    ("qos"@, qos.v()),
                    ("ver"@, JsonV::Num(ver as u64)),
                    ("active"@, JsonV::Bool(active)),
                    ("reasons"@, jstrs(reasons@.map_values(|s: String| s@)))),
            ),
        ),
{
    let ghost qv = qos.v();
    let mut d = ObjBuilder::new();
    let s = match seq {
        Some(s) => Json::Num(s as u64),
        None => Json::Null,
    };
    d.put("seq", s);
    d.put("qos", qos);
    d.put("ver", Json::Num(ver as u64));
    d.put("active", Json::Bool(active));
    d.put("reasons", json_strs(&reasons));
    message(40, d.build())
}

/// Updates the voice state in a lobby (op 17); `self_video` and the region
/// only when given.
pub fn create_op_17(
    lobby_id: u64,
    self_mute: bool,
    self_deaf: bool,
    self_video: Option<bool>,
    preferred_region: Option<&str>,
) -> (j: Json)
    ensures
        j.v() == op_message(
            17,
            JsonV::Obj(
                with_opt(
                    with_opt(
                        fields3(
                            ("lobby_id"@, jstr(decimal(lobby_id as nat))),
                            ("self_mute"@, JsonV::Bool(self_mute)),
                            ("self_deaf"@, JsonV::Bool(self_deaf))),
                        "self_video"@,
                        match self_video {
                            Some(v) => Some(JsonV::Bool(v)),
                            None => None,
                        },
                    ),
                    "preferred_region"@,
                    match preferred_region {
                        Some(r) => Some(jstr(r@)),
                        None => None,
                    },
                ),
            ),
        ),
{
    let mut d = ObjBuilder::new();
    d.put("lobby_id", json_decimal(lobby_id));
    d.put("self_mute", Json::Bool(self_mute));
    d.put("self_deaf", Json::Bool(self_deaf));
    match self_video {
        Some(v) => d.put("self_video", Json::Bool(v)),
        None => {},
    }
    match preferred_region {
        Some(r) => d.put("preferred_region", json_str(r)),
        None => {},
    }
    message(17, d.build())
}

/// Pings the voice server of a lobby (op 42).
pub fn create_op_42(lobby_id: u64) -> (j: Json)
    ensures
        j.v() == op_message(42, JsonV::Obj(fields1(("lobby_id"@, jstr(decimal(lobby_id as nat)))))),
{
    let mut d = ObjBuilder::new();
    d.put("lobby_id", json_decimal(lobby_id));
    message(42, d.build())
}

/// Requests the unread state of forum threads (op 28) with `payload` as data.
pub fn create_op_28(payload: Json) -> (j: Json)
    ensures
        j.v() == op_message(28, payload.v()),
{
    message(28, payload)
}

/// Asks for the ids deleted since the given hashes (op 30); each hash only
/// when given.
pub fn create_op_30(
    guild_id: u64,
    channel_ids_hash: Option<&str>,
    role_ids_hash: Option<&str>,
    emoji_ids_hash: Option<&str>,
    sticker_ids_hash: Option<&str>,
) -> (j: Json)
    ensures
        j.v() == op_message(
            30,
            JsonV::Obj(
                with_opt(
                    with_opt(
                        with_opt(
                            with_opt(
                                fields1(("guild_id"@, jstr(decimal(guild_id as nat)))),
                                "channel_ids_hash"@,
                                match opt_str(channel_ids_hash) {
                                    Some(h) => Some(jstr(h)),
                                    None => None,
                                },
                            ),
                            "role_ids_hash"@,
                            match opt_str(role_ids_hash) {
                                Some(h) => Some(jstr(h)),
                                None => None,
                            },
                        ),
                        "emoji_ids_hash"@,
                        match opt_str(emoji_ids_hash) {
                            Some(h) => Some(jstr(h)),
                            None => None,
                        },
                    ),
                    "sticker_ids_hash"@,
                    match opt_str(sticker_ids_hash) {
                        Some(h) => Some(jstr(h)),
                        None => None,
                    },
                ),
            ),
        ),
{
    let mut d = ObjBuilder::new();
    d.put("guild_id", json_decimal(guild_id));
    match channel_ids_hash {
        Some(h) => d.put("channel_ids_hash", json_str(h)),
        None => {},
    }
    match role_ids_hash {
        Some(h) => d.put("role_ids_hash", json_str(h)),
        None => {},
    }
    match emoji_ids_hash {
        Some(h) => d.put("emoji_ids_hash", json_str(h)),
        None => {},
    }
    match sticker_ids_hash {
        Some(h) => d.put("sticker_ids_hash", json_str(h)),
        None => {},
    }
    message(30, d.build())
}

/// Requests fields of the channels of a guild (op 43).
pub fn create_op_43(guild_id: u64, fields: Vec<String>) -> (j: Json)
    ensures
        j.v() == op_message(
            43,
            JsonV::Obj(
                fields2(
                    ("guild_id"@, jstr(decimal(guild_id as nat))),
                    ("fields"@, jstrs(fields@.map_values(|s: String| s@)))),
            ),
        ),
{
    let mut d = ObjBuilder::new();
    d.put("guild_id", json_decimal(guild_id));
    d.put("fields", json_strs(&fields));
    message(43, d.build())
}

} // verus!
