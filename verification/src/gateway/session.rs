//! The decisions of a gateway connection: reading the hello, identifying,
//! scheduling heartbeats, what each received frame and event leads to,
//! resuming a session, and pacing member-list commands.
//!
//! Times of the heartbeat are milliseconds; other times are nanoseconds on
//! a monotonic clock chosen by the caller.

use vstd::prelude::*;
use vstd::string::StringExecFns;
use crate::gateway::commands::{create_op_1, create_op_3, create_op_6, op_message, fields3, fields4};
use crate::gateway::json_model::{Json, JsonV, jstr};
use crate::json::{json_error_message, json_parse_error, json_u64_at2, json_u64_field2, json_valid};
use crate::json::opt_str_view;
use crate::parser::{parse_id_from_token, token_user_id};
use crate::text::{append_decimal, append_str, copy_str, decimal};

verus! {

/// The heartbeat interval, in milliseconds, when the hello names none.
pub const DEFAULT_HEARTBEAT_INTERVAL: u64 = 30_000;

/// The shortest delay between heartbeats, in milliseconds.
pub const MIN_HEARTBEAT_DELAY: u64 = 1_000;

/// How much earlier than the interval the steady heartbeat is sent.
pub const HEARTBEAT_MARGIN: u64 = 2_000;

/// The shortest gap between two member-list commands, in nanoseconds.
pub const MEMBER_LIST_INTERVAL_NANOS: u64 = 650_000_000;

/// The most user ids one guild members request may name.
pub const MAX_REQUESTED_USER_IDS: usize = 100;

/// The first frame after connecting, as far as the hello matters.
#[derive(Clone, Copy, Debug, PartialEq, Eq, Structural)]
pub enum HelloFrame {
    /// The stream ended before any frame.
    Missing,
    /// A frame that is not binary.
    NotBinary,
    /// A binary frame the decompressor needs more data for.
    Incomplete,
    /// A binary frame the decompressor refused.
    Broken,
    /// A binary frame that decompressed to the payload.
    Decompressed,
}

/// The heartbeat interval that the hello gives, or the error that ends the
/// connection attempt.
pub open spec fn hello_spec(frame: HelloFrame, payload: Seq<u8>) -> Result<u64, Seq<char>> {
    match frame {
        HelloFrame::Missing => Ok(DEFAULT_HEARTBEAT_INTERVAL),
        HelloFrame::NotBinary => Ok(DEFAULT_HEARTBEAT_INTERVAL),
        HelloFrame::Incomplete => Err("Need more data"@),
        HelloFrame::Broken => Err("Broken frame"@),
        HelloFrame::Decompressed => if !json_valid(payload) {
            Err("Failed to parse hello payload: "@ + json_error_message(payload))
        } else {
            match json_u64_at2(payload, "d"@, "heartbeat_interval"@) {
                Some(i) => Ok(i),
                None => Err("No heartbeat interval"@),
            }
        },
    }
}

/// The hello's outcome from what was read of a decompressed payload: its
/// parse error, if any, and its `d.heartbeat_interval`.
pub fn hello_interval_from(parse_error: Option<String>, interval: Option<u64>) -> (r: Result<
    u64,
    String,
>)
    ensures
        match parse_error {
            Some(e) => r matches Err(m) && m@ == "Failed to parse hello payload: "@ + e@,
            None => match interval {
                Some(i) => r == Ok::<u64, String>(i),
                None => r matches Err(m) && m@ == "No heartbeat interval"@,
            },
        },
{
    match parse_error {
        Some(e) => {
            let mut m = copy_str("Failed to parse hello payload: ");
            append_str(&mut m, e.as_str());
            Err(m)
        },
        None => match interval {
            Some(i) => Ok(i),
            None => Err(String::from_str("No heartbeat interval")),
        },
    }
}

/// Reads the heartbeat interval from the hello: `d.heartbeat_interval` of
/// the decompressed `payload`, or 30 seconds when the first frame is
/// missing or not binary.
pub fn hello_heartbeat_interval(frame: HelloFrame, payload: &[u8]) -> (r: Result<u64, String>)
    ensures
        match (r, hello_spec(frame, payload@)) {
            (Ok(a), Ok(b)) => a == b,
            (Err(a), Err(b)) => a@ == b,
            _ => false,
        },
{
    match frame {
        HelloFrame::Missing => Ok(DEFAULT_HEARTBEAT_INTERVAL),
        HelloFrame::NotBinary => Ok(DEFAULT_HEARTBEAT_INTERVAL),
        HelloFrame::Incomplete => Err(String::from_str("Need more data")),
        HelloFrame::Broken => Err(String::from_str("Broken frame")),
        HelloFrame::Decompressed => {
            let parse_error = json_parse_error(payload);
            let interval = if parse_error.is_none() {
                json_u64_field2(payload, "d", "heartbeat_interval")
            } else {
                None
            };
            hello_interval_from(parse_error, interval)
        },
    }
}

/// The identify command, text before the token.
pub open spec fn identify_head() -> Seq<char> {
    r#"{"op":2,"d":{"token":""#@
}

/// The identify command, text between the token and the capabilities.
pub open spec fn identify_capabilities() -> Seq<char> {
    r#"","capabilities":"#@
}

/// The identify command, text between the capabilities (and intents) and
/// the client build number.
pub open spec fn identify_properties() -> Seq<char> {
    r#","properties":{"os":"Windows","browser":"Chrome","device":"","system_locale":"en-US","browser_user_agent":"Mozilla/5.0 (Windows NT 10.0; Win64; x64) AppleWebKit/537.36 (KHTML, like Gecko) Chrome/149.0.0.0 Safari/537.36","browser_version":"149.0.0.0","os_version":"10","referrer":"","referring_domain":"","referrer_current":"","referring_domain_current":"","release_channel":"stable","client_build_number":"#@
}

/// The identify command, text after the client build number.
pub open spec fn identify_tail() -> Seq<char> {
    r#","client_event_source":null,"design_id":0},"presence":{"status":"unknown","since":0,"activities":[],"afk":false},"compress":false,"client_state":{"guild_versions":{}}}}"#@
}

/// The intents member of the identify command, empty when none are given.
pub open spec fn intents_member(intents: Option<u64>) -> Seq<char> {
    match intents {
        Some(i) => r#","intents":"#@ + decimal(i as nat),
        None => Seq::empty(),
    }
}

/// The identify command (op 2) as sent, with the token verbatim.
pub open spec fn identify_text(token: Seq<char>, capabilities: u32, intents: Option<u64>, build_number: u32) -> Seq<char> {
    identify_head() + token + identify_capabilities() + decimal(capabilities as nat)
        + intents_member(intents) + identify_properties() + decimal(build_number as nat)
        + identify_tail()
}

/// The identify command that opens a session.
pub fn identify_payload(token: &str, capabilities: u32, intents: Option<u64>, build_number: u32) -> (s:
    String)
    ensures
        s@ == identify_text(token@, capabilities, intents, build_number),
{
    let mut s = copy_str(r#"{"op":2,"d":{"token":""#);
    append_str(&mut s, token);
    append_str(&mut s, r#"","capabilities":"#);
    append_decimal(&mut s, capabilities as u64);
    match intents {
        Some(i) => {
            append_str(&mut s, r#","intents":"#);
            append_decimal(&mut s, i);
        },
        None => {},
    }
    append_str(
        &mut s,
        r#","properties":{"os":"Windows","browser":"Chrome","device":"","system_locale":"en-US","browser_user_agent":"Mozilla/5.0 (Windows NT 10.0; Win64; x64) AppleWebKit/537.36 (KHTML, like Gecko) Chrome/149.0.0.0 Safari/537.36","browser_version":"149.0.0.0","os_version":"10","referrer":"","referring_domain":"","referrer_current":"","referring_domain_current":"","release_channel":"stable","client_build_number":"#,
    );
    append_decimal(&mut s, build_number as u64);
    append_str(
        &mut s,
        r#","client_event_source":null,"design_id":0},"presence":{"status":"unknown","since":0,"activities":[],"afk":false},"compress":false,"client_state":{"guild_versions":{}}}}"#,
    );
    proof {
        assert(s@ =~= identify_text(token@, capabilities, intents, build_number));
    }
    s
}

/// When heartbeats are sent, in milliseconds: the first one after
/// `first_delay`, the others every `steady_delay`.
#[derive(Clone, Copy, Debug, PartialEq, Eq, Structural)]
pub struct HeartbeatSchedule {
    pub first_delay: u64,
    pub steady_delay: u64,
}

/// The steady delay: the interval less the margin, at least the minimum.
pub open spec fn steady_delay(interval: u64) -> u64 {
    let s = if interval >= HEARTBEAT_MARGIN {
        (interval - HEARTBEAT_MARGIN) as u64
    } else {
        0
    };
    if s >= MIN_HEARTBEAT_DELAY {
        s
    } else {
        MIN_HEARTBEAT_DELAY
    }
}

/// The first delay: the interval scaled by `jitter`/1000, kept between the
/// minimum and the steady delay.
pub open spec fn first_delay(interval: u64, jitter: u64) -> u64 {
    let raw = interval * jitter / 1000;
    if raw < MIN_HEARTBEAT_DELAY {
        MIN_HEARTBEAT_DELAY
    } else if raw > steady_delay(interval) {
        steady_delay(interval)
    } else {
        raw as u64
    }
}

/// The heartbeat schedule for `interval` milliseconds; `jitter` (below
/// 1000) spreads the first heartbeat over the interval.
pub fn heartbeat_schedule(interval: u64, jitter: u64) -> (h: HeartbeatSchedule)
    requires
        jitter < 1000,
        interval * jitter <= u64::MAX,
    ensures
        h.steady_delay == steady_delay(interval),
        h.first_delay == first_delay(interval, jitter),
{
    let steady = {
        let s = interval.saturating_sub(HEARTBEAT_MARGIN);
        if s >= MIN_HEARTBEAT_DELAY {
            s
        } else {
            MIN_HEARTBEAT_DELAY
        }
    };
    let raw = interval * jitter / 1000;
    let first = if raw < MIN_HEARTBEAT_DELAY {
        MIN_HEARTBEAT_DELAY
    } else if raw > steady {
        steady
    } else {
        raw
    };
    HeartbeatSchedule { first_delay: first, steady_delay: steady }
}

/// Heartbeats are never closer than a second apart, and the steady ones are
/// sent before the interval runs out whenever it is at least three seconds.
pub proof fn law_heartbeat_schedule_bounds(interval: u64, jitter: u64)
    requires
        jitter < 1000,
        interval * jitter <= u64::MAX,
    ensures
        MIN_HEARTBEAT_DELAY <= first_delay(interval, jitter) <= steady_delay(interval),
        MIN_HEARTBEAT_DELAY <= steady_delay(interval),
        interval >= MIN_HEARTBEAT_DELAY + HEARTBEAT_MARGIN ==> steady_delay(interval) <= interval
            - HEARTBEAT_MARGIN,
{
}

/// What the heartbeat task does when its delay runs out.
#[derive(Clone, Copy, Debug, PartialEq, Eq, Structural)]
pub enum HeartbeatTick {
    /// The last heartbeat was acknowledged: send the next one.
    Beat,
    /// The last heartbeat went unacknowledged: close the connection.
    Close,
}

/// The tick, and the acknowledgement flag after it (always cleared).
pub open spec fn tick_spec(acknowledged: bool) -> (HeartbeatTick, bool) {
    (if acknowledged { HeartbeatTick::Beat } else { HeartbeatTick::Close }, false)
}

/// Decides a heartbeat tick from whether the previous heartbeat was
/// acknowledged; the caller clears the flag.
pub fn heartbeat_tick(acknowledged: bool) -> (t: HeartbeatTick)
    ensures
        t == tick_spec(acknowledged).0,
{
    if acknowledged {
        HeartbeatTick::Beat
    } else {
        HeartbeatTick::Close
    }
}

/// A heartbeat that is not acknowledged before the next tick closes the
/// connection at that tick.
pub proof fn law_missed_ack_closes(acknowledged: bool)
    ensures
        tick_spec(tick_spec(acknowledged).1).0 == HeartbeatTick::Close,
{
}

/// When the next member-list command may be sent: 650 ms after the last.
pub open spec fn member_list_wake_spec(last: Option<u64>) -> Option<u64> {
    match last {
        Some(t) => Some((t + MEMBER_LIST_INTERVAL_NANOS) as u64),
        None => None,
    }
}

/// The instant to sleep until before a member-list command, if any; the
/// caller then records the instant of sending.
pub fn member_list_wake(last: Option<u64>) -> (w: Option<u64>)
    requires
        last matches Some(t) ==> t + MEMBER_LIST_INTERVAL_NANOS <= u64::MAX,
    ensures
        w == member_list_wake_spec(last),
{
    match last {
        Some(t) => Some(t + MEMBER_LIST_INTERVAL_NANOS),
        None => None,
    }
}

/// Member-list commands sent after waiting are at least 650 ms apart.
pub proof fn law_member_list_commands_apart(last: u64, sent: u64)
    requires
        last + MEMBER_LIST_INTERVAL_NANOS <= u64::MAX,
        member_list_wake_spec(Some(last)) matches Some(w) && sent >= w,
    ensures
        sent - last >= MEMBER_LIST_INTERVAL_NANOS,
{
}

/// Refuses a guild members request naming more than 100 user ids.
pub fn check_requested_user_ids(user_ids: &Option<Vec<u64>>) -> (r: Result<(), String>)
    ensures
        r is Err <==> (user_ids matches Some(ids) && ids@.len() > MAX_REQUESTED_USER_IDS),
        r matches Err(m) ==> m@ == "User IDs can't be more than 100"@,
{
    match user_ids {
        Some(ids) => if ids.len() > MAX_REQUESTED_USER_IDS {
            Err(String::from_str("User IDs can't be more than 100"))
        } else {
            Ok(())
        },
        None => Ok(()),
    }
}

/// Where a decoded payload goes, by its opcode.
#[derive(Clone, Copy, Debug, PartialEq, Eq, Structural)]
pub enum PayloadRoute {
    /// Opcode 0 with an event name: a dispatched event.
    Dispatch,
    /// Opcode 0 without an event name: an error.
    MissingType,
    /// Opcode 7: the gateway asks to reconnect.
    Reconnect,
    /// Opcode 9: the session was invalidated.
    InvalidSession,
    /// Opcode 11: a heartbeat was acknowledged.
    HeartbeatAck,
    /// Any other opcode: an unknown event.
    UnknownOp,
}

/// Where a payload with opcode `op` goes; `has_type` says whether it names
/// an event.
pub open spec fn route_spec(op: u64, has_type: bool) -> PayloadRoute {
    if op == 0 {
        if has_type {
            PayloadRoute::Dispatch
        } else {
            PayloadRoute::MissingType
        }
    } else if op == 7 {
        PayloadRoute::Reconnect
    } else if op == 9 {
        PayloadRoute::InvalidSession
    } else if op == 11 {
        PayloadRoute::HeartbeatAck
    } else {
        PayloadRoute::UnknownOp
    }
}

/// Routes a payload by its opcode.
pub fn route_payload(op: u64, has_type: bool) -> (r: PayloadRoute)
    ensures
        r == route_spec(op, has_type),
{
    if op == 0 {
        if has_type {
            PayloadRoute::Dispatch
        } else {
            PayloadRoute::MissingType
        }
    } else if op == 7 {
        PayloadRoute::Reconnect
    } else if op == 9 {
        PayloadRoute::InvalidSession
    } else if op == 11 {
        PayloadRoute::HeartbeatAck
    } else {
        PayloadRoute::UnknownOp
    }
}

/// The error for a dispatched payload without an event name.
pub fn missing_type_message() -> (s: String)
    ensures
        s@ == "Dispatch event missing 't' field"@,
{
    String::from_str("Dispatch event missing 't' field")
}

/// The name of an unknown event of a known opcode whose data did not parse.
pub fn unknown_non_dispatch_name() -> (s: String)
    ensures
        s@ == "UNKNOWN_NON_DISPATCH"@,
{
    String::from_str("UNKNOWN_NON_DISPATCH")
}

/// The name of an event of an unknown opcode.
pub fn unknown_op_name() -> (s: String)
    ensures
        s@ == "UNKNOWN_OP"@,
{
    String::from_str("UNKNOWN_OP")
}

/// A frame received from the gateway, as far as the reading loop needs it.
#[derive(Clone, Copy, Debug, PartialEq, Eq, Structural)]
pub enum Frame {
    /// The stream ended.
    StreamEnded,
    /// A text frame: a payload to deliver as it is.
    Text,
    /// A binary frame the decompressor needs more data for.
    BinaryIncomplete,
    /// A binary frame the decompressor refused.
    BinaryBroken,
    /// A binary frame that decompressed to a payload.
    BinaryPayload,
    /// A close frame.
    Close,
    /// Any other frame (ping, pong).
    Other,
}

/// What the reading loop does with a frame.
#[derive(Debug, PartialEq, Eq)]
pub enum FrameStep {
    /// Read the next frame.
    Continue,
    /// Resume the session if possible, else reconnect; then read on.
    ResumeOrReconnect,
    /// Reset the decompressor, reconnect, and read on.
    ResetAndReconnect,
    /// Reset the decompressor and fail with this message.
    ResetAndFail(String),
    /// Parse the text payload and return its event.
    DeliverText,
    /// Parse the binary payload, apply its sequence and event, return it.
    DeliverBinary,
    /// Close the connection and fail, naming the close frame.
    CloseAndFail,
    /// Fail with this message.
    Fail(String),
}

/// The plain view of a session.
pub struct SessionView {
    pub user_id: u64,
    pub session_id: Option<Seq<char>>,
    pub analytics_token: Option<Seq<char>>,
    pub auth_session_id_hash: Option<Seq<char>>,
    pub resume_gateway_url: Option<Seq<char>>,
    pub last_sequence: u32,
    pub automatic_reconnect: bool,
    pub status: Seq<char>,
    pub idling_millis: u64,
    pub afk: bool,
}

/// What the session learns from an event.
pub enum EventSignal {
    /// The session is ready.
    Ready {
        session_id: String,
        analytics_token: String,
        auth_session_id_hash: String,
        resume_gateway_url: String,
    },
    /// A heartbeat was acknowledged.
    HeartbeatAck,
    /// The authenticated session changed.
    AuthSessionChange { auth_session_id_hash: String },
    /// The session was invalidated; it may be resumable.
    InvalidSession { resumable: bool },
    /// The gateway asks to reconnect.
    Reconnect,
    /// Any other event.
    Other,
}

/// What follows an event, before it is returned.
#[derive(Clone, Copy, Debug, PartialEq, Eq, Structural)]
pub enum FollowUp {
    Nothing,
    Resume,
    Reconnect,
    ResumeOrReconnect,
}

/// The effects of a binary event on the connection.
#[derive(Clone, Copy, Debug, PartialEq, Eq, Structural)]
pub struct DispatchEffects {
    /// Whether the heartbeat counts as acknowledged.
    pub acknowledge: bool,
    /// What to do before returning the event.
    pub follow_up: FollowUp,
}

/// The state a gateway connection keeps about its session and presence.
pub struct GatewaySession {
    /// The user id the token names.
    pub user_id: u64,
    pub session_id: Option<String>,
    pub analytics_token: Option<String>,
    pub auth_session_id_hash: Option<String>,
    pub resume_gateway_url: Option<String>,
    /// The sequence number of the last payload that carried one.
    pub last_sequence: u32,
    pub automatic_reconnect: bool,
    /// The name of the presence's status.
    pub status: String,
    /// Since when the user is idle, in milliseconds (0: not idle).
    pub idling_millis: u64,
    pub afk: bool,
}

/// The plain view of a frame step.
pub enum FrameStepV {
    Continue,
    ResumeOrReconnect,
    ResetAndReconnect,
    ResetAndFail(Seq<char>),
    DeliverText,
    DeliverBinary,
    CloseAndFail,
    Fail(Seq<char>),
}

impl FrameStep {
    /// The plain view of this step.
    pub open spec fn v(&self) -> FrameStepV {
        match self {
            FrameStep::Continue => FrameStepV::Continue,
            FrameStep::ResumeOrReconnect => FrameStepV::ResumeOrReconnect,
            FrameStep::ResetAndReconnect => FrameStepV::ResetAndReconnect,
            FrameStep::ResetAndFail(m) => FrameStepV::ResetAndFail(m@),
            FrameStep::DeliverText => FrameStepV::DeliverText,
            FrameStep::DeliverBinary => FrameStepV::DeliverBinary,
            FrameStep::CloseAndFail => FrameStepV::CloseAndFail,
            FrameStep::Fail(m) => FrameStepV::Fail(m@),
        }
    }
}

/// What the reading loop does with `frame`.
pub open spec fn frame_spec(automatic_reconnect: bool, frame: Frame) -> FrameStepV {
    match frame {
        Frame::StreamEnded => if automatic_reconnect {
            FrameStepV::ResumeOrReconnect
        } else {
            FrameStepV::Fail("Connection closed"@)
        },
        Frame::Text => FrameStepV::DeliverText,
        Frame::BinaryIncomplete => FrameStepV::Continue,
        Frame::BinaryBroken => if automatic_reconnect {
            FrameStepV::ResetAndReconnect
        } else {
            FrameStepV::ResetAndFail("Broken frame"@)
        },
        Frame::BinaryPayload => FrameStepV::DeliverBinary,
        Frame::Close => if automatic_reconnect {
            FrameStepV::ResumeOrReconnect
        } else {
            FrameStepV::CloseAndFail
        },
        Frame::Other => FrameStepV::Continue,
    }
}

/// The session and the effects after a binary event.
pub open spec fn dispatch_spec(s: SessionView, signal: EventSignal) -> (SessionView, DispatchEffects) {
    match signal {
        EventSignal::Ready {
            session_id,
            analytics_token,
            auth_session_id_hash,
            resume_gateway_url,
        } => (
            SessionView {
                session_id: Some(session_id@),
                analytics_token: Some(analytics_token@),
                auth_session_id_hash: Some(auth_session_id_hash@),
                resume_gateway_url: Some(resume_gateway_url@),
                ..s
            },
            DispatchEffects { acknowledge: true, follow_up: FollowUp::Nothing },
        ),
        EventSignal::HeartbeatAck => (
            s,
            DispatchEffects { acknowledge: true, follow_up: FollowUp::Nothing },
        ),
        EventSignal::AuthSessionChange { auth_session_id_hash } => (
            SessionView { auth_session_id_hash: Some(auth_session_id_hash@), ..s },
            DispatchEffects { acknowledge: false, follow_up: FollowUp::Nothing },
        ),
        EventSignal::InvalidSession { resumable } => (
            s,
            DispatchEffects {
                acknowledge: false,
                follow_up: if !s.automatic_reconnect {
                    FollowUp::Nothing
                } else if resumable {
                    FollowUp::Resume
                } else {
                    FollowUp::Reconnect
                },
            },
        ),
        EventSignal::Reconnect => (
            s,
            DispatchEffects {
                acknowledge: false,
                follow_up: if s.automatic_reconnect {
                    FollowUp::ResumeOrReconnect
                } else {
                    FollowUp::Nothing
                },
            },
        ),
        EventSignal::Other => (s, DispatchEffects { acknowledge: false, follow_up: FollowUp::Nothing }),
    }
}

/// A fresh connection's session for user `user_id`.
pub open spec fn fresh_session(user_id: u64, automatic_reconnect: bool) -> SessionView {
    SessionView {
        user_id,
        session_id: None,
        analytics_token: None,
        auth_session_id_hash: None,
        resume_gateway_url: None,
        last_sequence: 0,
        automatic_reconnect,
        status: "unknown"@,
        idling_millis: 0,
        afk: false,
    }
}

/// The session after reconnecting: fresh, for the same user, with the same
/// automatic reconnect and presence.
pub open spec fn renewed_spec(s: SessionView) -> SessionView {
    SessionView {
        status: s.status,
        idling_millis: s.idling_millis,
        afk: s.afk,
        ..fresh_session(s.user_id, s.automatic_reconnect)
    }
}

/// The session after a payload with sequence number `sequence`, if any.
pub open spec fn with_sequence(s: SessionView, sequence: Option<u32>) -> SessionView {
    match sequence {
        Some(n) => SessionView { last_sequence: n, ..s },
        None => s,
    }
}

/// The heartbeat a session sends.
pub open spec fn heartbeat_v(s: SessionView) -> JsonV {
    op_message(1, JsonV::Num(s.last_sequence as u64))
}

/// The resume command of a session with `token`; none without a session id.
pub open spec fn resume_v(s: SessionView, token: Seq<char>) -> Option<JsonV> {
    match s.session_id {
        Some(id) => Some(
            op_message(
                6,
                JsonV::Obj(
                    fields3(
                        ("token"@, jstr(token)),
                        ("session_id"@, jstr(id)),
                        ("seq"@, JsonV::Num(s.last_sequence as u64)),
                    ),
                ),
            ),
        ),
        None => None,
    }
}

/// The presence update of a session, with `activities`.
pub open spec fn presence_v(s: SessionView, activities: JsonV) -> JsonV {
    op_message(
        3,
        JsonV::Obj(
            fields4(
                ("since"@, JsonV::Num(s.idling_millis)),
                ("activities"@, activities),
                ("status"@, jstr(s.status)),
                ("afk"@, JsonV::Bool(s.afk)),
            ),
        ),
    )
}

/// Whether a session can be resumed rather than reconnected.
pub open spec fn resumable_spec(s: SessionView) -> bool {
    s.session_id is Some && s.resume_gateway_url is Some
}

/// The query that every gateway URL carries.
pub open spec fn gateway_query() -> Seq<char> {
    "?encoding=json&v=9&compress=zlib-stream"@
}

impl GatewaySession {
    /// The plain view of the session.
    pub open spec fn view(&self) -> SessionView {
        SessionView {
            user_id: self.user_id,
            session_id: opt_str_view(self.session_id),
            analytics_token: opt_str_view(self.analytics_token),
            auth_session_id_hash: opt_str_view(self.auth_session_id_hash),
            resume_gateway_url: opt_str_view(self.resume_gateway_url),
            last_sequence: self.last_sequence,
            automatic_reconnect: self.automatic_reconnect,
            status: self.status@,
            idling_millis: self.idling_millis,
            afk: self.afk,
        }
    }

    /// The state of a fresh connection for user `user_id`, before its ready
    /// event: no session, sequence 0, status `unknown`, not idle, not away.
    pub fn new(user_id: u64, automatic_reconnect: bool) -> (s: GatewaySession)
        ensures
            s.view() == fresh_session(user_id, automatic_reconnect),
    {
        GatewaySession {
            user_id,
            session_id: None,
            analytics_token: None,
            auth_session_id_hash: None,
            resume_gateway_url: None,
            last_sequence: 0,
            automatic_reconnect,
            status: String::from_str("unknown"),
            idling_millis: 0,
            afk: false,
        }
    }

    /// The state of a fresh connection with `token`: refused with
    /// `Invalid token` before anything is sent when the token names no user
    /// id.
    pub fn for_token(token: &str, automatic_reconnect: bool) -> (r: Result<GatewaySession, String>)
        ensures
            match token_user_id(token@) {
                Some(id) => r matches Ok(s) && s.view() == fresh_session(id, automatic_reconnect),
                None => r matches Err(m) && m@ == "Invalid token"@,
            },
    {
        match parse_id_from_token(token) {
            Some(id) => Ok(GatewaySession::new(id, automatic_reconnect)),
            None => Err(String::from_str("Invalid token")),
        }
    }

    /// The state after reconnecting: a fresh connection for the same user,
    /// keeping the automatic reconnect and the presence.
    pub fn renewed(&self) -> (s: GatewaySession)
        ensures
            s.view() == renewed_spec(self.view()),
    {
        GatewaySession {
            user_id: self.user_id,
            session_id: None,
            analytics_token: None,
            auth_session_id_hash: None,
            resume_gateway_url: None,
            last_sequence: 0,
            automatic_reconnect: self.automatic_reconnect,
            status: copy_str(self.status.as_str()),
            idling_millis: self.idling_millis,
            afk: self.afk,
        }
    }

    /// Records the sequence number of a received payload, when it has one.
    pub fn record_sequence(&mut self, sequence: Option<u32>)
        ensures
            final(self).view() == with_sequence(old(self).view(), sequence),
    {
        match sequence {
            Some(n) => {
                self.last_sequence = n;
            },
            None => {},
        }
    }

    /// The heartbeat (op 1), carrying the last sequence number received.
    pub fn heartbeat_command(&self) -> (j: Json)
        ensures
            j.v() == heartbeat_v(self.view()),
    {
        create_op_1(self.last_sequence)
    }

    /// The presence update (op 3) of this session's presence, with the
    /// activities given as JSON.
    pub fn presence_command(&self, activities: Json) -> (j: Json)
        ensures
            j.v() == presence_v(self.view(), activities.v()),
    {
        create_op_3(self.idling_millis, activities, self.status.as_str(), self.afk)
    }

    /// What the reading loop does with `frame`: with automatic reconnect a
    /// closed stream, a close frame or a broken frame leads to resuming or
    /// reconnecting; without it, to an error.
    pub fn on_frame(&self, frame: Frame) -> (step: FrameStep)
        ensures
            step.v() == frame_spec(self.automatic_reconnect, frame),
    {
        match frame {
            Frame::StreamEnded => if self.automatic_reconnect {
                FrameStep::ResumeOrReconnect
            } else {
                FrameStep::Fail(String::from_str("Connection closed"))
            },
            Frame::Text => FrameStep::DeliverText,
            Frame::BinaryIncomplete => FrameStep::Continue,
            Frame::BinaryBroken => if self.automatic_reconnect {
                FrameStep::ResetAndReconnect
            } else {
                FrameStep::ResetAndFail(String::from_str("Broken frame"))
            },
            Frame::BinaryPayload => FrameStep::DeliverBinary,
            Frame::Close => if self.automatic_reconnect {
                FrameStep::ResumeOrReconnect
            } else {
                FrameStep::CloseAndFail
            },
            Frame::Other => FrameStep::Continue,
        }
    }

    /// Applies an event received in a binary frame: a ready event records
    /// the session and acknowledges the heartbeat, a heartbeat ack
    /// acknowledges it, a session change records the new hash; with
    /// automatic reconnect an invalidated session is resumed or reconnected
    /// and a reconnect request resumes or reconnects.
    pub fn on_dispatch(&mut self, signal: EventSignal) -> (e: DispatchEffects)
        ensures
            (final(self).view(), e) == dispatch_spec(old(self).view(), signal),
    {
        match signal {
            EventSignal::Ready {
                session_id,
                analytics_token,
                auth_session_id_hash,
                resume_gateway_url,
            } => {
                self.session_id = Some(session_id);
                self.analytics_token = Some(analytics_token);
                self.auth_session_id_hash = Some(auth_session_id_hash);
                self.resume_gateway_url = Some(resume_gateway_url);
                DispatchEffects { acknowledge: true, follow_up: FollowUp::Nothing }
            },
            EventSignal::HeartbeatAck => DispatchEffects {
                acknowledge: true,
                follow_up: FollowUp::Nothing,
            },
            EventSignal::AuthSessionChange { auth_session_id_hash } => {
                self.auth_session_id_hash = Some(auth_session_id_hash);
                DispatchEffects { acknowledge: false, follow_up: FollowUp::Nothing }
            },
            EventSignal::InvalidSession { resumable } => {
                let follow_up = if !self.automatic_reconnect {
                    FollowUp::Nothing
                } else if resumable {
                    FollowUp::Resume
                } else {
                    FollowUp::Reconnect
                };
                DispatchEffects { acknowledge: false, follow_up }
            },
            EventSignal::Reconnect => {
                let follow_up = if self.automatic_reconnect {
                    FollowUp::ResumeOrReconnect
                } else {
                    FollowUp::Nothing
                };
                DispatchEffects { acknowledge: false, follow_up }
            },
            EventSignal::Other => DispatchEffects { acknowledge: false, follow_up: FollowUp::Nothing },
        }
    }

    /// Whether resuming is worth trying: a session id and a resume URL are
    /// known.
    pub fn can_resume(&self) -> (b: bool)
        ensures
            b == resumable_spec(self.view()),
    {
        self.session_id.is_some() && self.resume_gateway_url.is_some()
    }

    /// The URL to resume on. Without a resume URL the error is the default
    /// gateway's address.
    pub fn resume_url(&self) -> (r: Result<String, String>)
        ensures
            match self.resume_gateway_url {
                Some(u) => r matches Ok(url) && url@ == u@ + gateway_query(),
                None => r matches Err(m) && m@ == "wss://gateway.discord.gg/"@,
            },
    {
        match &self.resume_gateway_url {
            Some(u) => {
                let mut url = copy_str(u.as_str());
                append_str(&mut url, "?encoding=json&v=9&compress=zlib-stream");
                Ok(url)
            },
            None => Err(String::from_str("wss://gateway.discord.gg/")),
        }
    }

    /// The resume command (op 6) for the session, carrying the last
    /// sequence number received.
    pub fn resume_command(&self, token: &str) -> (r: Result<Json, String>)
        ensures
            match resume_v(self.view(), token@) {
                Some(v) => r matches Ok(j) && j.v() == v,
                None => r matches Err(m) && m@ == "No session ID"@,
            },
    {
        match &self.session_id {
            Some(id) => Ok(create_op_6(token, id.as_str(), self.last_sequence)),
            None => Err(String::from_str("No session ID")),
        }
    }
}

/// After a ready event the session can be resumed, and with automatic
/// reconnect an invalidated session is resumed exactly when it says so.
pub proof fn law_ready_enables_resume(
    s: SessionView,
    session_id: String,
    analytics_token: String,
    auth_session_id_hash: String,
    resume_gateway_url: String,
    resumable: bool,
)
    ensures
        ({
            let (after, e) = dispatch_spec(
                s,
                EventSignal::Ready {
                    session_id,
                    analytics_token,
                    auth_session_id_hash,
                    resume_gateway_url,
                },
            );
            &&& resumable_spec(after)
            &&& e.acknowledge
            &&& after.automatic_reconnect ==> dispatch_spec(
                after,
                EventSignal::InvalidSession { resumable },
            ).1.follow_up == (if resumable {
                FollowUp::Resume
            } else {
                FollowUp::Reconnect
            })
        }),
{
}

/// Heartbeats and resumes carry the sequence number of the last payload
/// that had one: a payload with a number replaces it, one without leaves it,
/// and the event the payload holds does not change it.
pub proof fn law_heartbeat_and_resume_carry_last_sequence(
    s: SessionView,
    sequence: Option<u32>,
    signal: EventSignal,
    token: Seq<char>,
)
    ensures
        ({
            let after = dispatch_spec(with_sequence(s, sequence), signal).0;
            let expected = match sequence {
                Some(n) => n,
                None => s.last_sequence,
            };
            &&& after.last_sequence == expected
            &&& heartbeat_v(after) == op_message(1, JsonV::Num(expected as u64))
            &&& (after.session_id matches Some(id) ==> resume_v(after, token) == Some(
                op_message(
                    6,
                    JsonV::Obj(
                        fields3(
                            ("token"@, jstr(token)),
                            ("session_id"@, jstr(id)),
                            ("seq"@, JsonV::Num(expected as u64)),
                        ),
                    ),
                ),
            ))
        }),
{
}

/// Reconnecting keeps the user and the presence and starts the session
/// over: no session to resume, sequence 0.
pub proof fn law_reconnect_keeps_presence(s: SessionView)
    ensures
        renewed_spec(s).user_id == s.user_id,
        renewed_spec(s).status == s.status,
        renewed_spec(s).idling_millis == s.idling_millis,
        renewed_spec(s).afk == s.afk,
        renewed_spec(s).automatic_reconnect == s.automatic_reconnect,
        !resumable_spec(renewed_spec(s)),
        renewed_spec(s).last_sequence == 0,
{
}

/// Opcode 0 is a dispatched event (an error without an event name), 7 a
/// reconnect request, 9 an invalidated session and 11 a heartbeat
/// acknowledgement, whether or not an event name comes with them; every
/// other opcode is unknown.
pub proof fn law_payload_routes(op: u64, has_type: bool)
    ensures
        (op == 0 && has_type) ==> route_spec(op, has_type) == PayloadRoute::Dispatch,
        (op == 0 && !has_type) ==> route_spec(op, has_type) == PayloadRoute::MissingType,
        op == 7 ==> route_spec(op, has_type) == PayloadRoute::Reconnect,
        op == 9 ==> route_spec(op, has_type) == PayloadRoute::InvalidSession,
        op == 11 ==> route_spec(op, has_type) == PayloadRoute::HeartbeatAck,
        (op != 0 && op != 7 && op != 9 && op != 11) ==> route_spec(op, has_type)
            == PayloadRoute::UnknownOp,
{
}

/// Payloads are delivered whatever the automatic reconnect: a text frame
/// is delivered as it is and a decompressed binary frame with its sequence
/// and event applied; an incomplete binary frame and a ping or pong are
/// skipped. The stream ending, a close frame and a broken frame resume or
/// reconnect with automatic reconnect and end in an error without it.
pub proof fn law_frame_steps(automatic_reconnect: bool)
    ensures
        frame_spec(automatic_reconnect, Frame::Text) == FrameStepV::DeliverText,
        frame_spec(automatic_reconnect, Frame::BinaryPayload) == FrameStepV::DeliverBinary,
        frame_spec(automatic_reconnect, Frame::BinaryIncomplete) == FrameStepV::Continue,
        frame_spec(automatic_reconnect, Frame::Other) == FrameStepV::Continue,
        frame_spec(true, Frame::StreamEnded) == FrameStepV::ResumeOrReconnect,
        frame_spec(false, Frame::StreamEnded) == FrameStepV::Fail("Connection closed"@),
        frame_spec(true, Frame::Close) == FrameStepV::ResumeOrReconnect,
        frame_spec(false, Frame::Close) == FrameStepV::CloseAndFail,
        frame_spec(true, Frame::BinaryBroken) == FrameStepV::ResetAndReconnect,
        frame_spec(false, Frame::BinaryBroken) == FrameStepV::ResetAndFail("Broken frame"@),
{
}

/// With automatic reconnect no frame ends the reading loop with an error of
/// the loop's own: the stream ending, a close frame and a broken frame all
/// lead to resuming or reconnecting.
pub proof fn law_automatic_reconnect_never_fails(frame: Frame)
    ensures
        !(frame_spec(true, frame) is Fail),
        !(frame_spec(true, frame) is ResetAndFail),
        !(frame_spec(true, frame) is CloseAndFail),
{
}

/// The hello: without a binary first frame the interval is 30 seconds; an
/// incomplete or broken frame fails; a payload gives its
/// `d.heartbeat_interval`, and fails when it does not parse or names none.
pub proof fn law_hello_outcomes(frame: HelloFrame, payload: Seq<u8>)
    ensures
        hello_spec(HelloFrame::Missing, payload) == Ok::<u64, Seq<char>>(30_000),
        hello_spec(HelloFrame::NotBinary, payload) == Ok::<u64, Seq<char>>(30_000),
        hello_spec(HelloFrame::Incomplete, payload) == Err::<u64, Seq<char>>("Need more data"@),
        hello_spec(HelloFrame::Broken, payload) == Err::<u64, Seq<char>>("Broken frame"@),
        (json_valid(payload) && json_u64_at2(payload, "d"@, "heartbeat_interval"@) is Some)
            ==> hello_spec(HelloFrame::Decompressed, payload) == Ok::<u64, Seq<char>>(
            json_u64_at2(payload, "d"@, "heartbeat_interval"@)->0,
        ),
        (json_valid(payload) && json_u64_at2(payload, "d"@, "heartbeat_interval"@) is None)
            ==> hello_spec(HelloFrame::Decompressed, payload) == Err::<u64, Seq<char>>(
            "No heartbeat interval"@,
        ),
        !json_valid(payload) ==> hello_spec(HelloFrame::Decompressed, payload) == Err::<
            u64,
            Seq<char>,
        >("Failed to parse hello payload: "@ + json_error_message(payload)),
{
}

/// The heartbeat delays in milliseconds: the steady one is the interval
/// less two seconds, but at least one second; the first one is the
/// interval scaled by `jitter`/1000, kept between one second and the steady
/// delay.
pub proof fn law_heartbeat_delays(interval: u64, jitter: u64)
    requires
        jitter < 1000,
        interval * jitter <= u64::MAX,
    ensures
        steady_delay(interval) == (if interval >= 3000 {
            interval - 2000
        } else {
            1000
        }),
        first_delay(interval, jitter) == (if interval * jitter / 1000 < 1000 {
            1000
        } else if interval * jitter / 1000 > steady_delay(interval) {
            steady_delay(interval) as int
        } else {
            interval * jitter / 1000
        }),
{
}

/// A tick sends a heartbeat when the last one was acknowledged and closes
/// the connection otherwise; either way the acknowledgement is cleared.
/// Member-list commands wait 650 ms after the last one.
pub proof fn law_tick_and_pacing(acknowledged: bool, last: u64)
    requires
        last + 650_000_000 <= u64::MAX,
    ensures
        tick_spec(true).0 == HeartbeatTick::Beat,
        tick_spec(false).0 == HeartbeatTick::Close,
        tick_spec(acknowledged).1 == false,
        member_list_wake_spec(Some(last)) == Some((last + 650_000_000) as u64),
        member_list_wake_spec(None) is None,
{
}

/// What each event does to the session: a ready event records the session
/// and acknowledges the heartbeat, a heartbeat ack only acknowledges, a
/// session change only records the new hash, and nothing else changes the
/// session. With automatic reconnect an invalidated session is resumed when
/// resumable and reconnected otherwise, and a reconnect request resumes or
/// reconnects; without it neither leads anywhere.
pub proof fn law_dispatch_effects(s: SessionView, hash: String, resumable: bool)
    ensures
        dispatch_spec(s, EventSignal::HeartbeatAck) == (s, DispatchEffects {
            acknowledge: true,
            follow_up: FollowUp::Nothing,
        }),
        dispatch_spec(s, EventSignal::Other) == (s, DispatchEffects {
            acknowledge: false,
            follow_up: FollowUp::Nothing,
        }),
        dispatch_spec(s, EventSignal::AuthSessionChange { auth_session_id_hash: hash }).0
            == (SessionView { auth_session_id_hash: Some(hash@), ..s }),
        !dispatch_spec(s, EventSignal::AuthSessionChange { auth_session_id_hash: hash }).1.acknowledge,
        dispatch_spec(s, EventSignal::InvalidSession { resumable }).0 == s,
        dispatch_spec(s, EventSignal::Reconnect).0 == s,
        s.automatic_reconnect && resumable ==> dispatch_spec(
            s,
            EventSignal::InvalidSession { resumable },
        ).1.follow_up == FollowUp::Resume,
        s.automatic_reconnect && !resumable ==> dispatch_spec(
            s,
            EventSignal::InvalidSession { resumable },
        ).1.follow_up == FollowUp::Reconnect,
        s.automatic_reconnect ==> dispatch_spec(s, EventSignal::Reconnect).1.follow_up
            == FollowUp::ResumeOrReconnect,
        !s.automatic_reconnect ==> dispatch_spec(s, EventSignal::InvalidSession { resumable }).1.follow_up
            == FollowUp::Nothing,
        !s.automatic_reconnect ==> dispatch_spec(s, EventSignal::Reconnect).1.follow_up
            == FollowUp::Nothing,
{
}

} // verus!
