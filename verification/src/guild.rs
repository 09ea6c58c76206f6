//! The requests about a guild. Each method plans one request; those that
//! need the guild's id refuse to plan without one.

use vstd::prelude::*;
use vstd::string::StringExecFns;
use crate::gateway::json_model::{Json, JsonV, ObjBuilder, jdecimals, json_decimals};
use crate::headers::{headers_v, push_header};
use crate::properties::{Referer, RequestProperties};
use crate::request::{Method, RestRequest, body_v};
use crate::text::{append_decimal, append_str, copy_str, decimal, decimal_string};

verus! {

/// The error of a guild request without a guild id.
pub open spec fn guild_id_required() -> Seq<char> {
    "Guild ID is required"@
}

/// The properties of a request made from a guild's page.
pub open spec fn guild_props(guild_id: u64) -> RequestProperties {
    RequestProperties { referer: Some(Referer::Guild { guild_id }), context: None, solved_captcha: None }
}

/// The properties of a request made from the home page.
pub open spec fn home_props() -> RequestProperties {
    RequestProperties { referer: Some(Referer::HomePage), context: None, solved_captcha: None }
}

/// The path of a guild, followed by `suffix`.
pub open spec fn guild_path(guild_id: u64, suffix: Seq<char>) -> Seq<char> {
    "guilds/"@ + decimal(guild_id as nat) + suffix
}

/// The outcome of planning a guild request for `guild_id`: refused without
/// one, otherwise `method guilds/<id><suffix>` from the guild's page.
pub open spec fn guild_plan(
    guild_id: Option<u64>,
    r: Result<RestRequest, String>,
    method: Method,
    suffix: spec_fn(u64) -> Seq<char>,
    query: spec_fn(u64) -> Seq<(Seq<char>, Seq<char>)>,
    body: Option<JsonV>,
) -> bool {
    match guild_id {
        None => r matches Err(e) && e@ == guild_id_required(),
        Some(g) => r matches Ok(q) && q.is(
            method,
            guild_path(g, suffix(g)),
            query(g),
            body,
            guild_props(g),
        ),
    }
}

/// No query parameters.
pub open spec fn no_query() -> spec_fn(u64) -> Seq<(Seq<char>, Seq<char>)> {
    |g: u64| Seq::<(Seq<char>, Seq<char>)>::empty()
}

/// A constant suffix.
pub open spec fn suffix(s: Seq<char>) -> spec_fn(u64) -> Seq<char> {
    |g: u64| s
}

/// A suffix `<a><id><b>`.
pub open spec fn suffix_id(a: Seq<char>, id: u64, b: Seq<char>) -> spec_fn(u64) -> Seq<char> {
    |g: u64| a + decimal(id as nat) + b
}

/// `"true"` or `"false"`.
pub open spec fn bool_text(b: bool) -> Seq<char> {
    if b {
        "true"@
    } else {
        "false"@
    }
}

/// `name=<decimal of v>` when `v` is given.
pub open spec fn opt_param(
    q: Seq<(Seq<char>, Seq<char>)>,
    name: Seq<char>,
    v: Option<u64>,
) -> Seq<(Seq<char>, Seq<char>)> {
    match v {
        Some(x) => q.push((name, decimal(x as nat))),
        None => q,
    }
}

/// A channel of a guild, for the requests about it.
#[derive(Clone, Copy, Debug, PartialEq, Eq, Structural)]
pub struct ChannelScope {
    pub channel_id: Option<u64>,
    pub guild_id: u64,
}

/// The requests about one guild, or about the account's guilds.
#[derive(Clone, Copy, Debug, PartialEq, Eq, Structural)]
pub struct GuildRest {
    pub guild_id: Option<u64>,
}

/// `"true"` or `"false"`.
fn bool_string(b: bool) -> (s: String)
    ensures
        s@ == bool_text(b),
{
    if b {
        String::from_str("true")
    } else {
        String::from_str("false")
    }
}

/// The string `<a><decimal of id><b>`.
fn id_suffix(a: &str, id: u64, b: &str) -> (s: String)
    ensures
        s@ == a@ + decimal(id as nat) + b@,
{
    let mut s = copy_str(a);
    append_decimal(&mut s, id);
    append_str(&mut s, b);
    s
}

/// An object with the single member `key: value`.
fn object1(key: &str, value: Json) -> (j: Json)
    ensures
        j.v() == JsonV::Obj(Seq::empty().push((key@, value.v()))),
{
    let ghost vv = value.v();
    let mut b = ObjBuilder::new();
    b.put(key, value);
    b.build()
}

/// An object with the members `k1: v1`, `k2: v2`.
fn object2(k1: &str, v1: Json, k2: &str, v2: Json) -> (j: Json)
    ensures
        j.v() == JsonV::Obj(Seq::empty().push((k1@, v1.v())).push((k2@, v2.v()))),
{
    let ghost a = v1.v();
    let ghost c = v2.v();
    let mut b = ObjBuilder::new();
    b.put(k1, v1);
    b.put(k2, v2);
    b.build()
}

impl GuildRest {
    /// The guild's id; refused without one.
    fn gid(&self) -> (r: Result<u64, String>)
        ensures
            match self.guild_id {
                Some(g) => r matches Ok(x) && x == g,
                None => r matches Err(e) && e@ == guild_id_required(),
            },
    {
        match self.guild_id {
            Some(g) => Ok(g),
            None => Err(String::from_str("Guild ID is required")),
        }
    }

    /// Plans `method guilds/<id><suffix>` from the guild's page.
    fn request(
        &self,
        method: Method,
        suffix: &str,
        query: Vec<(String, String)>,
        body: Option<Json>,
    ) -> (r: Result<RestRequest, String>)
        ensures
            match self.guild_id {
                None => r matches Err(e) && e@ == guild_id_required(),
                Some(g) => r matches Ok(q) && q.is(
                    method,
                    guild_path(g, suffix@),
                    headers_v(query@),
                    body_v(body),
                    guild_props(g),
                ),
            },
    {
        match self.gid() {
            Err(e) => Err(e),
            Ok(g) => {
                let mut path = copy_str("guilds/");
                append_decimal(&mut path, g);
                append_str(&mut path, suffix);
                Ok(
                    RestRequest {
                        method,
                        path,
                        query,
                        body,
                        properties: RequestProperties::guild(g),
                    },
                )
            },
        }
    }

    /// The requests about one of the guild's channels; none without a
    /// guild id.
    pub fn channel(&self, id: Option<u64>) -> (c: Option<ChannelScope>)
        ensures
            match self.guild_id {
                None => c is None,
                Some(g) => c == Some(ChannelScope { channel_id: id, guild_id: g }),
            },
    {
        match self.guild_id {
            None => None,
            Some(g) => Some(ChannelScope { channel_id: id, guild_id: g }),
        }
    }

    /// Deletes the guild.
    pub fn delete(&self) -> (r: Result<RestRequest, String>)
        ensures
            guild_plan(self.guild_id, r, Method::Delete, suffix(Seq::empty()), no_query(), None),
    {
        let r = self.request(Method::Delete, "", Vec::new(), None);
        proof {
            reveal_strlit("");
            assert(headers_v(Seq::<(String, String)>::empty()) =~= Seq::empty());
            if let Some(g) = self.guild_id {
                assert(guild_path(g, ""@) =~= guild_path(g, Seq::empty()));
            }
        }
        r
    }

    /// Gets the guild, with member counts when `with_counts`.
    pub fn get(&self, with_counts: bool) -> (r: Result<RestRequest, String>)
        ensures
            guild_plan(
                self.guild_id,
                r,
                Method::Get,
                suffix(Seq::empty()),
                |g: u64| Seq::empty().push(("with_counts"@, bool_text(with_counts))),
                None,
            ),
    {
        let mut q: Vec<(String, String)> = Vec::new();
        let v = bool_string(with_counts);
        assert(headers_v(q@) =~= Seq::<(Seq<char>, Seq<char>)>::empty());
        push_header(&mut q, "with_counts", v.as_str());
        let r = self.request(Method::Get, "", q, None);
        proof {
            reveal_strlit("");
            if let Some(g) = self.guild_id {
                assert(guild_path(g, ""@) =~= guild_path(g, Seq::empty()));
            }
        }
        r
    }

    /// Plans a request without query or body under `guilds/<id><suffix>`.
    fn simple(&self, method: Method, suffix: &str) -> (r: Result<RestRequest, String>)
        ensures
            match self.guild_id {
                None => r matches Err(e) && e@ == guild_id_required(),
                Some(g) => r matches Ok(q) && q.is(
                    method,
                    guild_path(g, suffix@),
                    Seq::empty(),
                    None,
                    guild_props(g),
                ),
            },
    {
        let q: Vec<(String, String)> = Vec::new();
        assert(headers_v(q@) =~= Seq::<(Seq<char>, Seq<char>)>::empty());
        self.request(method, suffix, q, None)
    }

    /// Plans a request with a body and no query under `guilds/<id><suffix>`.
    fn with_body(&self, method: Method, suffix: &str, body: Json) -> (r: Result<RestRequest, String>)
        ensures
            match self.guild_id {
                None => r matches Err(e) && e@ == guild_id_required(),
                Some(g) => r matches Ok(q) && q.is(
                    method,
                    guild_path(g, suffix@),
                    Seq::empty(),
                    Some(body.v()),
                    guild_props(g),
                ),
            },
    {
        let q: Vec<(String, String)> = Vec::new();
        assert(headers_v(q@) =~= Seq::<(Seq<char>, Seq<char>)>::empty());
        self.request(method, suffix, q, Some(body))
    }

    /// Gets the guild's basic information.
    pub fn get_basic(&self) -> (r: Result<RestRequest, String>)
        ensures
            guild_plan(self.guild_id, r, Method::Get, suffix("/basic"@), no_query(), None),
    {
        self.simple(Method::Get, "/basic")
    }

    /// Gets the guild's preview.
    pub fn get_preview(&self) -> (r: Result<RestRequest, String>)
        ensures
            guild_plan(self.guild_id, r, Method::Get, suffix("/preview"@), no_query(), None),
    {
        self.simple(Method::Get, "/preview")
    }

    /// Modifies the guild with the fields of `guild`.
    pub fn modify(&self, guild: Json) -> (r: Result<RestRequest, String>)
        ensures
            guild_plan(self.guild_id, r, Method::Patch, suffix(Seq::empty()), no_query(), Some(guild.v())),
    {
        let ghost gv = guild.v();
        let r = self.with_body(Method::Patch, "", guild);
        proof {
            reveal_strlit("");
            if let Some(g) = self.guild_id {
                assert(guild_path(g, ""@) =~= guild_path(g, Seq::empty()));
            }
        }
        r
    }

    /// Gets a member.
    pub fn get_member(&self, user_id: u64) -> (r: Result<RestRequest, String>)
        ensures
            guild_plan(self.guild_id, r, Method::Get, suffix_id("/members/"@, user_id, Seq::empty()), no_query(), None),
    {
        let s = id_suffix("/members/", user_id, "");
        proof { reveal_strlit(""); assert(s@ =~= "/members/"@ + decimal(user_id as nat) + Seq::empty()); }
        self.simple(Method::Get, s.as_str())
    }

    /// Lists up to `limit` members (1 to 1000), after the id `after` if
    /// given.
    pub fn list_members(&self, limit: u16, after: Option<u64>) -> (r: Result<RestRequest, String>)
        ensures
            self.guild_id is None ==> (r matches Err(e) && e@ == guild_id_required()),
            self.guild_id is Some && !(1 <= limit <= 1000) ==> (r matches Err(e) && e@
                == "Member list limit must be between 1 and 1000"@),
            self.guild_id is Some && 1 <= limit <= 1000 ==> guild_plan(
                self.guild_id,
                r,
                Method::Get,
                suffix("/members"@),
                |g: u64| opt_param(Seq::empty().push(("limit"@, decimal(limit as nat))), "after"@, after),
                None,
            ),
    {
        if self.guild_id.is_none() {
            return Err(String::from_str("Guild ID is required"));
        }
        if !(1 <= limit && limit <= 1000) {
            return Err(String::from_str("Member list limit must be between 1 and 1000"));
        }
        let mut q: Vec<(String, String)> = Vec::new();
        assert(headers_v(q@) =~= Seq::<(Seq<char>, Seq<char>)>::empty());
        let l = decimal_string(limit as u64);
        push_header(&mut q, "limit", l.as_str());
        match after {
            Some(a) => {
                let s = decimal_string(a);
                push_header(&mut q, "after", s.as_str());
            },
            None => {},
        }
        self.request(Method::Get, "/members", q, None)
    }

    /// Gets the account's own member in the guild.
    pub fn get_current_member(&self) -> (r: Result<RestRequest, String>)
        ensures
            match self.guild_id {
                None => r matches Err(e) && e@ == guild_id_required(),
                Some(g) => r matches Ok(q) && q.is(
                    Method::Get,
                    "users/@me/guilds/"@ + decimal(g as nat) + "/member"@,
                    Seq::empty(),
                    None,
                    guild_props(g),
                ),
            },
    {
        match self.guild_id {
            None => Err(String::from_str("Guild ID is required")),
            Some(g) => {
                let path = id_suffix("users/@me/guilds/", g, "/member");
                let q: Vec<(String, String)> = Vec::new();
                assert(headers_v(q@) =~= Seq::<(Seq<char>, Seq<char>)>::empty());
                Ok(RestRequest { method: Method::Get, path, query: q, body: None, properties: RequestProperties::guild(g) })
            },
        }
    }

    /// Modifies a member with the fields of `member`.
    pub fn modify_member(&self, user_id: u64, member: Json) -> (r: Result<RestRequest, String>)
        ensures
            guild_plan(self.guild_id, r, Method::Patch, suffix_id("/members/"@, user_id, Seq::empty()), no_query(), Some(member.v())),
    {
        let s = id_suffix("/members/", user_id, "");
        proof { reveal_strlit(""); assert(s@ =~= "/members/"@ + decimal(user_id as nat) + Seq::empty()); }
        self.with_body(Method::Patch, s.as_str(), member)
    }

    /// Modifies the account's own member with the fields of `member`.
    pub fn modify_current_member(&self, member: Json) -> (r: Result<RestRequest, String>)
        ensures
            guild_plan(self.guild_id, r, Method::Patch, suffix("/members/@me"@), no_query(), Some(member.v())),
    {
        self.with_body(Method::Patch, "/members/@me", member)
    }

    /// Sets the account's nickname in the guild.
    pub fn modify_current_member_nick(&self, nick: String) -> (r: Result<RestRequest, String>)
        ensures
            guild_plan(
                self.guild_id,
                r,
                Method::Patch,
                suffix("/members/@me/nick"@),
                no_query(),
                Some(JsonV::Obj(Seq::empty().push(("nick"@, JsonV::Str(nick@))))),
            ),
    {
        let body = object1("nick", Json::Str(nick));
        self.with_body(Method::Patch, "/members/@me/nick", body)
    }

    /// Gives a member a role.
    pub fn add_member_role(&self, user_id: u64, role_id: u64) -> (r: Result<RestRequest, String>)
        ensures
            guild_plan(self.guild_id, r, Method::Put, suffix_id("/members/"@, user_id, "/roles/"@ + decimal(role_id as nat)), no_query(), None),
    {
        let mut s = id_suffix("/members/", user_id, "/roles/");
        append_decimal(&mut s, role_id);
        assert(s@ =~= "/members/"@ + decimal(user_id as nat) + ("/roles/"@ + decimal(role_id as nat)));
        self.simple(Method::Put, s.as_str())
    }

    /// Takes a role from a member.
    pub fn remove_member_role(&self, user_id: u64, role_id: u64) -> (r: Result<RestRequest, String>)
        ensures
            guild_plan(self.guild_id, r, Method::Delete, suffix_id("/members/"@, user_id, "/roles/"@ + decimal(role_id as nat)), no_query(), None),
    {
        let mut s = id_suffix("/members/", user_id, "/roles/");
        append_decimal(&mut s, role_id);
        assert(s@ =~= "/members/"@ + decimal(user_id as nat) + ("/roles/"@ + decimal(role_id as nat)));
        self.simple(Method::Delete, s.as_str())
    }

    /// Removes a member from the guild.
    pub fn remove_member(&self, user_id: u64) -> (r: Result<RestRequest, String>)
        ensures
            guild_plan(self.guild_id, r, Method::Delete, suffix_id("/members/"@, user_id, Seq::empty()), no_query(), None),
    {
        let s = id_suffix("/members/", user_id, "");
        proof { reveal_strlit(""); assert(s@ =~= "/members/"@ + decimal(user_id as nat) + Seq::empty()); }
        self.simple(Method::Delete, s.as_str())
    }

    /// Lists up to `limit` bans, before or after the given ids.
    pub fn get_bans(&self, limit: u16, before: Option<u64>, after: Option<u64>) -> (r: Result<RestRequest, String>)
        ensures
            guild_plan(
                self.guild_id,
                r,
                Method::Get,
                suffix("/bans"@),
                |g: u64| opt_param(opt_param(Seq::empty().push(("limit"@, decimal(limit as nat))), "before"@, before), "after"@, after),
                None,
            ),
    {
        let mut q: Vec<(String, String)> = Vec::new();
        assert(headers_v(q@) =~= Seq::<(Seq<char>, Seq<char>)>::empty());
        let l = decimal_string(limit as u64);
        push_header(&mut q, "limit", l.as_str());
        match before {
            Some(b) => {
                let s = decimal_string(b);
                push_header(&mut q, "before", s.as_str());
            },
            None => {},
        }
        match after {
            Some(a) => {
                let s = decimal_string(a);
                push_header(&mut q, "after", s.as_str());
            },
            None => {},
        }
        self.request(Method::Get, "/bans", q, None)
    }

    /// Gets the ban of a user.
    pub fn get_ban(&self, user_id: u64) -> (r: Result<RestRequest, String>)
        ensures
            guild_plan(self.guild_id, r, Method::Get, suffix_id("/bans/"@, user_id, Seq::empty()), no_query(), None),
    {
        let s = id_suffix("/bans/", user_id, "");
        proof { reveal_strlit(""); assert(s@ =~= "/bans/"@ + decimal(user_id as nat) + Seq::empty()); }
        self.simple(Method::Get, s.as_str())
    }

    /// Searches the bans for `query`, at most `limit` of them.
    pub fn search_bans(&self, query: String, limit: u16) -> (r: Result<RestRequest, String>)
        ensures
            guild_plan(
                self.guild_id,
                r,
                Method::Get,
                suffix("/bans/search"@),
                |g: u64| Seq::empty().push(("query"@, query@)).push(("limit"@, decimal(limit as nat))),
                None,
            ),
    {
        let mut q: Vec<(String, String)> = Vec::new();
        assert(headers_v(q@) =~= Seq::<(Seq<char>, Seq<char>)>::empty());
        push_header(&mut q, "query", query.as_str());
        let l = decimal_string(limit as u64);
        push_header(&mut q, "limit", l.as_str());
        self.request(Method::Get, "/bans/search", q, None)
    }

    /// Bans a user, deleting their messages of the last seconds given.
    pub fn create_ban(&self, user_id: u64, delete_message_seconds: u32) -> (r: Result<RestRequest, String>)
        ensures
            guild_plan(
                self.guild_id,
                r,
                Method::Put,
                suffix_id("/bans/"@, user_id, Seq::empty()),
                no_query(),
                Some(JsonV::Obj(Seq::empty().push(("delete_message_seconds"@, JsonV::Num(delete_message_seconds as u64))))),
            ),
    {
        let s = id_suffix("/bans/", user_id, "");
        proof { reveal_strlit(""); assert(s@ =~= "/bans/"@ + decimal(user_id as nat) + Seq::empty()); }
        let body = object1("delete_message_seconds", Json::Num(delete_message_seconds as u64));
        self.with_body(Method::Put, s.as_str(), body)
    }

    /// Lifts the ban of a user.
    pub fn delete_ban(&self, user_id: u64) -> (r: Result<RestRequest, String>)
        ensures
            guild_plan(self.guild_id, r, Method::Delete, suffix_id("/bans/"@, user_id, Seq::empty()), no_query(), None),
    {
        let s = id_suffix("/bans/", user_id, "");
        proof { reveal_strlit(""); assert(s@ =~= "/bans/"@ + decimal(user_id as nat) + Seq::empty()); }
        self.simple(Method::Delete, s.as_str())
    }

    /// Bans several users at once; ids are sent as decimal strings.
    pub fn bulk_ban(&self, user_ids: Vec<u64>, delete_message_seconds: u32) -> (r: Result<RestRequest, String>)
        ensures
            guild_plan(
                self.guild_id,
                r,
                Method::Post,
                suffix("/bulk-ban"@),
                no_query(),
                Some(JsonV::Obj(Seq::empty().push(("user_ids"@, jdecimals(user_ids@))).push(("delete_message_seconds"@, JsonV::Num(delete_message_seconds as u64))))),
            ),
    {
        let body = object2("user_ids", json_decimals(&user_ids), "delete_message_seconds", Json::Num(delete_message_seconds as u64));
        self.with_body(Method::Post, "/bulk-ban", body)
    }

    /// Lists the roles.
    pub fn get_roles(&self) -> (r: Result<RestRequest, String>)
        ensures
            guild_plan(self.guild_id, r, Method::Get, suffix("/roles"@), no_query(), None),
    {
        self.simple(Method::Get, "/roles")
    }

    /// Gets a role.
    pub fn get_role(&self, role_id: u64) -> (r: Result<RestRequest, String>)
        ensures
            guild_plan(self.guild_id, r, Method::Get, suffix_id("/roles/"@, role_id, Seq::empty()), no_query(), None),
    {
        let s = id_suffix("/roles/", role_id, "");
        proof { reveal_strlit(""); assert(s@ =~= "/roles/"@ + decimal(role_id as nat) + Seq::empty()); }
        self.simple(Method::Get, s.as_str())
    }

    /// Gets the member count of each role.
    pub fn get_role_member_counts(&self) -> (r: Result<RestRequest, String>)
        ensures
            guild_plan(self.guild_id, r, Method::Get, suffix("/roles/member-counts"@), no_query(), None),
    {
        self.simple(Method::Get, "/roles/member-counts")
    }

    /// Gets the ids of a role's members.
    pub fn get_role_member_ids(&self, role_id: u64) -> (r: Result<RestRequest, String>)
        ensures
            guild_plan(self.guild_id, r, Method::Get, suffix_id("/roles/"@, role_id, "/member-ids"@), no_query(), None),
    {
        let s = id_suffix("/roles/", role_id, "/member-ids");
        self.simple(Method::Get, s.as_str())
    }

    /// Creates a role with the fields of `role`.
    pub fn create_role(&self, role: Json) -> (r: Result<RestRequest, String>)
        ensures
            guild_plan(self.guild_id, r, Method::Post, suffix("/roles"@), no_query(), Some(role.v())),
    {
        self.with_body(Method::Post, "/roles", role)
    }

    /// Modifies a role with the fields of `role`.
    pub fn modify_role(&self, role_id: u64, role: Json) -> (r: Result<RestRequest, String>)
        ensures
            guild_plan(self.guild_id, r, Method::Patch, suffix_id("/roles/"@, role_id, Seq::empty()), no_query(), Some(role.v())),
    {
        let s = id_suffix("/roles/", role_id, "");
        proof { reveal_strlit(""); assert(s@ =~= "/roles/"@ + decimal(role_id as nat) + Seq::empty()); }
        self.with_body(Method::Patch, s.as_str(), role)
    }

    /// Moves roles to the positions in `positions`.
    pub fn modify_role_positions(&self, positions: Json) -> (r: Result<RestRequest, String>)
        ensures
            guild_plan(self.guild_id, r, Method::Patch, suffix("/roles"@), no_query(), Some(positions.v())),
    {
        self.with_body(Method::Patch, "/roles", positions)
    }

    /// Gives a role to members; ids are sent as decimal strings.
    pub fn add_role_members(&self, role_id: u64, member_ids: Vec<u64>) -> (r: Result<RestRequest, String>)
        ensures
            guild_plan(
                self.guild_id,
                r,
                Method::Patch,
                suffix_id("/roles/"@, role_id, "/members"@),
                no_query(),
                Some(JsonV::Obj(Seq::empty().push(("member_ids"@, jdecimals(member_ids@))))),
            ),
    {
        let s = id_suffix("/roles/", role_id, "/members");
        let body = object1("member_ids", json_decimals(&member_ids));
        self.with_body(Method::Patch, s.as_str(), body)
    }

    /// Deletes a role.
    pub fn delete_role(&self, role_id: u64) -> (r: Result<RestRequest, String>)
        ensures
            guild_plan(self.guild_id, r, Method::Delete, suffix_id("/roles/"@, role_id, Seq::empty()), no_query(), None),
    {
        let s = id_suffix("/roles/", role_id, "");
        proof { reveal_strlit(""); assert(s@ =~= "/roles/"@ + decimal(role_id as nat) + Seq::empty()); }
        self.simple(Method::Delete, s.as_str())
    }

    /// Counts the members a prune of `days` would remove.
    pub fn get_prune(&self, days: u8) -> (r: Result<RestRequest, String>)
        ensures
            guild_plan(
                self.guild_id,
                r,
                Method::Get,
                suffix("/prune"@),
                |g: u64| Seq::empty().push(("days"@, decimal(days as nat))),
                None,
            ),
    {
        let mut q: Vec<(String, String)> = Vec::new();
        assert(headers_v(q@) =~= Seq::<(Seq<char>, Seq<char>)>::empty());
        let d = decimal_string(days as u64);
        push_header(&mut q, "days", d.as_str());
        self.request(Method::Get, "/prune", q, None)
    }

    /// Prunes the members inactive for `days`.
    pub fn prune(&self, days: u8, compute_prune_count: bool) -> (r: Result<RestRequest, String>)
        ensures
            guild_plan(
                self.guild_id,
                r,
                Method::Post,
                suffix("/prune"@),
                no_query(),
                Some(JsonV::Obj(Seq::empty().push(("days"@, JsonV::Num(days as u64))).push(("compute_prune_count"@, JsonV::Bool(compute_prune_count))))),
            ),
    {
        let body = object2("days", Json::Num(days as u64), "compute_prune_count", Json::Bool(compute_prune_count));
        self.with_body(Method::Post, "/prune", body)
    }

    /// Gets the vanity invite.
    pub fn get_vanity_invite(&self) -> (r: Result<RestRequest, String>)
        ensures
            guild_plan(self.guild_id, r, Method::Get, suffix("/vanity-url"@), no_query(), None),
    {
        self.simple(Method::Get, "/vanity-url")
    }

    /// Gets the widget's settings.
    pub fn get_widget_settings(&self) -> (r: Result<RestRequest, String>)
        ensures
            guild_plan(self.guild_id, r, Method::Get, suffix("/widget"@), no_query(), None),
    {
        self.simple(Method::Get, "/widget")
    }

    /// Modifies the widget's settings with the fields of `widget`.
    pub fn modify_widget(&self, widget: Json) -> (r: Result<RestRequest, String>)
        ensures
            guild_plan(self.guild_id, r, Method::Patch, suffix("/widget"@), no_query(), Some(widget.v())),
    {
        self.with_body(Method::Patch, "/widget", widget)
    }

    /// Gets the widget.
    pub fn get_widget(&self) -> (r: Result<RestRequest, String>)
        ensures
            guild_plan(self.guild_id, r, Method::Get, suffix("/widget.json"@), no_query(), None),
    {
        self.simple(Method::Get, "/widget.json")
    }

    /// Gets the welcome screen.
    pub fn get_welcome_screen(&self) -> (r: Result<RestRequest, String>)
        ensures
            guild_plan(self.guild_id, r, Method::Get, suffix("/welcome-screen"@), no_query(), None),
    {
        self.simple(Method::Get, "/welcome-screen")
    }

    /// Modifies the welcome screen with the fields of `welcome_screen`.
    pub fn modify_welcome_screen(&self, welcome_screen: Json) -> (r: Result<RestRequest, String>)
        ensures
            guild_plan(self.guild_id, r, Method::Patch, suffix("/welcome-screen"@), no_query(), Some(welcome_screen.v())),
    {
        self.with_body(Method::Patch, "/welcome-screen", welcome_screen)
    }

    /// Gets the onboarding.
    pub fn get_onboarding(&self) -> (r: Result<RestRequest, String>)
        ensures
            guild_plan(self.guild_id, r, Method::Get, suffix("/onboarding"@), no_query(), None),
    {
        self.simple(Method::Get, "/onboarding")
    }

    /// Gets the welcome of new members.
    pub fn get_new_member_welcome(&self) -> (r: Result<RestRequest, String>)
        ensures
            guild_plan(self.guild_id, r, Method::Get, suffix("/new-member-welcome"@), no_query(), None),
    {
        self.simple(Method::Get, "/new-member-welcome")
    }

    /// Lists the account's guilds, from the home page.
    pub fn get_user_guilds() -> (r: RestRequest)
        ensures
            r.is(Method::Get, "users/@me/guilds"@, Seq::empty(), None, home_props()),
    {
        let q: Vec<(String, String)> = Vec::new();
        assert(headers_v(q@) =~= Seq::<(Seq<char>, Seq<char>)>::empty());
        RestRequest { method: Method::Get, path: String::from_str("users/@me/guilds"), query: q, body: None, properties: RequestProperties::home() }
    }

    /// Lists the guilds the account asked to join, from the home page.
    pub fn get_join_request_guilds() -> (r: RestRequest)
        ensures
            r.is(Method::Get, "users/@me/join-request-guilds"@, Seq::empty(), None, home_props()),
    {
        let q: Vec<(String, String)> = Vec::new();
        assert(headers_v(q@) =~= Seq::<(Seq<char>, Seq<char>)>::empty());
        RestRequest { method: Method::Get, path: String::from_str("users/@me/join-request-guilds"), query: q, body: None, properties: RequestProperties::home() }
    }

    /// Gets the member verification form.
    pub fn get_member_verification(&self) -> (r: Result<RestRequest, String>)
        ensures
            guild_plan(self.guild_id, r, Method::Get, suffix("/member-verification"@), no_query(), None),
    {
        self.simple(Method::Get, "/member-verification")
    }

    /// Lists the channels.
    pub fn get_channels(&self) -> (r: Result<RestRequest, String>)
        ensures
            guild_plan(self.guild_id, r, Method::Get, suffix("/channels"@), no_query(), None),
    {
        self.simple(Method::Get, "/channels")
    }

    /// Lists the active threads.
    pub fn get_active_threads(&self) -> (r: Result<RestRequest, String>)
        ensures
            guild_plan(self.guild_id, r, Method::Get, suffix("/threads/active"@), no_query(), None),
    {
        self.simple(Method::Get, "/threads/active")
    }

    /// Moves channels to the positions in `positions`.
    pub fn modify_channel_positions(&self, positions: Json) -> (r: Result<RestRequest, String>)
        ensures
            guild_plan(self.guild_id, r, Method::Patch, suffix("/channels"@), no_query(), Some(positions.v())),
    {
        self.with_body(Method::Patch, "/channels", positions)
    }

    /// Leaves the guild.
    pub fn leave(&self) -> (r: Result<RestRequest, String>)
        ensures
            match self.guild_id {
                None => r matches Err(e) && e@ == guild_id_required(),
                Some(g) => r matches Ok(q) && q.is(
                    Method::Delete,
                    "users/@me/guilds/"@ + decimal(g as nat),
                    Seq::empty(),
                    None,
                    guild_props(g),
                ),
            },
    {
        match self.guild_id {
            None => Err(String::from_str("Guild ID is required")),
            Some(g) => {
                let path = id_suffix("users/@me/guilds/", g, "");
                proof { reveal_strlit(""); assert(path@ =~= "users/@me/guilds/"@ + decimal(g as nat)); }
                let q: Vec<(String, String)> = Vec::new();
                assert(headers_v(q@) =~= Seq::<(Seq<char>, Seq<char>)>::empty());
                Ok(RestRequest { method: Method::Delete, path, query: q, body: None, properties: RequestProperties::guild(g) })
            },
        }
    }

    /// Searches the guild's messages with the parameters of a search query.
    pub fn search_guild_messages(&self, query: Vec<(String, String)>) -> (r: Result<RestRequest, String>)
        ensures
            guild_plan(self.guild_id, r, Method::Get, suffix("/messages/search"@), |g: u64| headers_v(query@), None),
    {
        self.request(Method::Get, "/messages/search", query, None)
    }

    /// Gets the audit log with the parameters of an audit-log query.
    pub fn get_audit_log(&self, query: Vec<(String, String)>) -> (r: Result<RestRequest, String>)
        ensures
            guild_plan(self.guild_id, r, Method::Get, suffix("/audit-logs"@), |g: u64| headers_v(query@), None),
    {
        self.request(Method::Get, "/audit-logs", query, None)
    }
}

} // verus!
