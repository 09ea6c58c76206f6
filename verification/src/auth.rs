//! How a client authenticates: as a user (the token is sent as it is) or as a
//! bot (the token is trimmed, an optional `Bot ` prefix removed, and the
//! header reads `Bot <token>`).

use vstd::prelude::*;
use vstd::string::StringExecFns;
use crate::text::{chars_of, copy_str, concat_str, has_prefix, string_from_chars, trim, trim_bounds, vec_starts_with};

verus! {

/// The kind of account a token belongs to.
#[derive(Clone, Copy, Debug, PartialEq, Eq, Structural)]
pub enum Authentication {
    User,
    Bot,
}

/// The prefix a bot's `Authorization` header carries.
pub open spec fn bot_prefix() -> Seq<char> {
    "Bot "@
}

/// The message of the error for a token that is empty once normalized.
pub open spec fn invalid_token_message() -> Seq<char> {
    "Invalid token"@
}

/// `s` without a leading `Bot `, if it has one.
pub open spec fn strip_bot_prefix(s: Seq<char>) -> Seq<char> {
    if has_prefix(s, bot_prefix()) {
        s.subrange(bot_prefix().len() as int, s.len() as int)
    } else {
        s
    }
}

/// The token a bot client keeps: trimmed, without `Bot `, trimmed again.
pub open spec fn normalized_bot_token(token: Seq<char>) -> Seq<char> {
    trim(strip_bot_prefix(trim(token)))
}

/// The value of the `Authorization` header for `token`.
pub open spec fn authorization_value(auth: Authentication, token: Seq<char>) -> Seq<char> {
    match auth {
        Authentication::User => token,
        Authentication::Bot => bot_prefix() + token,
    }
}

/// The characters `v[from..to]` as a new vector.
pub fn vec_range(v: &Vec<char>, from: usize, to: usize) -> (out: Vec<char>)
    requires
        from <= to <= v@.len(),
    ensures
        out@ == v@.subrange(from as int, to as int),
{
    let mut out: Vec<char> = Vec::new();
    let mut i = from;
    while i < to
        invariant
            from <= i <= to <= v@.len(),
            out@ == v@.subrange(from as int, i as int),
        decreases to - i,
    {
        out.push(v[i]);
        i = i + 1;
        assert(out@ =~= v@.subrange(from as int, i as int));
    }
    out
}

/// `v` with leading and trailing whitespace removed.
pub fn trimmed(v: &Vec<char>) -> (out: Vec<char>)
    ensures
        out@ == trim(v@),
{
    let (a, b) = trim_bounds(v);
    vec_range(v, a, b)
}

/// A bot token that is already normalized stays as it is, unless what is
/// left still begins with `Bot ` (which normalizing removes once more).
pub proof fn law_normalized_bot_token_is_stable(token: Seq<char>)
    requires
        !has_prefix(normalized_bot_token(token), bot_prefix()),
    ensures
        normalized_bot_token(normalized_bot_token(token)) == normalized_bot_token(token),
{
    let n = normalized_bot_token(token);
    crate::text::lemma_trim_idempotent(strip_bot_prefix(trim(token)));
    assert(trim(n) == n);
    assert(strip_bot_prefix(n) == n);
}

impl Authentication {
    /// Whether this is bot authentication.
    pub fn is_bot(self) -> (b: bool)
        ensures
            b == (self == Authentication::Bot),
    {
        match self {
            Authentication::Bot => true,
            Authentication::User => false,
        }
    }

    /// The token as this client keeps it. A user token is kept as given; a
    /// bot token is normalized, and refused when nothing is left.
    pub fn normalize_token(self, token: String) -> (res: Result<String, String>)
        ensures
            self == Authentication::User ==> (res matches Ok(t) && t@ == token@),
            self == Authentication::Bot ==> match res {
                Ok(t) => t@ == normalized_bot_token(token@) && t@.len() > 0,
                Err(e) => normalized_bot_token(token@).len() == 0 && e@ == invalid_token_message(),
            },
    {
        match self {
            Authentication::User => Ok(token),
            Authentication::Bot => {
                let v = chars_of(token.as_str());
                let t1 = trimmed(&v);
                let p = chars_of("Bot ");
                let t2 = if vec_starts_with(&t1, 0, &p) {
                    vec_range(&t1, p.len(), t1.len())
                } else {
                    t1
                };
                proof {
                    assert(t1@.subrange(0, t1@.len() as int) =~= t1@);
                    assert(t2@ == strip_bot_prefix(trim(token@)));
                }
                let t3 = trimmed(&t2);
                if t3.len() == 0 {
                    Err(String::from_str("Invalid token"))
                } else {
                    Ok(string_from_chars(&t3))
                }
            },
        }
    }

    /// The value of the `Authorization` header: the token itself for a
    /// user, `Bot <token>` for a bot.
    pub fn authorization(self, token: &str) -> (s: String)
        ensures
            s@ == authorization_value(self, token@),
    {
        match self {
            Authentication::User => copy_str(token),
            Authentication::Bot => concat_str("Bot ", token),
        }
    }
}

/// A user's header is the token itself and a bot's is `Bot ` followed by
/// the token; a bot token is kept trimmed and without a leading `Bot `.
pub proof fn law_authorization_header(token: Seq<char>)
    ensures
        authorization_value(Authentication::User, token) == token,
        authorization_value(Authentication::Bot, token) == "Bot "@ + token,
        normalized_bot_token(token) == trim(
            if has_prefix(trim(token), "Bot "@) {
                trim(token).subrange(4, trim(token).len() as int)
            } else {
                trim(token)
            },
        ),
{
    reveal_strlit("Bot ");
}

} // verus!
