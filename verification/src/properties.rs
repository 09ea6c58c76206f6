//! Optional properties of a request that a user client turns into headers:
//! the page it pretends to be on, the context of the action, and the
//! answer to a captcha.

use vstd::prelude::*;
use crate::text::{append_decimal, append_str, copy_str, decimal};

verus! {

/// The page a request claims to come from.
#[derive(Clone, Copy, Debug, PartialEq, Eq, Structural)]
pub enum Referer {
    /// The home page.
    HomePage,
    /// A guild's page.
    Guild { guild_id: u64 },
    /// A channel of a guild.
    GuildChannel { guild_id: u64, channel_id: u64 },
    /// A direct-message channel.
    DmChannel { channel_id: u64 },
}

/// The address of the pages under which the client runs.
pub open spec fn channels_base() -> Seq<char> {
    "https://discord.com/channels/"@
}

/// The `Referer` header value of a page.
pub open spec fn referer_value(r: Referer) -> Seq<char> {
    match r {
        Referer::HomePage => channels_base() + "@me"@,
        Referer::Guild { guild_id } => channels_base() + decimal(guild_id as nat),
        Referer::GuildChannel { guild_id, channel_id } => channels_base() + decimal(guild_id as nat)
            + "/"@ + decimal(channel_id as nat),
        Referer::DmChannel { channel_id } => channels_base() + "@me/"@ + decimal(channel_id as nat),
    }
}

impl Referer {
    /// The value of the `Referer` header for this page.
    pub fn header_value(&self) -> (s: String)
        ensures
            s@ == referer_value(*self),
    {
        let mut s = copy_str("https://discord.com/channels/");
        match *self {
            Referer::HomePage => append_str(&mut s, "@me"),
            Referer::Guild { guild_id } => append_decimal(&mut s, guild_id),
            Referer::GuildChannel { guild_id, channel_id } => {
                append_decimal(&mut s, guild_id);
                append_str(&mut s, "/");
                append_decimal(&mut s, channel_id);
            },
            Referer::DmChannel { channel_id } => {
                append_str(&mut s, "@me/");
                append_decimal(&mut s, channel_id);
            },
        }
        s
    }
}

/// The context of an action, carried as its encoded header value.
#[derive(Clone, Debug, PartialEq, Eq)]
pub struct Context {
    pub header_value: String,
}

/// The answer to a captcha: the headers it adds to the retried request.
#[derive(Clone, Debug, PartialEq, Eq)]
pub struct SolvedCaptcha {
    pub headers: Vec<(String, String)>,
}

/// The properties of a request; absent ones add no header.
#[derive(Clone, Debug, PartialEq, Eq)]
pub struct RequestProperties {
    pub referer: Option<Referer>,
    pub context: Option<Context>,
    pub solved_captcha: Option<SolvedCaptcha>,
}

impl Default for RequestProperties {
    fn default() -> (p: RequestProperties)
        ensures
            p.referer is None,
            p.context is None,
            p.solved_captcha is None,
    {
        RequestProperties { referer: None, context: None, solved_captcha: None }
    }
}

impl RequestProperties {
    /// Properties naming only the page `referer`.
    pub fn from_referer(referer: Referer) -> (p: RequestProperties)
        ensures
            p.referer == Some(referer),
            p.context is None,
            p.solved_captcha is None,
    {
        RequestProperties { referer: Some(referer), ..RequestProperties::default() }
    }

    /// A request from the home page.
    pub fn home() -> (p: RequestProperties)
        ensures
            p.referer == Some(Referer::HomePage),
            p.context is None,
            p.solved_captcha is None,
    {
        RequestProperties::from_referer(Referer::HomePage)
    }

    /// A request from a guild's page.
    pub fn guild(guild_id: u64) -> (p: RequestProperties)
        ensures
            p.referer == Some(Referer::Guild { guild_id }),
            p.context is None,
            p.solved_captcha is None,
    {
        RequestProperties::from_referer(Referer::Guild { guild_id })
    }

    /// A request from a channel of a guild.
    pub fn guild_channel(guild_id: u64, channel_id: u64) -> (p: RequestProperties)
        ensures
            p.referer == Some(Referer::GuildChannel { guild_id, channel_id }),
            p.context is None,
            p.solved_captcha is None,
    {
        RequestProperties::from_referer(Referer::GuildChannel { guild_id, channel_id })
    }

    /// A request from a direct-message channel.
    pub fn dm_channel(channel_id: u64) -> (p: RequestProperties)
        ensures
            p.referer == Some(Referer::DmChannel { channel_id }),
            p.context is None,
            p.solved_captcha is None,
    {
        RequestProperties::from_referer(Referer::DmChannel { channel_id })
    }

    /// These properties with `context` set.
    pub fn with_context(self, context: Context) -> (p: RequestProperties)
        ensures
            p.referer == self.referer,
            p.context == Some(context),
            p.solved_captcha == self.solved_captcha,
    {
        let mut p = self;
        p.context = Some(context);
        p
    }

    /// These properties with `solved_captcha` set.
    pub fn with_solved_captcha(self, solved_captcha: SolvedCaptcha) -> (p: RequestProperties)
        ensures
            p.referer == self.referer,
            p.context == self.context,
            p.solved_captcha == Some(solved_captcha),
    {
        let mut p = self;
        p.solved_captcha = Some(solved_captcha);
        p
    }
}

} // verus!
