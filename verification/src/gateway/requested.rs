//! Events that answer a client's requests: channel statuses, last messages,
//! member chunks and member-list updates. The kinds of their members,
//! presences and statuses are the caller's (`M`, `P`, `S`).

use vstd::prelude::*;
use crate::gateway::json_model::Json;
use crate::text::{chars_of, vec_eq};

verus! {

/// The statuses of a guild's channels.
#[derive(Debug)]
pub struct ChannelStatusesEvent<S> {
    pub guild_id: u64,
    pub channels: Vec<S>,
}

/// The last messages of channels of a guild.
#[derive(Debug)]
pub struct LastMessagesEvent<M> {
    pub guild_id: u64,
    pub messages: Vec<M>,
}

/// One chunk of the members a guild members request asked for.
#[derive(Debug)]
pub struct GuildMembersChunkEvent<M, P> {
    pub guild_id: u64,
    pub members: Vec<M>,
    pub chunk_index: u64,
    pub chunk_count: u64,
    pub not_found: Option<Vec<String>>,
    pub presences: Option<Vec<P>>,
    pub nonce: Option<String>,
}

/// A group of a member list (a role, or online/offline).
#[derive(Debug)]
pub struct GuildMemberListGroup {
    pub id: String,
    pub count: u64,
}

/// One entry of a member list: a member or a group header.
#[derive(Debug)]
pub struct GuildMemberListItem<M> {
    pub member: Option<M>,
    pub group: Option<GuildMemberListGroup>,
}

/// One change to a member list (`SYNC`, `INSERT`, `UPDATE`, `DELETE`, ...).
#[derive(Debug)]
pub struct GuildMemberListOperation<M> {
    pub op: String,
    pub range: Option<[u64; 2]>,
    pub items: Vec<GuildMemberListItem<M>>,
    pub index: Option<u64>,
    pub item: Option<Json>,
}

/// An update of a member list of a guild.
#[derive(Debug)]
pub struct GuildMemberListUpdateEvent<M> {
    pub id: String,
    pub guild_id: u64,
    pub member_count: u64,
    pub online_count: u64,
    pub groups: Vec<GuildMemberListGroup>,
    pub ops: Vec<GuildMemberListOperation<M>>,
}

/// The members among `items`, in order.
pub open spec fn item_members<M>(items: Seq<GuildMemberListItem<M>>) -> Seq<M>
    decreases items.len(),
{
    if items.len() == 0 {
        Seq::empty()
    } else {
        let rest = item_members(items.drop_last());
        match items.last().member {
            Some(m) => rest.push(m),
            None => rest,
        }
    }
}

/// The members of the `SYNC` operations among `ops`, in order.
pub open spec fn synced<M>(ops: Seq<GuildMemberListOperation<M>>) -> Seq<M>
    decreases ops.len(),
{
    if ops.len() == 0 {
        Seq::empty()
    } else {
        let rest = synced(ops.drop_last());
        if ops.last().op@ == "SYNC"@ {
            rest + item_members(ops.last().items@)
        } else {
            rest
        }
    }
}

impl<M> GuildMemberListUpdateEvent<M> {
    /// The members that the `SYNC` operations carry, in order.
    pub fn synced_members(&self) -> (out: Vec<&M>)
        ensures
            out@.map_values(|m: &M| *m) == synced(self.ops@),
    {
        let sync = chars_of("SYNC");
        let mut out: Vec<&M> = Vec::new();
        let mut i: usize = 0;
        while i < self.ops.len()
            invariant
                i <= self.ops@.len(),
                sync@ == "SYNC"@,
                out@.map_values(|m: &M| *m) == synced(self.ops@.subrange(0, i as int)),
            decreases self.ops@.len() - i,
        {
            let op = &self.ops[i];
            let name = chars_of(op.op.as_str());
            let ghost before = out@.map_values(|m: &M| *m);
            proof {
                assert(self.ops@.subrange(0, i + 1).drop_last() =~= self.ops@.subrange(0, i as int));
            }
            if vec_eq(&name, &sync) {
                let mut j: usize = 0;
                while j < op.items.len()
                    invariant
                        j <= op.items@.len(),
                        out@.map_values(|m: &M| *m) == before + item_members(op.items@.subrange(0, j as int)),
                    decreases op.items@.len() - j,
                {
                    let ghost prev = out@;
                    proof {
                        assert(op.items@.subrange(0, j + 1).drop_last() =~= op.items@.subrange(0, j as int));
                    }
                    match &op.items[j].member {
                        Some(m) => {
                            out.push(m);
                            assert(out@.map_values(|m: &M| *m) =~= prev.map_values(|m: &M| *m).push(*m));
                        },
                        None => {},
                    }
                    j = j + 1;
                }
                proof {
                    assert(op.items@.subrange(0, op.items@.len() as int) =~= op.items@);
                }
            }
            i = i + 1;
        }
        proof {
            assert(self.ops@.subrange(0, self.ops@.len() as int) =~= self.ops@);
        }
        out
    }
}

} // verus!
