//! Guild subscriptions: which events of a guild, and which ranges of which
//! channels' member lists, a user client asks the gateway for.

use vstd::prelude::*;
use std::collections::HashMap;
use vstd::std_specs::hash::spec_hash_map_iter;
use vstd::std_specs::iter::IteratorSpec;
use crate::gateway::commands::{fields1, message, op_message};
use crate::gateway::json_model::{Json, JsonV, ObjBuilder, fields_v, lemma_arr_v};
use crate::text::{decimal, decimal_string};

verus! {

/// A range of a member list: the first and last index.
pub type GuildMemberListRange = [u64; 2];

/// The member-list ranges asked for, by channel id.
pub type GuildChannelRanges = HashMap<u64, Vec<GuildMemberListRange>>;

/// What a client subscribes to in one guild; an absent member is not sent.
#[derive(Debug, Clone, PartialEq, Eq)]
pub struct GuildSubscription {
    pub typing: Option<bool>,
    pub threads: Option<bool>,
    pub activities: Option<bool>,
    pub member_updates: Option<bool>,
    pub channels: Option<GuildChannelRanges>,
}

impl Default for GuildSubscription {
    fn default() -> (s: GuildSubscription)
        ensures
            s.typing is None,
            s.threads is None,
            s.activities is None,
            s.member_updates is None,
            s.channels is None,
    {
        GuildSubscription {
            typing: None,
            threads: None,
            activities: None,
            member_updates: None,
            channels: None,
        }
    }
}

impl GuildSubscription {
    /// Every kind of guild event, and no member lists.
    pub fn all_events() -> (s: GuildSubscription)
        ensures
            s.typing == Some(true),
            s.threads == Some(true),
            s.activities == Some(true),
            s.member_updates == Some(true),
            s.channels is None,
    {
        GuildSubscription {
            typing: Some(true),
            threads: Some(true),
            activities: Some(true),
            member_updates: Some(true),
            channels: None,
        }
    }

    /// Typing events and the member lists of `channels`, nothing else.
    pub fn member_lists(channels: GuildChannelRanges) -> (s: GuildSubscription)
        ensures
            s.typing == Some(true),
            s.threads is None,
            s.activities is None,
            s.member_updates is None,
            s.channels == Some(channels),
    {
        GuildSubscription {
            typing: Some(true),
            channels: Some(channels),
            ..GuildSubscription::default()
        }
    }
}

/// Whether `s` subscribes to every kind of event and to no member list.
pub open spec fn is_all_events(s: GuildSubscription) -> bool {
    &&& s.typing == Some(true)
    &&& s.threads == Some(true)
    &&& s.activities == Some(true)
    &&& s.member_updates == Some(true)
    &&& s.channels is None
}

/// The subscriptions to every kind of event of each guild of `guild_ids`.
pub fn bulk_subscriptions(guild_ids: Vec<u64>) -> (m: HashMap<u64, GuildSubscription>)
    ensures
        m@.dom() == guild_ids@.to_set(),
        forall|g: u64| #[trigger] m@.contains_key(g) ==> is_all_events(m@[g]),
{
    broadcast use vstd::std_specs::hash::group_hash_axioms;
    let mut m: HashMap<u64, GuildSubscription> = HashMap::new();
    let mut i: usize = 0;
    while i < guild_ids.len()
        invariant
            i <= guild_ids@.len(),
            m@.dom() == guild_ids@.subrange(0, i as int).to_set(),
            forall|g: u64| #[trigger] m@.contains_key(g) ==> is_all_events(m@[g]),
        decreases guild_ids@.len() - i,
    {
        m.insert(guild_ids[i], GuildSubscription::all_events());
        proof {
            assert(guild_ids@.subrange(0, i + 1) =~= guild_ids@.subrange(0, i as int).push(guild_ids@[i as int]));
            guild_ids@.subrange(0, i as int).lemma_push_to_set_commute(guild_ids@[i as int]);
            assert(m@.dom() =~= guild_ids@.subrange(0, i + 1).to_set());
        }
        i = i + 1;
    }
    assert(guild_ids@.subrange(0, guild_ids@.len() as int) =~= guild_ids@);
    m
}

/// A member-list range as JSON: `[first, last]`.
pub open spec fn range_v(r: [u64; 2]) -> JsonV {
    JsonV::Arr(seq![JsonV::Num(r@[0]), JsonV::Num(r@[1])])
}

/// The ranges of one channel as JSON.
pub open spec fn ranges_v(rs: Seq<[u64; 2]>) -> JsonV {
    JsonV::Arr(rs.map_values(|r: [u64; 2]| range_v(r)))
}

/// Whether the members `members` hold the entries of `m` in the order of
/// the keys `ks`: each key once, under its decimal rendering, with a value
/// that `rel` relates to the key's entry.
pub open spec fn keyed_by<V>(
    members: Seq<(Seq<char>, JsonV)>,
    m: Map<u64, V>,
    rel: spec_fn(JsonV, V) -> bool,
    ks: Seq<u64>,
) -> bool {
    &&& ks.len() == members.len()
    &&& ks.no_duplicates()
    &&& ks.to_set() == m.dom()
    &&& forall|i: int|
        0 <= i < ks.len() ==> #[trigger] members[i].0 == decimal(ks[i] as nat) && rel(
            members[i].1,
            m[ks[i]],
        )
}

/// Whether `members` hold the entries of `m`, each once, in some order (a
/// JSON object keyed by the decimal renderings of the map's keys).
pub open spec fn keyed_members<V>(
    members: Seq<(Seq<char>, JsonV)>,
    m: Map<u64, V>,
    rel: spec_fn(JsonV, V) -> bool,
) -> bool {
    exists|ks: Seq<u64>| #[trigger] keyed_by(members, m, rel, ks)
}

/// How a channel's ranges are written.
pub open spec fn channel_rel() -> spec_fn(JsonV, Vec<[u64; 2]>) -> bool {
    |j: JsonV, rs: Vec<[u64; 2]>| j == ranges_v(rs@)
}

/// The ranges of one channel as JSON.
pub fn ranges_json(rs: &Vec<[u64; 2]>) -> (j: Json)
    ensures
        j.v() == ranges_v(rs@),
{
    let mut items: Vec<Json> = Vec::new();
    let mut i: usize = 0;
    while i < rs.len()
        invariant
            i <= rs@.len(),
            items@.len() == i,
            forall|k: int| 0 <= k < i ==> #[trigger] items@[k].v() == range_v(rs@[k]),
        decreases rs@.len() - i,
    {
        let r = rs[i];
        let mut pair: Vec<Json> = Vec::new();
        pair.push(Json::Num(r[0]));
        pair.push(Json::Num(r[1]));
        proof {
            lemma_arr_v(pair);
            assert(pair@.map_values(|j: Json| j.v()) =~= seq![JsonV::Num(r@[0]), JsonV::Num(r@[1])]);
        }
        items.push(Json::Arr(pair));
        i = i + 1;
    }
    proof {
        lemma_arr_v(items);
        assert(items@.map_values(|j: Json| j.v()) =~= rs@.map_values(|r: [u64; 2]| range_v(r)));
    }
    Json::Arr(items)
}

/// The member lists asked for, as a JSON object keyed by channel id.
pub fn channels_json(c: &HashMap<u64, Vec<[u64; 2]>>) -> (j: Json)
    ensures
        j.v() matches JsonV::Obj(cm) && keyed_members(cm, c@, channel_rel()),
{
    broadcast use vstd::std_specs::hash::group_hash_axioms;
    let mut b = ObjBuilder::new();
    for p in it: c.iter()
        invariant
            it.seq() == spec_hash_map_iter(c).remaining(),
            fields_v(b.fields@) == it.seq().take(it.index()).map_values(
                |q: (&u64, &Vec<[u64; 2]>)| (decimal(*q.0 as nat), ranges_v(q.1@)),
            ),
    {
        let (k, v) = p;
        let key = decimal_string(*k);
        b.put(key.as_str(), ranges_json(v));
    }
    let ghost seq = spec_hash_map_iter(c).remaining();
    let ghost ks = seq.map_values(|q: (&u64, &Vec<[u64; 2]>)| *q.0);
    proof {
        assert(seq.take(seq.len() as int) =~= seq);
        let cm = fields_v(b.fields@);
        assert(keyed_by(cm, c@, channel_rel(), ks)) by {
            assert(ks.to_set() =~= c@.dom()) by {
                assert forall|k: u64| c@.contains_key(k) implies ks.to_set().contains(k) by {
                    assert(seq.contains((&k, &c@[k])));
                    let i = choose|i: int| 0 <= i < seq.len() && seq[i] == (&k, &c@[k]);
                    assert(ks[i] == k);
                }
                assert forall|k: u64| ks.to_set().contains(k) implies c@.contains_key(k) by {
                    let i = choose|i: int| 0 <= i < ks.len() && ks[i] == k;
                    assert(c@.contains_key(*seq[i].0));
                }
            }
            assert forall|i: int, j: int| 0 <= i < ks.len() && 0 <= j < ks.len() && i != j implies ks[i] != ks[j] by {
                assert(c@.contains_key(*seq[i].0) && c@[*seq[i].0] == *seq[i].1);
                assert(c@.contains_key(*seq[j].0) && c@[*seq[j].0] == *seq[j].1);
            }
            assert forall|i: int| 0 <= i < ks.len() implies #[trigger] cm[i].0 == decimal(ks[i] as nat)
                && (channel_rel())(cm[i].1, c@[ks[i]]) by {
                assert(c@.contains_key(*seq[i].0) && c@[*seq[i].0] == *seq[i].1);
            }
        }
    }
    b.build()
}

/// The member `name: b` when `b` is given.
pub open spec fn flag(name: Seq<char>, b: Option<bool>) -> Seq<(Seq<char>, JsonV)> {
    match b {
        Some(x) => seq![(name, JsonV::Bool(x))],
        None => Seq::empty(),
    }
}

/// The flags of a subscription that are given, in the order typing,
/// threads, activities, member updates.
pub open spec fn subscription_flags(s: GuildSubscription) -> Seq<(Seq<char>, JsonV)> {
    flag("typing"@, s.typing) + flag("threads"@, s.threads) + flag("activities"@, s.activities)
        + flag("member_updates"@, s.member_updates)
}

/// Whether `j` is how the subscription `s` is written: its given flags,
/// then its member lists keyed by channel id when it has them.
pub open spec fn subscription_matches(j: JsonV, s: GuildSubscription) -> bool {
    match s.channels {
        None => j == JsonV::Obj(subscription_flags(s)),
        Some(c) => match j {
            JsonV::Obj(ms) => {
                &&& ms.len() == subscription_flags(s).len() + 1
                &&& ms.drop_last() == subscription_flags(s)
                &&& ms.last().0 == "channels"@
                &&& match ms.last().1 {
                    JsonV::Obj(cm) => keyed_members(cm, c@, channel_rel()),
                    _ => false,
                }
            },
            _ => false,
        },
    }
}

/// How a guild's subscription is written.
pub open spec fn subscription_rel() -> spec_fn(JsonV, GuildSubscription) -> bool {
    |j: JsonV, s: GuildSubscription| subscription_matches(j, s)
}

/// The guild subscriptions command (op 37) with the members `ms` under
/// `subscriptions`.
pub open spec fn subscriptions_command(ms: Seq<(Seq<char>, JsonV)>) -> JsonV {
    op_message(37, JsonV::Obj(fields1(("subscriptions"@, JsonV::Obj(ms)))))
}

/// Adds the member `name: b` when `b` is given.
fn put_flag(b: &mut ObjBuilder, name: &str, flag_value: Option<bool>)
    ensures
        fields_v(final(b).fields@) == fields_v(old(b).fields@) + flag(name@, flag_value),
{
    match flag_value {
        Some(x) => b.put(name, Json::Bool(x)),
        None => {
            assert(fields_v(b.fields@) + flag(name@, flag_value) =~= fields_v(b.fields@));
        },
    }
}

/// One guild's subscription as JSON: the flags that are given, then the
/// member lists when there are any.
pub fn subscription_json(s: &GuildSubscription) -> (j: Json)
    ensures
        subscription_matches(j.v(), *s),
{
    let mut b = ObjBuilder::new();
    put_flag(&mut b, "typing", s.typing);
    put_flag(&mut b, "threads", s.threads);
    put_flag(&mut b, "activities", s.activities);
    put_flag(&mut b, "member_updates", s.member_updates);
    assert(fields_v(b.fields@) =~= subscription_flags(*s));
    match &s.channels {
        Some(c) => {
            let ghost before = fields_v(b.fields@);
            let cj = channels_json(c);
            b.put("channels", cj);
            assert(fields_v(b.fields@).drop_last() =~= before);
        },
        None => {},
    }
    b.build()
}

/// The guild subscriptions command (op 37): each guild's subscription
/// under its id, in some order.
pub fn create_op_37(subscriptions: &HashMap<u64, GuildSubscription>) -> (j: Json)
    ensures
        exists|ms: Seq<(Seq<char>, JsonV)>|
            #[trigger] subscriptions_command(ms) == j.v() && keyed_members(
                ms,
                subscriptions@,
                subscription_rel(),
            ),
{
    broadcast use vstd::std_specs::hash::group_hash_axioms;
    let mut b = ObjBuilder::new();
    for p in it: subscriptions.iter()
        invariant
            it.seq() == spec_hash_map_iter(subscriptions).remaining(),
            forall|i: int| 0 <= i < it.index() ==> (#[trigger] fields_v(b.fields@)[i]).0 == decimal(*it.seq()[i].0 as nat)
                && subscription_matches(fields_v(b.fields@)[i].1, *it.seq()[i].1),
            fields_v(b.fields@).len() == it.index(),
    {
        let (k, v) = p;
        let key = decimal_string(*k);
        b.put(key.as_str(), subscription_json(v));
    }
    let ghost m = subscriptions@;
    let ghost seq = spec_hash_map_iter(subscriptions).remaining();
    let ghost ks = seq.map_values(|q: (&u64, &GuildSubscription)| *q.0);
    let ghost ms = fields_v(b.fields@);
    proof {
        assert(keyed_by(ms, m, subscription_rel(), ks)) by {
            assert(ks.to_set() =~= m.dom()) by {
                assert forall|k: u64| m.contains_key(k) implies ks.to_set().contains(k) by {
                    assert(seq.contains((&k, &m[k])));
                    let i = choose|i: int| 0 <= i < seq.len() && seq[i] == (&k, &m[k]);
                    assert(ks[i] == k);
                }
                assert forall|k: u64| ks.to_set().contains(k) implies m.contains_key(k) by {
                    let i = choose|i: int| 0 <= i < ks.len() && ks[i] == k;
                    assert(m.contains_key(*seq[i].0));
                }
            }
            assert forall|i: int, j: int| 0 <= i < ks.len() && 0 <= j < ks.len() && i != j implies ks[i] != ks[j] by {
                assert(m.contains_key(*seq[i].0) && m[*seq[i].0] == *seq[i].1);
                assert(m.contains_key(*seq[j].0) && m[*seq[j].0] == *seq[j].1);
            }
            assert forall|i: int| 0 <= i < ks.len() implies #[trigger] ms[i].0 == decimal(ks[i] as nat)
                && (subscription_rel())(ms[i].1, m[ks[i]]) by {
                assert(m.contains_key(*seq[i].0) && m[*seq[i].0] == *seq[i].1);
            }
        }
    }
    let d = b.build();
    let j = message(37, {
        let mut top = ObjBuilder::new();
        top.put("subscriptions", d);
        top.build()
    });
    assert(subscriptions_command(ms) == j.v());
    j
}

} // verus!
