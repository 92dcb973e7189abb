//! The shard registry as the bot reads it: per-shard connection stage and
//! measured latency, the latency command's reply, and the status poller's
//! per-tick log lines.

use vstd::prelude::*;
use crate::decimal::spec_decimal;
use crate::decimal::u64_to_decimal;

verus! {

/// Connection stage of one shard, as the gateway client reports it.
#[derive(Clone, Copy, PartialEq, Eq, Structural, Debug)]
pub enum Stage {
    Connected,
    Connecting,
    Disconnected,
    Handshake,
    Identifying,
    Resuming,
}

impl Stage {
    /// The stage's display name.
    pub open spec fn spec_name(self) -> Seq<char> {
        match self {
            Stage::Connected => "Connected"@,
            Stage::Connecting => "Connecting"@,
            Stage::Disconnected => "Disconnected"@,
            Stage::Handshake => "Handshake"@,
            Stage::Identifying => "Identifying"@,
            Stage::Resuming => "Resuming"@,
        }
    }

    /// Renders the stage's display name.
    pub fn name(&self) -> (r: &'static str)
        ensures
            r@ == self.spec_name(),
    {
        match self {
            Stage::Connected => "Connected",
            Stage::Connecting => "Connecting",
            Stage::Disconnected => "Disconnected",
            Stage::Handshake => "Handshake",
            Stage::Identifying => "Identifying",
            Stage::Resuming => "Resuming",
        }
    }
}

/// One shard's record: its numeric id, its connection stage, and its
/// measured round-trip latency in whole milliseconds, where one has been
/// measured yet.
#[derive(Clone, Copy, PartialEq, Eq, Structural, Debug)]
pub struct ShardEntry {
    pub id: u64,
    pub stage: Stage,
    pub latency_millis: Option<u64>,
}

/// The first entry of `s` whose id is `id`, if any.
pub open spec fn spec_lookup(s: Seq<ShardEntry>, id: u64) -> Option<ShardEntry>
    decreases s.len(),
{
    if s.len() == 0 {
        None
    } else if s[0].id == id {
        Some(s[0])
    } else {
        spec_lookup(s.drop_first(), id)
    }
}

/// The table of shard records, in the order the entries were added.
/// The gateway client owns the real table; the bot reads a snapshot of it.
pub struct ShardRegistry {
    entries: Vec<ShardEntry>,
}

impl View for ShardRegistry {
    type V = Seq<ShardEntry>;

    closed spec fn view(&self) -> Seq<ShardEntry> {
        self.entries@
    }
}

impl ShardRegistry {
    /// No two entries share an id.
    pub open spec fn wf(&self) -> bool {
        forall|i: int, j: int|
            0 <= i < j < self@.len() ==> (#[trigger] self@[i]).id != (#[trigger] self@[j]).id
    }

    /// An entry with id `id` is present.
    pub open spec fn spec_contains(&self, id: u64) -> bool {
        exists|i: int| 0 <= i < self@.len() && (#[trigger] self@[i]).id == id
    }

    /// Builds an empty registry.
    pub fn new() -> (r: ShardRegistry)
        ensures
            r@ == Seq::<ShardEntry>::empty(),
            r.wf(),
    {
        ShardRegistry { entries: Vec::new() }
    }

    /// How many shards the registry records.
    pub fn len(&self) -> (r: usize)
        ensures
            r == self@.len(),
    {
        self.entries.len()
    }

    /// The entry at a position, for walking the registry in order.
    pub fn entry_at(&self, i: usize) -> (r: ShardEntry)
        requires
            i < self@.len(),
        ensures
            r == self@[i as int],
    {
        self.entries[i]
    }

    /// Adds a record for a shard not yet present; on a duplicate id the
    /// registry is left unchanged and `false` comes back.
    pub fn insert(&mut self, e: ShardEntry) -> (added: bool)
        requires
            old(self).wf(),
        ensures
            final(self).wf(),
            added == !old(self).spec_contains(e.id),
            added ==> final(self)@ == old(self)@.push(e),
            !added ==> final(self)@ == old(self)@,
    {
        let n = self.entries.len();
        let mut i: usize = 0;
        while i < n
            invariant
                self@ == old(self)@,
                self.wf(),
                n == self@.len(),
                i <= n,
                forall|k: int| 0 <= k < i ==> (#[trigger] self@[k]).id != e.id,
            decreases n - i,
        {
            if self.entries[i].id == e.id {
                return false;
            }
            i += 1;
        }
        self.entries.push(e);
        true
    }

    /// The record for shard `id`, if the registry holds one.
    pub fn get(&self, id: u64) -> (r: Option<ShardEntry>)
        ensures
            r == spec_lookup(self@, id),
    {
        let n = self.entries.len();
        let mut i: usize = 0;
        proof {
            assert(self@.skip(0) =~= self@);
        }
        while i < n
            invariant
                n == self@.len(),
                i <= n,
                spec_lookup(self@, id) == spec_lookup(self@.skip(i as int), id),
            decreases n - i,
        {
            if self.entries[i].id == id {
                proof {
                    assert(self@.skip(i as int)[0] == self@[i as int]);
                }
                return Some(self.entries[i]);
            }
            proof {
                assert(self@.skip(i as int).drop_first() =~= self@.skip(i as int + 1));
            }
            i += 1;
        }
        proof {
            assert(self@.skip(n as int) =~= Seq::<ShardEntry>::empty());
        }
        None
    }
}

/// The latency an entry reports, with a zero-duration fallback where none
/// has been measured yet.
pub open spec fn spec_effective_latency(e: ShardEntry) -> int {
    match e.latency_millis {
        Some(l) => l as int,
        None => 0,
    }
}

/// The reply the latency command sends: an apology where the shard manager
/// handle is missing from the shared context, a miss notice where the
/// caller's shard id has no record, and otherwise the measured latency in
/// milliseconds.
pub open spec fn spec_latency_reply(reg: Option<Seq<ShardEntry>>, shard_id: u64) -> Seq<char> {
    match reg {
        None => "There was a problem getting the shard manager"@,
        Some(s) => match spec_lookup(s, shard_id) {
            None => "No shard found"@,
            Some(e) => "The shard latency is "@ + spec_decimal(spec_effective_latency(e)) + "ms"@,
        },
    }
}

/// The registry a latency request sees, as a sequence of records, where the
/// shared context held one at all.
pub open spec fn spec_registry_view(reg: Option<&ShardRegistry>) -> Option<Seq<ShardEntry>> {
    match reg {
        Some(r) => Some(r@),
        None => None,
    }
}

/// Computes the latency command's reply for the caller's shard.
pub fn latency_reply(reg: Option<&ShardRegistry>, shard_id: u64) -> (r: String)
    ensures
        r@ == spec_latency_reply(spec_registry_view(reg), shard_id),
{
    match reg {
        None => String::from_str("There was a problem getting the shard manager"),
        Some(registry) => match registry.get(shard_id) {
            None => String::from_str("No shard found"),
            Some(e) => {
                let millis = match e.latency_millis {
                    Some(l) => l,
                    None => 0,
                };
                let mut s = String::from_str("The shard latency is ");
                let num = u64_to_decimal(millis);
                s.append(num.as_str());
                s.append("ms");
                proof {
                    assert(s@ =~= spec_latency_reply(spec_registry_view(reg), shard_id));
                }
                s
            },
        },
    }
}

/// One status line of the poller: the shard's id, its stage, and its
/// latency, with an unmeasured latency rendered as such.
pub open spec fn spec_status_line(e: ShardEntry) -> Seq<char> {
    "Shard "@ + spec_decimal(e.id as int) + " is "@ + e.stage.spec_name() + ", latency "@ + (
    match e.latency_millis {
        Some(l) => spec_decimal(l as int) + "ms"@,
        None => "unknown"@,
    })
}

/// Renders one shard's status line.
pub fn status_line(e: &ShardEntry) -> (r: String)
    ensures
        r@ == spec_status_line(*e),
{
    let mut s = String::from_str("Shard ");
    let num = u64_to_decimal(e.id);
    s.append(num.as_str());
    s.append(" is ");
    s.append(e.stage.name());
    s.append(", latency ");
    match e.latency_millis {
        Some(l) => {
            let num = u64_to_decimal(l);
            s.append(num.as_str());
            s.append("ms");
        },
        None => {
            s.append("unknown");
        },
    }
    proof {
        assert(s@ =~= spec_status_line(*e));
    }
    s
}

/// What the poller does on one interval tick: one log line per registry
/// entry, in registry order, and nothing else. The registry is only read.
pub fn status_lines(reg: &ShardRegistry) -> (r: Vec<String>)
    ensures
        r@.len() == reg@.len(),
        forall|i: int| 0 <= i < r@.len() ==> (#[trigger] r@[i])@ == spec_status_line(reg@[i]),
{
    let n = reg.len();
    let mut lines: Vec<String> = Vec::new();
    let mut i: usize = 0;
    while i < n
        invariant
            n == reg@.len(),
            i <= n,
            lines@.len() == i,
            forall|k: int| 0 <= k < i ==> (#[trigger] lines@[k])@ == spec_status_line(reg@[k]),
        decreases n - i,
    {
        let e = reg.entry_at(i);
        let line = status_line(&e);
        lines.push(line);
        i += 1;
    }
    lines
}

} // verus!
