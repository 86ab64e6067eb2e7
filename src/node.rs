use vstd::prelude::*;
use std::collections::VecDeque;
use crate::log::TheLog;
use crate::message::{Address, RequestVotePayload, generate_request_vote_payload, vote_payload_for};

verus! {

/// The loopback address 127.0.0.1 as a 32-bit number.
pub const LOCALHOST: u32 = 0x7f00_0001;

/// The number of one-second ticks the election timer counts down from.
pub const ELECTION_TIMEOUT_TICKS: u32 = 10;

/// The other members of the cluster.
#[derive(Debug, Clone, Hash)]
pub struct RaftClusterPeers {
    pub addresses: VecDeque<Address>,
}

/// The fixed pool of addresses a node may bind to: 127.0.0.1, ports 8001 to
/// 8005, in that order.
pub open spec fn candidate_pool() -> Seq<Address> {
    seq![
        Address { ip: LOCALHOST, port: 8001 },
        Address { ip: LOCALHOST, port: 8002 },
        Address { ip: LOCALHOST, port: 8003 },
        Address { ip: LOCALHOST, port: 8004 },
        Address { ip: LOCALHOST, port: 8005 },
    ]
}

/// The candidates other than `bound`, in their order.
pub open spec fn peers_from(candidates: Seq<Address>, bound: Address) -> Seq<Address>
    decreases candidates.len(),
{
    if candidates.len() == 0 {
        Seq::empty()
    } else {
        let rest = peers_from(candidates.drop_last(), bound);
        if candidates.last() == bound {
            rest
        } else {
            rest.push(candidates.last())
        }
    }
}

/// The addresses a node tries, in order, when it binds its listener.
pub fn candidate_addresses() -> (r: Vec<Address>)
    ensures
        r@ == candidate_pool(),
{
    let mut v: Vec<Address> = Vec::new();
    v.push(Address { ip: LOCALHOST, port: 8001 });
    v.push(Address { ip: LOCALHOST, port: 8002 });
    v.push(Address { ip: LOCALHOST, port: 8003 });
    v.push(Address { ip: LOCALHOST, port: 8004 });
    v.push(Address { ip: LOCALHOST, port: 8005 });
    assert(v@ =~= candidate_pool());
    v
}

/// The peer set of a node bound to `bound`: every candidate address but that
/// one.
pub fn raft_cluster_peers(candidates: &Vec<Address>, bound: Address) -> (r: RaftClusterPeers)
    ensures
        r.addresses@ == peers_from(candidates@, bound),
{
    let mut addresses: VecDeque<Address> = VecDeque::new();
    let mut i: usize = 0;
    while i < candidates.len()
        invariant
            i <= candidates@.len(),
            addresses@ == peers_from(candidates@.subrange(0, i as int), bound),
        decreases candidates@.len() - i,
    {
        let address = candidates[i];
        proof {
            assert(candidates@.subrange(0, i + 1).drop_last() =~= candidates@.subrange(0, i as int));
        }
        if address != bound {
            addresses.push_back(address);
        }
        i = i + 1;
    }
    assert(candidates@.subrange(0, candidates@.len() as int) =~= candidates@);
    RaftClusterPeers { addresses }
}

/// A node's address is in its peer set exactly when it is a candidate other
/// than the one the node bound to.
pub proof fn lemma_peers_exclude_bound(candidates: Seq<Address>, bound: Address, a: Address)
    ensures
        peers_from(candidates, bound).contains(a) <==> (candidates.contains(a) && a != bound),
    decreases candidates.len(),
{
    if candidates.len() > 0 {
        let init = candidates.drop_last();
        lemma_peers_exclude_bound(init, bound, a);
        assert(candidates =~= init.push(candidates.last()));
        if candidates.contains(a) && a != bound && !init.contains(a) {
            let k = choose|k: int| 0 <= k < candidates.len() && candidates[k] == a;
            if k < init.len() {
                assert(init[k] == a);
            }
        }
        if init.contains(a) {
            let k = choose|k: int| 0 <= k < init.len() && init[k] == a;
            assert(candidates[k] == a);
        }
        let rest = peers_from(init, bound);
        if candidates.last() != bound {
            if rest.push(candidates.last()).contains(a) && !rest.contains(a) {
                let k = choose|k: int| 0 <= k < rest.len() + 1 && rest.push(candidates.last())[k] == a;
                assert(k == rest.len());
            }
            if rest.contains(a) {
                let k = choose|k: int| 0 <= k < rest.len() && rest[k] == a;
                assert(rest.push(candidates.last())[k] == a);
            }
            assert(rest.push(candidates.last())[rest.len() as int] == candidates.last());
            assert(candidates[candidates.len() - 1] == candidates.last());
        }
    }
}

/// What the election timer reports after a tick.
#[derive(Debug, Clone, Copy, PartialEq, Eq, Structural)]
pub enum TimerEvent {
    /// Still counting down.
    Counting,
    /// The countdown reached zero: a vote request goes to every peer, and the
    /// timer has restarted.
    Expired,
}

/// The election timer of a follower: a countdown of one-second ticks that,
/// on reaching zero, triggers a vote broadcast and restarts. Nothing resets it
/// early: it fires on a fixed cadence whatever the leader does.
#[derive(Debug, Clone, Copy, PartialEq, Eq, Structural)]
pub struct ElectionTimer {
    pub remaining: u32,
}

impl ElectionTimer {
    /// A timer at the start of its countdown.
    pub fn new() -> (r: ElectionTimer)
        ensures
            r.remaining == ELECTION_TIMEOUT_TICKS,
    {
        ElectionTimer { remaining: ELECTION_TIMEOUT_TICKS }
    }

    /// One tick of the countdown.
    pub fn tick(&mut self) -> (r: TimerEvent)
        ensures
            old(self).remaining > 1 ==> final(self).remaining == old(self).remaining - 1 && r
                == TimerEvent::Counting,
            old(self).remaining <= 1 ==> final(self).remaining == ELECTION_TIMEOUT_TICKS && r
                == TimerEvent::Expired,
    {
        if self.remaining > 1 {
            self.remaining = self.remaining - 1;
            TimerEvent::Counting
        } else {
            self.remaining = ELECTION_TIMEOUT_TICKS;
            TimerEvent::Expired
        }
    }
}

/// One vote request of a broadcast: where it goes and what it carries.
#[derive(Debug, Clone, Copy, PartialEq, Eq, Structural)]
pub struct VoteRequest {
    pub dest: Address,
    pub payload: RequestVotePayload,
}

/// The vote requests of one broadcast: one per peer, in the peer set's order,
/// each carrying the payload built from the current log.
pub fn broadcast_request_vote(peers: &RaftClusterPeers, raft_log: &TheLog) -> (r: Vec<VoteRequest>)
    requires
        raft_log@.len() == 0 || raft_log@.last().leader_term < i32::MAX,
    ensures
        r@.len() == peers.addresses@.len(),
        forall|i: int|
            0 <= i < r@.len() ==> (#[trigger] r@[i]).dest == peers.addresses@[i] && r@[i].payload
                == vote_payload_for(raft_log@),
{
    let payload = generate_request_vote_payload(raft_log.clone());
    let mut requests: Vec<VoteRequest> = Vec::new();
    let mut i: usize = 0;
    while i < peers.addresses.len()
        invariant
            i <= peers.addresses@.len(),
            payload == vote_payload_for(raft_log@),
            requests@.len() == i,
            forall|j: int|
                0 <= j < i ==> (#[trigger] requests@[j]).dest == peers.addresses@[j]
                    && requests@[j].payload == payload,
        decreases peers.addresses@.len() - i,
    {
        requests.push(VoteRequest { dest: peers.addresses[i], payload });
        i = i + 1;
    }
    requests
}

/// The background task a node runs for its whole life.
#[derive(Debug, Clone, Copy, PartialEq, Eq, Structural)]
pub enum BackgroundTask {
    /// A leader drains the pending queue into the log.
    LeaderWorkload,
    /// A follower runs the election timer.
    ElectionTimer,
}

/// The task a node starts with, from the role it was given at startup.
pub fn background_task(is_leader: bool) -> (r: BackgroundTask)
    ensures
        r == (if is_leader {
            BackgroundTask::LeaderWorkload
        } else {
            BackgroundTask::ElectionTimer
        }),
{
    if is_leader {
        BackgroundTask::LeaderWorkload
    } else {
        BackgroundTask::ElectionTimer
    }
}

} // verus!
