use std::collections::VecDeque;
use poncho_raft::cli::arguments_for_address;
use poncho_raft::dispatch::{classify_message, contains_tag};
use poncho_raft::log::{LogEntry, TheLog};
use poncho_raft::message::{Address, MessageType, RequestVotePayload};
use poncho_raft::node::{
    background_task, broadcast_request_vote, candidate_addresses, raft_cluster_peers,
    BackgroundTask, ElectionTimer, RaftClusterPeers, TimerEvent, ELECTION_TIMEOUT_TICKS, LOCALHOST,
};
use poncho_raft::store::value_or_bad_key;

#[test]
fn classify_by_tag() {
    let hc = br#"{"src_id":1,"src_addr":"10.1.0.1:1234","msg_type":"HEALTHCHECK","payload":"ok"}"#;
    assert_eq!(classify_message(hc), Some(MessageType::HEALTHCHECK));
    let ae = br#"{"msg_type":"APPEND_ENTRY","payload":{}}"#;
    assert_eq!(classify_message(ae), Some(MessageType::APPEND_ENTRY));
    let rv = br#"{"msg_type":"REQUEST_VOTE","payload":{"term":3}}"#;
    assert_eq!(classify_message(rv), Some(MessageType::REQUEST_VOTE));
    assert_eq!(classify_message(b"hello"), None);
    assert_eq!(classify_message(b""), None);
    assert_eq!(classify_message(b"HEALTHCHEC"), None);
}

#[test]
fn classify_first_tag_wins() {
    assert_eq!(classify_message(b"REQUEST_VOTE APPEND_ENTRY"), Some(MessageType::APPEND_ENTRY));
    assert_eq!(classify_message(b"APPEND_ENTRY HEALTHCHECK"), Some(MessageType::HEALTHCHECK));
}

#[test]
fn contains_tag_edges() {
    assert!(contains_tag(b"abc", b""));
    assert!(contains_tag(b"abc", b"abc"));
    assert!(contains_tag(b"xxabc", b"abc"));
    assert!(!contains_tag(b"ab", b"abc"));
    assert!(!contains_tag(b"abxc", b"abc"));
}

#[test]
fn election_timer_expires_on_tenth_tick_with_no_peers() {
    let mut timer = ElectionTimer::new();
    assert_eq!(timer.remaining, ELECTION_TIMEOUT_TICKS);
    for _ in 0..9 {
        assert_eq!(timer.tick(), TimerEvent::Counting);
    }
    assert_eq!(timer.tick(), TimerEvent::Expired);
    assert_eq!(timer.remaining, 10);
    let peers = RaftClusterPeers { addresses: VecDeque::new() };
    let log = TheLog { log_entries: VecDeque::new() };
    let requests = broadcast_request_vote(&peers, &log);
    assert_eq!(requests.len(), 0);
    for _ in 0..9 {
        assert_eq!(timer.tick(), TimerEvent::Counting);
    }
    assert_eq!(timer.tick(), TimerEvent::Expired);
}

#[test]
fn broadcast_one_request_per_peer() {
    let peers = raft_cluster_peers(&candidate_addresses(), Address { ip: LOCALHOST, port: 8003 });
    let mut log = TheLog { log_entries: VecDeque::new() };
    log.log_entries.push_back(LogEntry {
        leader_term: 4,
        leader_id: String::from("a"),
        prev_index: 0,
        prev_term: 0,
        leader_commit_index: 7,
    });
    let requests = broadcast_request_vote(&peers, &log);
    assert_eq!(requests.len(), 4);
    let ports: Vec<u16> = requests.iter().map(|r| r.dest.port).collect();
    assert_eq!(ports, vec![8001, 8002, 8004, 8005]);
    for r in &requests {
        assert_eq!(r.payload, RequestVotePayload { last_log_index: 7, last_log_term: 4, term: 5 });
    }
}

#[test]
fn peers_exclude_bound_address() {
    let pool = candidate_addresses();
    assert_eq!(pool.len(), 5);
    assert_eq!(pool[0], Address { ip: 0x7f00_0001, port: 8001 });
    assert_eq!(pool[4], Address { ip: 0x7f00_0001, port: 8005 });
    let peers = raft_cluster_peers(&pool, Address { ip: LOCALHOST, port: 8001 });
    let ports: Vec<u16> = peers.addresses.iter().map(|a| a.port).collect();
    assert_eq!(ports, vec![8002, 8003, 8004, 8005]);
    let outside = raft_cluster_peers(&pool, Address { ip: LOCALHOST, port: 9000 });
    assert_eq!(outside.addresses.len(), 5);
}

#[test]
fn role_decides_background_task() {
    assert_eq!(background_task(true), BackgroundTask::LeaderWorkload);
    assert_eq!(background_task(false), BackgroundTask::ElectionTimer);
}

#[test]
fn absent_key_reads_sentinel() {
    assert_eq!(value_or_bad_key(None), "Bad-Key!");
    assert_eq!(value_or_bad_key(Some(String::from("[]"))), "[]");
}

#[test]
fn client_arguments() {
    let a = arguments_for_address(String::from("127.0.0.1:8001"));
    assert_eq!(a.address, "127.0.0.1:8001");
    assert_eq!(a.key, "");
    assert_eq!(a.value, "");
}
