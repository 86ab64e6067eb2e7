use std::collections::VecDeque;
use poncho_raft::log::{LogEntry, TheLog};
use poncho_raft::message::{
    append_entry_message, generate_request_vote_payload, get_dummy_append_entry_req,
    get_dummy_request_vote, get_healthcheck_resp_msg, healthcheck_message, process_next_message,
    request_vote_message, request_vote_reply, Address, AppendEntryRequestMessage, DrainOutcome,
    Message, MessageType, RequestVotePayload,
};

fn entry(leader_term: i32, leader_id: &str, prev_index: i32, prev_term: i32, commit: i32) -> LogEntry {
    LogEntry {
        leader_term,
        leader_id: String::from(leader_id),
        prev_index,
        prev_term,
        leader_commit_index: commit,
    }
}

fn sender() -> Address {
    Address { ip: 0x0a01_0001, port: 1234 }
}

fn append_msg(e: LogEntry) -> AppendEntryRequestMessage {
    let mut batch = VecDeque::new();
    batch.push_back(e.clone());
    let payload = poncho_raft::message::AppendEntryRequest {
        log_entry: e,
        entries: TheLog { log_entries: batch },
    };
    append_entry_message(1234567890, sender(), payload)
}

#[test]
fn test_push_new_message() {
    let message = Message {
        src_id: 1234567890,
        src_addr: sender(),
        msg_type: MessageType::HEALTHCHECK,
        payload: String::from("ok"),
    };
    let mut deque: VecDeque<Message> = VecDeque::new();
    deque.push_back(message);
    assert_eq!(deque.len(), 1);
}

#[test]
fn healthcheck_reply_is_ok() {
    let r = get_healthcheck_resp_msg();
    assert_eq!(r.msg_type, MessageType::HEALTHCHECK);
    assert_eq!(r.payload, "ok");
}

#[test]
fn healthcheck_message_fields() {
    let m = healthcheck_message(7, sender());
    assert_eq!(m.src_id, 7);
    assert_eq!(m.src_addr, sender());
    assert_eq!(m.msg_type, MessageType::HEALTHCHECK);
    assert_eq!(m.payload, "ok");
}

#[test]
fn dummy_requests() {
    let a = get_dummy_append_entry_req();
    assert_eq!(a.log_entry.leader_term, 1);
    assert_eq!(a.log_entry.leader_id, "1234");
    assert_eq!(a.log_entry.prev_index, 0);
    assert_eq!(a.log_entry.prev_term, 0);
    assert_eq!(a.log_entry.leader_commit_index, 1);
    assert_eq!(a.entries.log_entries.len(), 1);
    assert_eq!(a.entries.log_entries[0].leader_id, "1234");
    let v = get_dummy_request_vote();
    assert_eq!(v, RequestVotePayload { last_log_index: 1, last_log_term: 1, term: 1 });
}

#[test]
fn vote_payload_from_log() {
    let empty = TheLog { log_entries: VecDeque::new() };
    assert_eq!(
        generate_request_vote_payload(empty),
        RequestVotePayload { last_log_index: 0, last_log_term: 0, term: 1 }
    );
    let mut log = TheLog { log_entries: VecDeque::new() };
    log.log_entries.push_back(entry(2, "a", 0, 0, 4));
    log.log_entries.push_back(entry(5, "b", 1, 2, 9));
    assert_eq!(
        generate_request_vote_payload(log),
        RequestVotePayload { last_log_index: 9, last_log_term: 5, term: 6 }
    );
}

#[test]
fn request_vote_is_always_granted_with_term_echoed() {
    for term in [-3, 0, 1, 42, i32::MAX] {
        let req = request_vote_message(
            99,
            sender(),
            RequestVotePayload { last_log_index: 8, last_log_term: 2, term },
        );
        assert_eq!(req.msg_type, MessageType::REQUEST_VOTE);
        let me = Address { ip: 0x7f00_0001, port: 8002 };
        let reply = request_vote_reply(&req, 5, me);
        assert!(reply.payload.granted);
        assert_eq!(reply.payload.term, term);
        assert_eq!(reply.msg_type, MessageType::REQUEST_VOTE);
        assert_eq!(reply.src_id, 5);
        assert_eq!(reply.src_addr, me);
    }
}

#[test]
fn drain_empty_queue_is_noop() {
    let mut queue: VecDeque<AppendEntryRequestMessage> = VecDeque::new();
    let mut log = TheLog { log_entries: VecDeque::new() };
    assert_eq!(process_next_message(&mut queue, &mut log), DrainOutcome::QueueEmpty);
    assert!(queue.is_empty());
    assert!(log.log_entries.is_empty());
}

#[test]
fn drain_appends_then_rejects_duplicate() {
    let mut queue: VecDeque<AppendEntryRequestMessage> = VecDeque::new();
    queue.push_back(append_msg(entry(1, "A", 0, 0, 1)));
    queue.push_back(append_msg(entry(1, "A", 0, 0, 1)));
    let mut log = TheLog { log_entries: VecDeque::new() };
    assert_eq!(process_next_message(&mut queue, &mut log), DrainOutcome::Appended);
    assert_eq!(queue.len(), 1);
    assert_eq!(log.log_entries.len(), 1);
    assert_eq!(process_next_message(&mut queue, &mut log), DrainOutcome::Rejected);
    assert_eq!(queue.len(), 0);
    assert_eq!(log.log_entries.len(), 1);
}

#[test]
fn drain_takes_front_first() {
    let mut queue: VecDeque<AppendEntryRequestMessage> = VecDeque::new();
    queue.push_back(append_msg(entry(1, "first", 0, 0, 1)));
    queue.push_back(append_msg(entry(1, "second", -2, 0, 1)));
    let mut log = TheLog { log_entries: VecDeque::new() };
    process_next_message(&mut queue, &mut log);
    assert_eq!(log.log_entries[0].leader_id, "first");
    assert_eq!(queue[0].payload.log_entry.leader_id, "second");
    assert_eq!(process_next_message(&mut queue, &mut log), DrainOutcome::Appended);
    assert_eq!(log.log_entries[1].leader_id, "second");
}
