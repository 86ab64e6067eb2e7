use vstd::prelude::*;
use std::hash::{Hash, Hasher};
use std::collections::VecDeque;
use crate::log::{LogEntry, TheLog, accepts, log_after, append_log_entry};

verus! {

/// The kind of a message; its name is the tag that marks it on the wire.
#[allow(non_camel_case_types)]
#[derive(Debug, Clone, Copy, PartialEq, Eq, Structural, Hash)]
pub enum MessageType {
    HEALTHCHECK,
    APPEND_ENTRY,
    REQUEST_VOTE,
}

/// An IPv4 socket address: the address as a 32-bit number, most significant
/// octet first, and a port.
#[derive(Debug, Clone, Copy, PartialEq, Eq, Structural, Hash)]
pub struct Address {
    pub ip: u32,
    pub port: u16,
}

/// A generic message with a text payload.
#[derive(Debug, Clone, Hash)]
pub struct Message {
    pub src_id: u64,
    pub src_addr: Address,
    pub msg_type: MessageType,
    pub payload: String,
}

/// The canned reply to a healthcheck.
#[derive(Debug, Clone, Hash)]
pub struct HealthcheckResponse {
    pub msg_type: MessageType,
    pub payload: String,
}

/// The payload of an APPEND_ENTRY request: one new entry and the batch that
/// accompanies it.
#[derive(Debug, Clone, Hash)]
pub struct AppendEntryRequest {
    pub log_entry: LogEntry,
    pub entries: TheLog,
}

/// An APPEND_ENTRY request.
#[derive(Debug, Clone, Hash)]
pub struct AppendEntryRequestMessage {
    pub src_id: u64,
    pub src_addr: Address,
    pub msg_type: MessageType,
    pub payload: AppendEntryRequest,
}

/// A REQUEST_VOTE request.
#[derive(Debug, Clone, Hash)]
pub struct RequestVoteMessage {
    pub src_id: u64,
    pub src_addr: Address,
    pub msg_type: MessageType,
    pub payload: RequestVotePayload,
}

/// The payload of a REQUEST_VOTE request.
#[derive(Debug, Clone, Copy, PartialEq, Eq, Structural, Hash)]
pub struct RequestVotePayload {
    pub last_log_index: i32,
    pub last_log_term: i32,
    pub term: i32,
}

/// The payload of a reply to a REQUEST_VOTE request.
#[derive(Debug, Clone, Copy, PartialEq, Eq, Structural, Hash)]
pub struct RequestVoteReplyPayload {
    pub term: i32,
    pub granted: bool,
}

/// A reply to a REQUEST_VOTE request.
#[derive(Debug, Clone, Hash)]
pub struct RequestVoteReplyMessage {
    pub src_id: u64,
    pub src_addr: Address,
    pub msg_type: MessageType,
    pub payload: RequestVoteReplyPayload,
}

/// What one drain cycle of the pending queue did.
#[derive(Debug, Clone, Copy, PartialEq, Eq, Structural)]
pub enum DrainOutcome {
    /// The queue was empty: nothing changed.
    QueueEmpty,
    /// The front message's entry was accepted and appended to the log.
    Appended,
    /// The front message's entry was rejected: the log is unchanged.
    Rejected,
}

/// What the standard library's default hasher yields for a log entry with
/// these fields. It depends on the field values alone.
pub uninterp spec fn entry_hash(
    leader_term: i32,
    leader_id: Seq<char>,
    prev_index: i32,
    prev_term: i32,
    leader_commit_index: i32,
) -> u64;

/// The hash of a log entry, as a function of its fields.
pub open spec fn hash_of(e: LogEntry) -> u64 {
    entry_hash(e.leader_term, e.leader_id@, e.prev_index, e.prev_term, e.leader_commit_index)
}

/// Relies on `std::collections::hash_map::DefaultHasher` (created with `new`,
/// which takes no random seed) fed with the entry's derived `Hash`: the result
/// depends on the entry's field values alone.
#[verifier::external_body]
pub fn calculate_hash(t: &LogEntry) -> (r: u64)
    ensures
        r == entry_hash(t.leader_term, t.leader_id@, t.prev_index, t.prev_term, t.leader_commit_index),
{
    let mut hasher = std::collections::hash_map::DefaultHasher::new();
    t.hash(&mut hasher);
    hasher.finish()
}

/// The vote request a node sends for the given log: term 1 on an empty log,
/// otherwise the last entry's commit index and term, and that term plus one.
pub open spec fn vote_payload_for(log: Seq<LogEntry>) -> RequestVotePayload {
    if log.len() == 0 {
        RequestVotePayload { last_log_index: 0, last_log_term: 0, term: 1 }
    } else {
        RequestVotePayload {
            last_log_index: log.last().leader_commit_index,
            last_log_term: log.last().leader_term,
            term: (log.last().leader_term + 1) as i32,
        }
    }
}

/// Builds the vote request payload from the current log.
pub fn generate_request_vote_payload(raft_log: TheLog) -> (r: RequestVotePayload)
    requires
        raft_log@.len() == 0 || raft_log@.last().leader_term < i32::MAX,
    ensures
        r == vote_payload_for(raft_log@),
{
    let mut entries = raft_log.log_entries;
    match entries.pop_back() {
        None => RequestVotePayload { last_log_index: 0, last_log_term: 0, term: 1 },
        Some(last_log) => RequestVotePayload {
            last_log_index: last_log.leader_commit_index,
            last_log_term: last_log.leader_term,
            term: last_log.leader_term + 1,
        },
    }
}

/// The canned healthcheck reply, `{HEALTHCHECK, "ok"}`.
pub fn get_healthcheck_resp_msg() -> (r: HealthcheckResponse)
    ensures
        r.msg_type == MessageType::HEALTHCHECK,
        r.payload@ == "ok"@,
{
    HealthcheckResponse { msg_type: MessageType::HEALTHCHECK, payload: String::from_str("ok") }
}

/// The canned APPEND_ENTRY payload that the test client sends: an entry of
/// term 1 from leader "1234", with a batch holding that entry alone.
pub fn get_dummy_append_entry_req() -> (r: AppendEntryRequest)
    ensures
        r.log_entry.leader_term == 1,
        r.log_entry.leader_id@ == "1234"@,
        r.log_entry.prev_index == 0,
        r.log_entry.prev_term == 0,
        r.log_entry.leader_commit_index == 1,
        r.entries@ == seq![r.log_entry],
{
    let dummy_log_entry = LogEntry {
        leader_term: 1,
        leader_id: String::from_str("1234"),
        prev_index: 0,
        prev_term: 0,
        leader_commit_index: 1,
    };
    let mut log: VecDeque<LogEntry> = VecDeque::new();
    log.push_back(dummy_log_entry.clone());
    AppendEntryRequest { log_entry: dummy_log_entry, entries: TheLog { log_entries: log } }
}

/// The canned REQUEST_VOTE payload that the test client sends.
pub fn get_dummy_request_vote() -> (r: RequestVotePayload)
    ensures
        r == (RequestVotePayload { last_log_index: 1, last_log_term: 1, term: 1 }),
{
    RequestVotePayload { last_log_index: 1, last_log_term: 1, term: 1 }
}

/// A healthcheck message from the given sender, with payload "ok".
pub fn healthcheck_message(src_id: u64, src_addr: Address) -> (r: Message)
    ensures
        r.src_id == src_id,
        r.src_addr == src_addr,
        r.msg_type == MessageType::HEALTHCHECK,
        r.payload@ == "ok"@,
{
    Message { src_id, src_addr, msg_type: MessageType::HEALTHCHECK, payload: String::from_str("ok") }
}

/// An APPEND_ENTRY request from the given sender carrying `payload`.
pub fn append_entry_message(src_id: u64, src_addr: Address, payload: AppendEntryRequest) -> (r:
    AppendEntryRequestMessage)
    ensures
        r.src_id == src_id,
        r.src_addr == src_addr,
        r.msg_type == MessageType::APPEND_ENTRY,
        r.payload == payload,
{
    AppendEntryRequestMessage { src_id, src_addr, msg_type: MessageType::APPEND_ENTRY, payload }
}

/// A REQUEST_VOTE request from the given sender carrying `payload`.
pub fn request_vote_message(src_id: u64, src_addr: Address, payload: RequestVotePayload) -> (r:
    RequestVoteMessage)
    ensures
        r.src_id == src_id,
        r.src_addr == src_addr,
        r.msg_type == MessageType::REQUEST_VOTE,
        r.payload == payload,
{
    RequestVoteMessage { src_id, src_addr, msg_type: MessageType::REQUEST_VOTE, payload }
}

/// The reply to a REQUEST_VOTE request: the vote is always granted and the
/// request's term is echoed back. No per-term record of votes is kept.
pub fn request_vote_reply(request: &RequestVoteMessage, src_id: u64, src_addr: Address) -> (r:
    RequestVoteReplyMessage)
    ensures
        r.src_id == src_id,
        r.src_addr == src_addr,
        r.msg_type == MessageType::REQUEST_VOTE,
        r.payload.granted,
        r.payload.term == request.payload.term,
{
    RequestVoteReplyMessage {
        src_id,
        src_addr,
        msg_type: MessageType::REQUEST_VOTE,
        payload: RequestVoteReplyPayload { term: request.payload.term, granted: true },
    }
}

/// One drain cycle of the pending queue: pops the front message, if any, and
/// offers its entry to the log. The popped message is gone whatever the
/// outcome: a rejected entry is not retried.
pub fn process_next_message(
    queue: &mut VecDeque<AppendEntryRequestMessage>,
    raft_log: &mut TheLog,
) -> (r: DrainOutcome)
    ensures
        old(queue)@.len() == 0 ==> {
            &&& r == DrainOutcome::QueueEmpty
            &&& final(queue)@ == old(queue)@
            &&& final(raft_log)@ == old(raft_log)@
        },
        old(queue)@.len() > 0 ==> {
            let e = old(queue)@[0].payload.log_entry;
            &&& final(queue)@ == old(queue)@.subrange(1, old(queue)@.len() as int)
            &&& final(raft_log)@ == log_after(e, old(raft_log)@)
            &&& r == (if accepts(e, old(raft_log)@) {
                DrainOutcome::Appended
            } else {
                DrainOutcome::Rejected
            })
        },
{
    match queue.pop_front() {
        None => DrainOutcome::QueueEmpty,
        Some(next_message) => {
            if append_log_entry(next_message.payload.log_entry, raft_log) {
                DrainOutcome::Appended
            } else {
                DrainOutcome::Rejected
            }
        },
    }
}

} // verus!
