use vstd::prelude::*;
use std::collections::VecDeque;
use crate::message::{calculate_hash, hash_of};

verus! {

/// One unit of replicated state.
#[derive(Debug, Hash)]
pub struct LogEntry {
    pub leader_term: i32,
    pub leader_id: String,
    pub prev_index: i32,
    pub prev_term: i32,
    pub leader_commit_index: i32,
}

impl Clone for LogEntry {
    fn clone(&self) -> (r: Self)
        ensures
            r == *self,
    {
        LogEntry {
            leader_term: self.leader_term,
            leader_id: self.leader_id.clone(),
            prev_index: self.prev_index,
            prev_term: self.prev_term,
            leader_commit_index: self.leader_commit_index,
        }
    }
}

/// The replicated log: an ordered sequence of entries, index 0 first.
#[derive(Debug, Hash)]
pub struct TheLog {
    pub log_entries: VecDeque<LogEntry>,
}

impl Clone for TheLog {
    fn clone(&self) -> (r: Self)
        ensures
            r@ == self@,
    {
        TheLog { log_entries: self.log_entries.clone() }
    }
}

impl View for TheLog {
    type V = Seq<LogEntry>;

    open spec fn view(&self) -> Seq<LogEntry> {
        self.log_entries@
    }
}

/// Two entries are structurally equal when all their fields are.
pub open spec fn same_fields(a: LogEntry, b: LogEntry) -> bool {
    &&& a.leader_term == b.leader_term
    &&& a.leader_id@ == b.leader_id@
    &&& a.prev_index == b.prev_index
    &&& a.prev_term == b.prev_term
    &&& a.leader_commit_index == b.leader_commit_index
}

/// No-holes rule: the entry may not skip past the current end of the log.
pub open spec fn no_holes_ok(e: LogEntry, log: Seq<LogEntry>) -> bool {
    e.prev_index + 1 <= log.len() - 1
}

/// Continuity rule: the entry's previous term matches the one recorded on the
/// log's last entry.
pub open spec fn prev_term_ok(e: LogEntry, log: Seq<LogEntry>) -> bool
    recommends
        log.len() > 0,
{
    e.prev_term == log.last().prev_term
}

/// Duplicate rule: some entry of the log hashes like the new one.
pub open spec fn has_duplicate(e: LogEntry, log: Seq<LogEntry>) -> bool {
    exists|i: int| 0 <= i < log.len() && hash_of(#[trigger] log[i]) == hash_of(e)
}

/// Whether appending `e` to `log` is accepted: always on an empty log, and
/// otherwise when the no-holes, continuity and duplicate checks all pass.
pub open spec fn accepts(e: LogEntry, log: Seq<LogEntry>) -> bool {
    log.len() == 0 || (no_holes_ok(e, log) && prev_term_ok(e, log) && !has_duplicate(e, log))
}

/// The log after an append attempt of `e`: one entry longer when accepted,
/// unchanged otherwise.
pub open spec fn log_after(e: LogEntry, log: Seq<LogEntry>) -> Seq<LogEntry> {
    if accepts(e, log) {
        log.push(e)
    } else {
        log
    }
}

/// Stale-term rule: the entry's term is lower than the term of the log's last
/// entry.
pub open spec fn earlier_term(e: LogEntry, log: Seq<LogEntry>) -> bool
    recommends
        log.len() > 0,
{
    e.leader_term < log.last().leader_term
}

/// The no-holes check.
pub fn check_no_holes_allowed(entry: LogEntry, log: VecDeque<LogEntry>) -> (r: bool)
    ensures
        r == no_holes_ok(entry, log@),
{
    if entry.prev_index < -1 {
        true
    } else {
        let next: i64 = entry.prev_index as i64 + 2;
        (next as usize) <= log.len()
    }
}

/// The continuity check, on a log with at least one entry.
pub fn check_prev_term(entry: LogEntry, log: VecDeque<LogEntry>) -> (r: bool)
    requires
        log@.len() > 0,
    ensures
        r == prev_term_ok(entry, log@),
{
    let last = log.len() - 1;
    entry.prev_term == log[last].prev_term
}

/// Whether the log holds no entry.
pub fn check_empty_log(log_entries: VecDeque<LogEntry>) -> (r: bool)
    ensures
        r == (log_entries@.len() == 0),
{
    log_entries.len() == 0
}

/// The duplicate check: compares the hash of the new entry with the hash of
/// each entry of the log.
pub fn is_duplicate_entry(entry: LogEntry, log: VecDeque<LogEntry>) -> (r: bool)
    ensures
        r == has_duplicate(entry, log@),
{
    let new_entry_hash = calculate_hash(&entry);
    let mut i: usize = 0;
    while i < log.len()
        invariant
            0 <= i <= log@.len(),
            new_entry_hash == hash_of(entry),
            forall|j: int| 0 <= j < i ==> hash_of(#[trigger] log@[j]) != hash_of(entry),
        decreases log@.len() - i,
    {
        if calculate_hash(&log[i]) == new_entry_hash {
            return true;
        }
        i = i + 1;
    }
    false
}

/// The stale-term check, on a log with at least one entry.
pub fn is_entry_earlier_term(entry: LogEntry, log: VecDeque<LogEntry>) -> (r: bool)
    requires
        log@.len() > 0,
    ensures
        r == earlier_term(entry, log@),
{
    let last = log.len() - 1;
    entry.leader_term < log[last].leader_term
}

/// The stale-term replacement: the entries of an earlier term are discarded
/// and the new entry takes their place, leaving a log of that entry alone.
/// Whether to apply it is the caller's decision.
pub fn replace_existing_entries_earlier_term(entry: LogEntry) -> (r: VecDeque<LogEntry>)
    ensures
        r@ == seq![entry],
{
    let mut new_log: VecDeque<LogEntry> = VecDeque::new();
    new_log.push_back(entry);
    new_log
}

/// A new log made of the given entries followed by `entry`.
pub fn append_entry(entry: LogEntry, log_entries: VecDeque<LogEntry>) -> (r: Result<TheLog, bool>)
    ensures
        r matches Ok(l) && l@ == log_entries@.push(entry),
{
    let mut entries = log_entries;
    entries.push_back(entry);
    Ok(TheLog { log_entries: entries })
}

/// Validates a candidate entry against the log: an empty log accepts any
/// entry; otherwise the no-holes, continuity and duplicate checks run in that
/// order and the first failure rejects.
pub fn validate_log_entry(entry: LogEntry, raft_log: TheLog) -> (r: bool)
    ensures
        r == accepts(entry, raft_log@),
{
    if check_empty_log(raft_log.log_entries.clone()) {
        return true;
    }
    if !check_no_holes_allowed(entry.clone(), raft_log.log_entries.clone()) {
        return false;
    }
    if !check_prev_term(entry.clone(), raft_log.log_entries.clone()) {
        return false;
    }
    !is_duplicate_entry(entry, raft_log.log_entries)
}

/// Attempts to append `entry` to the log: on acceptance the entry is added at
/// the end and `true` returned; on rejection the log is left as it was.
pub fn append_log_entry(entry: LogEntry, raft_log: &mut TheLog) -> (r: bool)
    ensures
        r == accepts(entry, old(raft_log)@),
        final(raft_log)@ == log_after(entry, old(raft_log)@),
{
    let accepted = validate_log_entry(entry.clone(), TheLog { log_entries: raft_log.log_entries.clone() });
    if accepted {
        raft_log.log_entries.push_back(entry);
    }
    accepted
}

/// Structurally equal entries hash identically.
pub proof fn lemma_hash_stable(a: LogEntry, b: LogEntry)
    requires
        same_fields(a, b),
    ensures
        hash_of(a) == hash_of(b),
{
}

/// On a log with at least one entry, an entry whose `prev_index + 1` lies past
/// the last index is rejected, and whether the no-holes check passes depends
/// on `prev_index` alone.
pub proof fn lemma_no_holes_rule(e: LogEntry, f: LogEntry, log: Seq<LogEntry>)
    requires
        log.len() > 0,
        e.prev_index == f.prev_index,
    ensures
        e.prev_index + 1 > log.len() - 1 ==> !accepts(e, log),
        e.prev_index + 1 <= log.len() - 1 ==> no_holes_ok(e, log),
        no_holes_ok(e, log) == no_holes_ok(f, log),
{
}

/// On a log with at least one entry, an accepted entry carries the
/// `prev_term` of the log's last entry, and the continuity check does not
/// depend on the entry's `leader_term`.
pub proof fn lemma_continuity_rule(e: LogEntry, f: LogEntry, log: Seq<LogEntry>)
    requires
        log.len() > 0,
        e.leader_id@ == f.leader_id@,
        e.prev_index == f.prev_index,
        e.prev_term == f.prev_term,
        e.leader_commit_index == f.leader_commit_index,
    ensures
        accepts(e, log) ==> e.prev_term == log.last().prev_term,
        prev_term_ok(e, log) == prev_term_ok(f, log),
{
}

/// Appending an entry and then a structurally equal one rejects the second
/// attempt and leaves the log as the first attempt made it.
pub proof fn lemma_duplicate_rejected(e: LogEntry, f: LogEntry, log: Seq<LogEntry>)
    requires
        same_fields(e, f),
    ensures
        !accepts(f, log_after(e, log)),
        log_after(f, log_after(e, log)) == log_after(e, log),
{
    lemma_hash_stable(e, f);
    let l1 = log_after(e, log);
    if accepts(e, log) {
        assert(l1[log.len() as int] == e);
        assert(has_duplicate(f, l1));
    } else {
        assert(no_holes_ok(e, log) == no_holes_ok(f, log));
        if log.len() > 0 {
            assert(prev_term_ok(e, log) == prev_term_ok(f, log));
            assert(has_duplicate(e, log) == has_duplicate(f, log));
        }
    }
}

/// An empty log accepts any entry and then holds that entry alone.
pub proof fn lemma_bootstrap(e: LogEntry)
    ensures
        accepts(e, Seq::empty()),
        log_after(e, Seq::empty()) == seq![e],
{
    assert(Seq::<LogEntry>::empty().push(e) =~= seq![e]);
}

} // verus!
