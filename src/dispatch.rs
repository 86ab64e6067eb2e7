use vstd::prelude::*;
use crate::message::MessageType;

verus! {

/// The tag that marks each kind of message on the wire, as ASCII bytes:
/// "HEALTHCHECK", "APPEND_ENTRY" and "REQUEST_VOTE".
pub open spec fn tag_bytes(t: MessageType) -> Seq<u8> {
    match t {
        MessageType::HEALTHCHECK => seq![72u8, 69u8, 65u8, 76u8, 84u8, 72u8, 67u8, 72u8, 69u8, 67u8, 75u8],
        MessageType::APPEND_ENTRY => seq![65u8, 80u8, 80u8, 69u8, 78u8, 68u8, 95u8, 69u8, 78u8, 84u8, 82u8, 89u8],
        MessageType::REQUEST_VOTE => seq![82u8, 69u8, 81u8, 85u8, 69u8, 83u8, 84u8, 95u8, 86u8, 79u8, 84u8, 69u8],
    }
}

/// `tag` occurs in `data` starting at position `i`.
pub open spec fn occurs_at(data: Seq<u8>, tag: Seq<u8>, i: int) -> bool {
    0 <= i && i + tag.len() <= data.len() && data.subrange(i, i + tag.len()) == tag
}

/// `tag` occurs somewhere in `data`.
pub open spec fn occurs_in(data: Seq<u8>, tag: Seq<u8>) -> bool {
    exists|i: int| occurs_at(data, tag, i)
}

/// How an inbound message is routed: by the first of the tags HEALTHCHECK,
/// APPEND_ENTRY and REQUEST_VOTE that occurs in it, or not at all.
pub open spec fn classify(data: Seq<u8>) -> Option<MessageType> {
    if occurs_in(data, tag_bytes(MessageType::HEALTHCHECK)) {
        Some(MessageType::HEALTHCHECK)
    } else if occurs_in(data, tag_bytes(MessageType::APPEND_ENTRY)) {
        Some(MessageType::APPEND_ENTRY)
    } else if occurs_in(data, tag_bytes(MessageType::REQUEST_VOTE)) {
        Some(MessageType::REQUEST_VOTE)
    } else {
        None
    }
}

fn occurs_at_exec(data: &[u8], tag: &[u8], i: usize) -> (r: bool)
    requires
        i + tag@.len() <= data@.len(),
    ensures
        r == occurs_at(data@, tag@, i as int),
{
    let n = data.len();
    let mut j: usize = 0;
    while j < tag.len()
        invariant
            j <= tag@.len(),
            n == data@.len(),
            i + tag@.len() <= n,
            forall|m: int| 0 <= m < j ==> data@[i + m] == tag@[m],
        decreases tag@.len() - j,
    {
        if data[i + j] != tag[j] {
            assert(data@.subrange(i as int, i + tag@.len())[j as int] != tag@[j as int]);
            return false;
        }
        j = j + 1;
    }
    assert(data@.subrange(i as int, i + tag@.len()) =~= tag@);
    true
}

/// Whether `tag` occurs in `data`.
pub fn contains_tag(data: &[u8], tag: &[u8]) -> (r: bool)
    ensures
        r == occurs_in(data@, tag@),
{
    if tag.len() > data.len() {
        assert forall|k: int| !occurs_at(data@, tag@, k) by {}
        return false;
    }
    let last = data.len() - tag.len();
    let mut i: usize = 0;
    loop
        invariant
            last == data@.len() - tag@.len(),
            i <= last,
            forall|k: int| 0 <= k < i ==> !occurs_at(data@, tag@, k),
        ensures
            forall|k: int| 0 <= k <= last ==> !occurs_at(data@, tag@, k),
        decreases last - i,
    {
        if occurs_at_exec(data, tag, i) {
            return true;
        }
        if i == last {
            break;
        }
        i = i + 1;
    }
    assert forall|k: int| !occurs_at(data@, tag@, k) by {
        if 0 <= k && k + tag@.len() <= data@.len() {
            assert(k <= last);
        }
    }
    false
}

/// Decides which handler an inbound message goes to, by the tags it holds.
pub fn classify_message(data: &[u8]) -> (r: Option<MessageType>)
    ensures
        r == classify(data@),
{
    let healthcheck: [u8; 11] = [72u8, 69u8, 65u8, 76u8, 84u8, 72u8, 67u8, 72u8, 69u8, 67u8, 75u8];
    let append_entry: [u8; 12] = [65u8, 80u8, 80u8, 69u8, 78u8, 68u8, 95u8, 69u8, 78u8, 84u8, 82u8, 89u8];
    let request_vote: [u8; 12] = [82u8, 69u8, 81u8, 85u8, 69u8, 83u8, 84u8, 95u8, 86u8, 79u8, 84u8, 69u8];
    assert(healthcheck@ =~= tag_bytes(MessageType::HEALTHCHECK));
    assert(append_entry@ =~= tag_bytes(MessageType::APPEND_ENTRY));
    assert(request_vote@ =~= tag_bytes(MessageType::REQUEST_VOTE));
    if contains_tag(data, healthcheck.as_slice()) {
        Some(MessageType::HEALTHCHECK)
    } else if contains_tag(data, append_entry.as_slice()) {
        Some(MessageType::APPEND_ENTRY)
    } else if contains_tag(data, request_vote.as_slice()) {
        Some(MessageType::REQUEST_VOTE)
    } else {
        None
    }
}

} // verus!
