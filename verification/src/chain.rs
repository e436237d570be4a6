//! The hash chain: the canonical digest of an entry, validity of a whole
//! chain of entries, and the verifier that replays a chain and reports the
//! first entry at which it is broken.

use vstd::prelude::*;
use vstd::utf8::encode_utf8;

use crate::crypto::{hex_of, sha256, sha256_of, to_hex};
use crate::encode::{be_bytes_u64, push_be_bytes_u64};
use crate::types::{
    entry_views, event_label, event_label_of, opt_text, resource_label, resource_label_of, AuditEntry,
    AuditEntryView, EventType, ResourceType,
};

verus! {

/// The canonical byte string an entry digest is computed over: the entry's
/// own fields in a fixed order, followed by the digest of the preceding
/// entry (nothing when the entry is the first of the chain). Text fields
/// contribute their UTF-8 bytes; the timestamp its big-endian bytes; the
/// event and resource kinds their canonical labels.
#[verifier::opaque]
pub open spec fn entry_preimage(
    id: Seq<char>,
    timestamp: u64,
    event_type: EventType,
    actor: Seq<char>,
    resource_type: ResourceType,
    resource_id: Seq<char>,
    action: Seq<char>,
    details: Seq<char>,
    previous_hash: Option<Seq<char>>,
) -> Seq<u8> {
    encode_utf8(id) + be_bytes_u64(timestamp) + encode_utf8(event_label_of(event_type))
        + encode_utf8(actor) + encode_utf8(resource_label_of(resource_type))
        + encode_utf8(resource_id) + encode_utf8(action) + encode_utf8(details) + match previous_hash {
        Some(p) => encode_utf8(p),
        None => Seq::empty(),
    }
}

/// The canonical digest of an entry, rendered as lowercase hexadecimal text:
/// SHA-256 over [`entry_preimage`].
pub open spec fn entry_hash_text(
    id: Seq<char>,
    timestamp: u64,
    event_type: EventType,
    actor: Seq<char>,
    resource_type: ResourceType,
    resource_id: Seq<char>,
    action: Seq<char>,
    details: Seq<char>,
    previous_hash: Option<Seq<char>>,
) -> Seq<char> {
    hex_of(
        sha256_of(
            entry_preimage(
                id,
                timestamp,
                event_type,
                actor,
                resource_type,
                resource_id,
                action,
                details,
                previous_hash,
            ),
        ),
    )
}

/// The canonical digest of an entry's fields against a given predecessor
/// digest (which need not be the one the entry stores).
pub open spec fn entry_hash_of(e: AuditEntryView, previous_hash: Option<Seq<char>>) -> Seq<char> {
    entry_hash_text(
        e.id,
        e.timestamp,
        e.event_type,
        e.actor,
        e.resource_type,
        e.resource_id,
        e.action,
        e.details,
        previous_hash,
    )
}

/// Appends a byte slice to a buffer.
pub(crate) fn push_bytes(out: &mut Vec<u8>, s: &[u8])
    ensures
        final(out)@ == old(out)@ + s@,
{
    out.extend_from_slice(s);
    proof {
        assert(out@ =~= old(out)@ + s@);
    }
}

/// The view of an optional borrowed text field.
pub open spec fn opt_ref_text(o: Option<&String>) -> Option<Seq<char>> {
    match o {
        Some(s) => Some(s@),
        None => None,
    }
}

/// Computes the canonical digest of an entry's fields and the given
/// predecessor digest, rendered as lowercase hexadecimal text.
pub fn calculate_entry_hash(
    entry_id: &str,
    timestamp: u64,
    event_type: &EventType,
    actor: &str,
    resource_type: &ResourceType,
    resource_id: &str,
    action: &str,
    details: &str,
    previous_hash: Option<&String>,
) -> (r: String)
    ensures
        r@ == entry_hash_text(
            entry_id@,
            timestamp,
            *event_type,
            actor@,
            *resource_type,
            resource_id@,
            action@,
            details@,
            opt_ref_text(previous_hash),
        ),
{
    let mut buf: Vec<u8> = Vec::new();
    push_bytes(&mut buf, entry_id.as_bytes());
    push_be_bytes_u64(&mut buf, timestamp);
    push_bytes(&mut buf, event_label(event_type).as_bytes());
    push_bytes(&mut buf, actor.as_bytes());
    push_bytes(&mut buf, resource_label(resource_type).as_bytes());
    push_bytes(&mut buf, resource_id.as_bytes());
    push_bytes(&mut buf, action.as_bytes());
    push_bytes(&mut buf, details.as_bytes());
    if let Some(p) = previous_hash {
        push_bytes(&mut buf, p.as_str().as_bytes());
    }
    proof {
        reveal(entry_preimage);
        assert(buf@ =~= entry_preimage(
            entry_id@,
            timestamp,
            *event_type,
            actor@,
            *resource_type,
            resource_id@,
            action@,
            details@,
            opt_ref_text(previous_hash),
        ));
    }
    let digest = sha256(buf.as_slice());
    to_hex(digest.as_slice())
}

/// The digest a correctly formed chain presents to the entry at position
/// `i`: nothing at the start, the stored digest of the entry just before it
/// everywhere else.
pub open spec fn prior_hash(s: Seq<AuditEntryView>, i: int) -> Option<Seq<char>> {
    if i == 0 {
        None
    } else {
        Some(s[i - 1].hash)
    }
}

/// Whether the entry at position `i` is sound within the chain: its stored
/// digest is the canonical digest of its fields against its predecessor's
/// stored digest, and its stored predecessor digest is that digest.
pub open spec fn chain_ok_at(s: Seq<AuditEntryView>, i: int) -> bool {
    &&& s[i].hash == entry_hash_of(s[i], prior_hash(s, i))
    &&& s[i].previous_hash == prior_hash(s, i)
}

/// Whether a whole sequence of entries forms an unbroken hash chain.
pub open spec fn valid_chain(s: Seq<AuditEntryView>) -> bool {
    forall|i: int| 0 <= i < s.len() ==> #[trigger] chain_ok_at(s, i)
}

/// The digest the next appended entry must commit to: nothing for an empty
/// chain, the stored digest of the last entry otherwise.
pub open spec fn chain_tail(s: Seq<AuditEntryView>) -> Option<Seq<char>> {
    if s.len() == 0 {
        None
    } else {
        Some(s.last().hash)
    }
}

/// The failure text naming an entry whose stored digest does not match the
/// digest recomputed from its fields.
pub open spec fn hash_mismatch_msg(id: Seq<char>) -> Seq<char> {
    "Hash mismatch in entry: "@ + id
}

/// The failure text naming an entry whose stored predecessor digest does not
/// match the running digest.
pub open spec fn chain_break_msg(id: Seq<char>) -> Seq<char> {
    "Chain integrity broken at entry: "@ + id
}

/// The text reported when the whole chain replays cleanly.
pub open spec fn chain_ok_msg() -> Seq<char> {
    "Audit chain verification successful"@
}

/// The outcome of replaying the chain from position `i` on, every earlier
/// position assumed sound: success, or the message naming the first entry at
/// which the replay fails.
pub open spec fn verify_from(s: Seq<AuditEntryView>, i: int) -> Result<Seq<char>, Seq<char>>
    decreases s.len() - i when 0 <= i <= s.len()
{
    if i >= s.len() {
        Ok(chain_ok_msg())
    } else if s[i].hash != entry_hash_of(s[i], prior_hash(s, i)) {
        Err(hash_mismatch_msg(s[i].id))
    } else if s[i].previous_hash != prior_hash(s, i) {
        Err(chain_break_msg(s[i].id))
    } else {
        verify_from(s, i + 1)
    }
}

/// The outcome of replaying a whole chain.
pub open spec fn verify_outcome(s: Seq<AuditEntryView>) -> Result<Seq<char>, Seq<char>> {
    verify_from(s, 0)
}

/// The views of a verification result's texts.
pub open spec fn result_text(r: Result<String, String>) -> Result<Seq<char>, Seq<char>> {
    match r {
        Ok(m) => Ok(m@),
        Err(m) => Err(m@),
    }
}

/// Replaying from `i` succeeds exactly when every position from `i` on is
/// sound.
proof fn lemma_verify_from_ok(s: Seq<AuditEntryView>, i: int)
    requires
        0 <= i <= s.len(),
    ensures
        verify_from(s, i) is Ok <==> forall|j: int| i <= j < s.len() ==> #[trigger] chain_ok_at(
            s,
            j,
        ),
        verify_from(s, i) is Ok ==> verify_from(s, i) == Ok::<Seq<char>, Seq<char>>(chain_ok_msg()),
    decreases s.len() - i,
{
    if i < s.len() {
        lemma_verify_from_ok(s, i + 1);
        assert(verify_from(s, i) is Ok <==> (chain_ok_at(s, i) && verify_from(s, i + 1) is Ok));
        if chain_ok_at(s, i) && (forall|j: int|
            i + 1 <= j < s.len() ==> #[trigger] chain_ok_at(s, j)) {
            assert forall|j: int| i <= j < s.len() implies #[trigger] chain_ok_at(s, j) by {
                if j == i {
                    assert(chain_ok_at(s, i));
                }
            }
        }
    }
}

/// A replay of the whole chain succeeds exactly when the chain is valid.
pub proof fn lemma_verify_outcome_ok(s: Seq<AuditEntryView>)
    ensures
        verify_outcome(s) is Ok <==> valid_chain(s),
        verify_outcome(s) is Ok ==> verify_outcome(s) == Ok::<Seq<char>, Seq<char>>(
            chain_ok_msg(),
        ),
{
    lemma_verify_from_ok(s, 0);
}

/// When every position before `i` is sound, replaying the whole chain gives
/// the same outcome as replaying from `i`.
proof fn lemma_verify_from_prefix(s: Seq<AuditEntryView>, i: int)
    requires
        0 <= i <= s.len(),
        forall|j: int| 0 <= j < i ==> #[trigger] chain_ok_at(s, j),
    ensures
        verify_from(s, 0) == verify_from(s, i),
    decreases i,
{
    if i > 0 {
        lemma_verify_from_prefix(s, i - 1);
        assert(chain_ok_at(s, i - 1));
        assert(verify_from(s, i - 1) == verify_from(s, i));
    }
}

/// A valid chain has exactly one root: the first entry carries no
/// predecessor digest, and every later entry carries its predecessor's.
pub proof fn lemma_single_root(s: Seq<AuditEntryView>)
    requires
        valid_chain(s),
    ensures
        s.len() > 0 ==> s[0].previous_hash is None,
        forall|i: int| 0 < i < s.len() ==> (#[trigger] s[i].previous_hash) == Some(s[i - 1].hash),
{
    if s.len() > 0 {
        assert(chain_ok_at(s, 0));
    }
    assert forall|i: int| 0 < i < s.len() implies (#[trigger] s[i].previous_hash) == Some(
        s[i - 1].hash,
    ) by {
        assert(chain_ok_at(s, i));
    }
}

/// Tampering with an entry's stored linkage after the fact is detected, and
/// the replay names that entry. In a valid chain, replace the entry at
/// position `i` by one with the same content fields: if its stored digest
/// was changed, the replay reports a digest mismatch there; if its stored
/// predecessor digest was changed, a broken chain there. (Changing a content
/// field changes the digest the replay recomputes, so it is caught by the
/// same mismatch check as long as the altered preimage does not collide with
/// the original under SHA-256 — a computational assumption outside what can
/// be proved here.)
pub proof fn lemma_link_tamper_detected(s: Seq<AuditEntryView>, i: int, e2: AuditEntryView)
    requires
        valid_chain(s),
        0 <= i < s.len(),
        e2.id == s[i].id,
        e2.timestamp == s[i].timestamp,
        e2.event_type == s[i].event_type,
        e2.actor == s[i].actor,
        e2.resource_type == s[i].resource_type,
        e2.resource_id == s[i].resource_id,
        e2.action == s[i].action,
        e2.details == s[i].details,
        e2.hash != s[i].hash || e2.previous_hash != s[i].previous_hash,
    ensures
        verify_outcome(s.update(i, e2)) == Err::<Seq<char>, Seq<char>>(
            if e2.hash != s[i].hash {
                hash_mismatch_msg(s[i].id)
            } else {
                chain_break_msg(s[i].id)
            },
        ),
{
    let t = s.update(i, e2);
    assert forall|j: int| 0 <= j < i implies #[trigger] chain_ok_at(t, j) by {
        assert(chain_ok_at(s, j));
        assert(t[j] == s[j]);
        if j > 0 {
            assert(t[j - 1] == s[j - 1]);
        }
    }
    lemma_verify_from_prefix(t, i);
    assert(chain_ok_at(s, i));
    assert(prior_hash(t, i) == prior_hash(s, i));
    assert(entry_hash_of(e2, prior_hash(t, i)) == entry_hash_of(s[i], prior_hash(s, i)));
    if e2.hash != s[i].hash {
        assert(verify_from(t, i) == Err::<Seq<char>, Seq<char>>(hash_mismatch_msg(s[i].id)));
    } else {
        assert(e2.previous_hash != prior_hash(t, i));
        assert(verify_from(t, i) == Err::<Seq<char>, Seq<char>>(chain_break_msg(s[i].id)));
    }
}

/// Replays `entries` in stored order, recomputing every digest: returns
/// success exactly when the stored sequence forms an unbroken hash chain,
/// and otherwise the failure text naming the first entry at which the replay
/// fails, a digest mismatch reported before a broken link.
pub fn verify_entries(entries: &Vec<AuditEntry>) -> (r: Result<String, String>)
    ensures
        result_text(r) == verify_outcome(entry_views(entries@)),
        r is Ok <==> valid_chain(entry_views(entries@)),
{
    let ghost s = entry_views(entries@);
    let mut prev: Option<String> = None;
    let mut i: usize = 0;
    while i < entries.len()
        invariant
            0 <= i <= entries@.len(),
            s == entry_views(entries@),
            opt_text(prev) == prior_hash(s, i as int),
            forall|j: int| 0 <= j < i ==> #[trigger] chain_ok_at(s, j),
        decreases entries@.len() - i,
    {
        let entry = &entries[i];
        let recomputed = calculate_entry_hash(
            entry.id.as_str(),
            entry.timestamp,
            &entry.event_type,
            entry.actor.as_str(),
            &entry.resource_type,
            entry.resource_id.as_str(),
            entry.action.as_str(),
            entry.details.as_str(),
            match &prev {
                Some(p) => Some(p),
                None => None,
            },
        );
        if !recomputed.eq(&entry.hash) {
            proof {
                assert(s[i as int] == entries@[i as int]@);
                lemma_verify_from_prefix(s, i as int);
                lemma_verify_outcome_ok(s);
                assert(!chain_ok_at(s, i as int));
            }
            let msg = String::from_str("Hash mismatch in entry: ");
            return Err(msg.concat(entry.id.as_str()));
        }
        let links = match (&entry.previous_hash, &prev) {
            (Some(a), Some(b)) => a.eq(b),
            (None, None) => true,
            _ => false,
        };
        if !links {
            proof {
                assert(s[i as int] == entries@[i as int]@);
                lemma_verify_from_prefix(s, i as int);
                lemma_verify_outcome_ok(s);
                assert(!chain_ok_at(s, i as int));
            }
            let msg = String::from_str("Chain integrity broken at entry: ");
            return Err(msg.concat(entry.id.as_str()));
        }
        prev = Some(entry.hash.clone());
        proof {
            assert(s[i as int] == entries@[i as int]@);
            assert(chain_ok_at(s, i as int));
        }
        i = i + 1;
    }
    proof {
        lemma_verify_from_prefix(s, s.len() as int);
        lemma_verify_outcome_ok(s);
    }
    Ok(String::from_str("Audit chain verification successful"))
}

} // verus!
