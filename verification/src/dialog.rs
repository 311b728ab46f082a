//! The dialog layer: dialog state keyed by (Call-ID, local tag, remote
//! tag). The layer is the sole author of local tags, minting exactly
//! one per dialog at creation, and enforces CSeq ordering per method
//! within a confirmed dialog.

use vstd::prelude::*;

use crate::message::{CSeq, Method};
use crate::presets::fresh_token;

verus! {

/// Which side of the dialog this endpoint plays.
#[derive(Clone, Copy, Debug, PartialEq, Eq, Structural)]
pub enum DialogFlow {
    Uac,
    Uas,
}

/// Where the dialog stands in its life.
#[derive(Clone, Copy, Debug, PartialEq, Eq, Structural)]
pub enum DialogPhase {
    /// Created by a 1xx-with-tag; the remote tag may still be unknown.
    Early,
    /// Confirmed by a 2xx; both tags are known.
    Confirmed,
    /// Ended by BYE or by a 3xx–6xx final response before confirmation.
    Terminated,
}

/// A dialog: the peer-to-peer relationship spanning transactions.
/// The local tag is minted once at creation and never changes.
#[derive(Debug)]
pub struct Dialog {
    pub call_id: String,
    pub local_tag: String,
    pub remote_tag: Option<String>,
    pub flow: DialogFlow,
    pub phase: DialogPhase,
    pub created_at: u64,
    pub updated_at: u64,
    /// The highest CSeq seen from the peer, per method.
    pub seen_cseqs: Vec<CSeq>,
}

/// The dialog's invariant: the local tag is never empty, a confirmed
/// dialog knows a non-empty remote tag, the timestamps are ordered,
/// and at most one CSeq high-water mark is kept per method.
pub open spec fn dialog_wf(d: Dialog) -> bool {
    &&& d.local_tag@.len() > 0
    &&& (d.phase is Confirmed ==> d.remote_tag is Some && d.remote_tag.unwrap()@.len() > 0)
    &&& d.created_at <= d.updated_at
    &&& forall|i: int, j: int|
        0 <= i < j < d.seen_cseqs@.len() ==> d.seen_cseqs@[i].method != d.seen_cseqs@[j].method
}

/// The CSeq high-water mark the dialog holds for a method, if any.
pub open spec fn seen_cseq_from(seqs: Seq<CSeq>, m: Method, i: int) -> Option<u32>
    decreases seqs.len() - i,
{
    if i < 0 || i >= seqs.len() {
        None
    } else if seqs[i].method == m {
        Some(seqs[i].seq)
    } else {
        seen_cseq_from(seqs, m, i + 1)
    }
}

/// The CSeq high-water mark the dialog holds for a method, if any.
pub open spec fn seen_cseq(seqs: Seq<CSeq>, m: Method) -> Option<u32> {
    seen_cseq_from(seqs, m, 0)
}

/// Whether an inbound CSeq is in order: greater than the last seen for
/// its method, or the first for its method.
pub open spec fn cseq_in_order(seqs: Seq<CSeq>, c: CSeq) -> bool {
    match seen_cseq(seqs, c.method) {
        Some(last) => c.seq > last,
        None => true,
    }
}

impl Dialog {
    /// A new early dialog: mints the one local tag of its lifetime, a
    /// fresh 36-character token.
    pub fn create(call_id: String, remote_tag: Option<String>, flow: DialogFlow, now: u64) -> (d:
        Dialog)
        ensures
            d.call_id == call_id,
            d.remote_tag == remote_tag,
            d.flow == flow,
            d.phase is Early,
            d.local_tag@.len() == 36,
            d.created_at == now,
            d.updated_at == now,
            d.seen_cseqs@.len() == 0,
            dialog_wf(d),
    {
        Dialog {
            call_id,
            local_tag: fresh_token(),
            remote_tag,
            flow,
            phase: DialogPhase::Early,
            created_at: now,
            updated_at: now,
            seen_cseqs: Vec::new(),
        }
    }

    /// Confirms the dialog with the peer's tag. The local tag is kept:
    /// it is stable across the dialog's lifetime.
    pub fn confirm(&mut self, remote_tag: String, now: u64)
        requires
            dialog_wf(*old(self)),
            old(self).phase is Early,
            old(self).updated_at <= now,
            remote_tag@.len() > 0,
        ensures
            final(self).local_tag == old(self).local_tag,
            final(self).call_id == old(self).call_id,
            final(self).flow == old(self).flow,
            final(self).created_at == old(self).created_at,
            final(self).seen_cseqs == old(self).seen_cseqs,
            final(self).phase is Confirmed,
            final(self).remote_tag == Some(remote_tag),
            final(self).updated_at == now,
            dialog_wf(*final(self)),
    {
        self.remote_tag = Some(remote_tag);
        self.phase = DialogPhase::Confirmed;
        self.updated_at = now;
    }

    /// Ends the dialog. The local tag is kept.
    pub fn terminate(&mut self, now: u64)
        requires
            dialog_wf(*old(self)),
            old(self).updated_at <= now,
        ensures
            final(self).local_tag == old(self).local_tag,
            final(self).call_id == old(self).call_id,
            final(self).flow == old(self).flow,
            final(self).created_at == old(self).created_at,
            final(self).remote_tag == old(self).remote_tag,
            final(self).seen_cseqs == old(self).seen_cseqs,
            final(self).phase is Terminated,
            final(self).updated_at == now,
            dialog_wf(*final(self)),
    {
        self.phase = DialogPhase::Terminated;
        self.updated_at = now;
    }

    /// Admits an inbound CSeq exactly when it is greater than the last
    /// seen for its method; an admitted CSeq becomes the new high-water
    /// mark, a refused one changes nothing and is answered 500 by the
    /// caller. The local tag is kept either way.
    pub fn accept_cseq(&mut self, c: CSeq, now: u64) -> (r: bool)
        requires
            dialog_wf(*old(self)),
            old(self).updated_at <= now,
        ensures
            r == cseq_in_order(old(self).seen_cseqs@, c),
            !r ==> *final(self) == *old(self),
            r ==> seen_cseq(final(self).seen_cseqs@, c.method) == Some(c.seq),
            r ==> final(self).updated_at == now,
            final(self).local_tag == old(self).local_tag,
            final(self).call_id == old(self).call_id,
            final(self).flow == old(self).flow,
            final(self).phase == old(self).phase,
            final(self).remote_tag == old(self).remote_tag,
            final(self).created_at == old(self).created_at,
            forall|m: Method|
                m != c.method ==> #[trigger] seen_cseq(final(self).seen_cseqs@, m) == seen_cseq(
                    old(self).seen_cseqs@,
                    m,
                ),
            dialog_wf(*final(self)),
    {
        let mut i: usize = 0;
        let n = self.seen_cseqs.len();
        while i < n
            invariant
                0 <= i <= n,
                n == self.seen_cseqs@.len(),
                dialog_wf(*self),
                seen_cseq(self.seen_cseqs@, c.method) == seen_cseq_from(
                    self.seen_cseqs@,
                    c.method,
                    i as int,
                ),
                forall|m: Method| #[trigger]
                    seen_cseq(self.seen_cseqs@, m) == seen_cseq_from(self.seen_cseqs@, m, 0),
                *self == *old(self),
                self.updated_at <= now,
            decreases n - i,
        {
            if self.seen_cseqs[i].method == c.method {
                if c.seq > self.seen_cseqs[i].seq {
                    let ghost pre = self.seen_cseqs@;
                    self.seen_cseqs.set(i, c);
                    self.updated_at = now;
                    proof {
                        assert(seen_cseq_from(self.seen_cseqs@, c.method, 0) == Some(c.seq)) by {
                            lemma_seen_cseq_update(pre, i as int, c, c.method, 0);
                        }
                        assert forall|m: Method| m != c.method implies #[trigger] seen_cseq(
                            self.seen_cseqs@,
                            m,
                        ) == seen_cseq(pre, m) by {
                            lemma_seen_cseq_update(pre, i as int, c, m, 0);
                        }
                        assert forall|a: int, b: int|
                            0 <= a < b < self.seen_cseqs@.len() implies self.seen_cseqs@[a].method
                            != self.seen_cseqs@[b].method by {
                            assert(pre[a].method != pre[b].method);
                            assert(c.method == pre[i as int].method);
                            assert(self.seen_cseqs@[a] == (if a == i as int {
                                c
                            } else {
                                pre[a]
                            }));
                            assert(self.seen_cseqs@[b] == (if b == i as int {
                                c
                            } else {
                                pre[b]
                            }));
                        }
                    }
                    return true;
                } else {
                    return false;
                }
            }
            i = i + 1;
        }
        self.seen_cseqs.push(c);
        self.updated_at = now;
        proof {
            let ghost pre = old(self).seen_cseqs@;
            assert(self.seen_cseqs@ == pre.push(c));
            lemma_seen_cseq_push(pre, c, c.method, 0);
            lemma_seen_cseq_none_no_match(pre, c.method, 0);
            assert forall|a: int, b: int|
                0 <= a < b < self.seen_cseqs@.len() implies self.seen_cseqs@[a].method
                != self.seen_cseqs@[b].method by {
                if b < pre.len() {
                    assert(pre[a].method != pre[b].method);
                } else {
                    assert(self.seen_cseqs@[b] == c);
                    assert(pre[a].method != c.method);
                }
            }
            assert forall|m: Method| m != c.method implies #[trigger] seen_cseq(
                self.seen_cseqs@,
                m,
            ) == seen_cseq(pre, m) by {
                lemma_seen_cseq_push(pre, c, m, 0);
            }
        }
        true
    }
}

/// Scanning after an update at `i` with an entry of the same method:
/// before `i` nothing matches differently; the mark found for the
/// updated method is the new entry's, other methods are unaffected.
proof fn lemma_seen_cseq_update(seqs: Seq<CSeq>, i: int, c: CSeq, m: Method, k: int)
    requires
        0 <= i < seqs.len(),
        seqs[i].method == c.method,
        forall|a: int, b: int| 0 <= a < b < seqs.len() ==> seqs[a].method != seqs[b].method,
        0 <= k <= i,
    ensures
        m == c.method ==> seen_cseq_from(seqs.update(i, c), m, k) == Some(c.seq),
        m != c.method ==> seen_cseq_from(seqs.update(i, c), m, k) == seen_cseq_from(seqs, m, k),
    decreases seqs.len() - k,
{
    if k < i {
        assert(seqs.update(i, c)[k] == seqs[k]);
        lemma_seen_cseq_update(seqs, i, c, m, k + 1);
    } else {
        assert(seqs.update(i, c)[i] == c);
        if m != c.method {
            lemma_seen_cseq_suffix_eq(seqs, seqs.update(i, c), m, k + 1);
        }
    }
}

/// Two sequences equal from `k` on scan to the same mark from `k`.
proof fn lemma_seen_cseq_suffix_eq(a: Seq<CSeq>, b: Seq<CSeq>, m: Method, k: int)
    requires
        a.len() == b.len(),
        forall|j: int| k <= j < a.len() ==> a[j] == b[j],
    ensures
        seen_cseq_from(a, m, k) == seen_cseq_from(b, m, k),
    decreases a.len() - k,
{
    if 0 <= k < a.len() {
        lemma_seen_cseq_suffix_eq(a, b, m, k + 1);
    }
}

/// Scanning a sequence extended by one entry: the scan finds what it
/// found before, or the new entry when nothing matched before.
proof fn lemma_seen_cseq_push(seqs: Seq<CSeq>, c: CSeq, m: Method, k: int)
    requires
        0 <= k <= seqs.len(),
    ensures
        seen_cseq_from(seqs, m, k) is Some ==> seen_cseq_from(seqs.push(c), m, k)
            == seen_cseq_from(seqs, m, k),
        seen_cseq_from(seqs, m, k) is None && m == c.method ==> seen_cseq_from(seqs.push(c), m, k)
            == Some(c.seq),
        seen_cseq_from(seqs, m, k) is None && m != c.method ==> seen_cseq_from(seqs.push(c), m, k)
            is None,
    decreases seqs.len() - k,
{
    if k < seqs.len() {
        assert(seqs.push(c)[k] == seqs[k]);
        lemma_seen_cseq_push(seqs, c, m, k + 1);
    } else {
        assert(seqs.push(c)[k] == c);
        assert(seen_cseq_from(seqs.push(c), m, k + 1) is None);
    }
}

/// A scan that found nothing matches no entry from where it started.
proof fn lemma_seen_cseq_none_no_match(seqs: Seq<CSeq>, m: Method, k: int)
    requires
        0 <= k,
        seen_cseq_from(seqs, m, k) is None,
    ensures
        forall|j: int| k <= j < seqs.len() ==> (#[trigger] seqs[j]).method != m,
    decreases seqs.len() - k,
{
    if k < seqs.len() {
        lemma_seen_cseq_none_no_match(seqs, m, k + 1);
    }
}

} // verus!
