//! The registration store: one row per address-of-record, written by
//! REGISTER upserts, and the short-lived nonces minted for digest
//! challenges.

use vstd::prelude::*;

use crate::message::Uri;

verus! {

/// A persistent registration row: where an address-of-record can be
/// reached, and until when.
#[derive(Debug)]
pub struct Registration {
    pub id: i64,
    pub aor: Uri,
    pub contact: Uri,
    pub expires_at: u64,
    pub transport: crate::message::Transport,
    pub username: String,
}

impl Clone for Registration {
    fn clone(&self) -> (res: Self)
        ensures
            res == *self,
    {
        Registration {
            id: self.id,
            aor: self.aor.clone(),
            contact: self.contact.clone(),
            expires_at: self.expires_at,
            transport: self.transport,
            username: self.username.clone(),
        }
    }
}

/// A short-lived nonce minted for a digest challenge, consumed at most
/// once by a matching Authorization header.
#[derive(Debug)]
pub struct AuthNonce {
    pub id: i64,
    pub realm: String,
    pub nonce: String,
    pub created_at: u64,
}

impl Clone for AuthNonce {
    fn clone(&self) -> (res: Self)
        ensures
            res == *self,
    {
        AuthNonce {
            id: self.id,
            realm: self.realm.clone(),
            nonce: self.nonce.clone(),
            created_at: self.created_at,
        }
    }
}

/// Whether two URIs read as the same address-of-record.
pub open spec fn same_aor(a: Uri, b: Uri) -> bool {
    crate::message::uri_eq(a, b)
}

/// The first index registered under the address-of-record, scanning
/// from `i`.
pub open spec fn find_aor_from(rows: Seq<Registration>, aor: Uri, i: int) -> Option<int>
    decreases rows.len() - i,
{
    if i < 0 || i >= rows.len() {
        None
    } else if same_aor(rows[i].aor, aor) {
        Some(i)
    } else {
        find_aor_from(rows, aor, i + 1)
    }
}

/// The index of the row registered under the address-of-record, if any.
pub open spec fn spec_find_aor(rows: Seq<Registration>, aor: Uri) -> Option<int> {
    find_aor_from(rows, aor, 0)
}

/// The rows after an upsert: the row under the address-of-record is
/// replaced keeping its identifier, or a new row is appended.
pub open spec fn spec_upsert(rows: Seq<Registration>, row: Registration) -> Seq<Registration> {
    match spec_find_aor(rows, row.aor) {
        Some(i) => rows.update(i, Registration { id: rows[i].id, ..row }),
        None => rows.push(row),
    }
}

/// The registration table: at most one row per address-of-record.
#[derive(Debug)]
pub struct RegistrationTable {
    pub rows: Vec<Registration>,
    pub next_id: i64,
}

/// The table's invariant: one row per address-of-record, identifiers
/// unique, positive and below the next to mint.
pub open spec fn registration_table_wf(t: RegistrationTable) -> bool {
    &&& 1 <= t.next_id
    &&& forall|i: int| 0 <= i < t.rows@.len() ==> 1 <= (#[trigger] t.rows@[i]).id < t.next_id
    &&& forall|i: int, j: int|
        0 <= i < j < t.rows@.len() ==> !same_aor(t.rows@[i].aor, t.rows@[j].aor)
}

impl RegistrationTable {
    /// An empty table.
    pub fn new() -> (t: Self)
        ensures
            t.rows@.len() == 0,
            t.next_id == 1,
            registration_table_wf(t),
    {
        RegistrationTable { rows: Vec::new(), next_id: 1 }
    }

    /// The row registered under the address-of-record, if any.
    pub fn find_by_aor(&self, aor: &Uri) -> (r: Option<Registration>)
        ensures
            match r {
                Some(row) => spec_find_aor(self.rows@, *aor) is Some && row == self.rows@[
                    spec_find_aor(self.rows@, *aor).unwrap()],
                None => spec_find_aor(self.rows@, *aor) is None,
            },
    {
        let n = self.rows.len();
        let mut i: usize = 0;
        while i < n
            invariant
                0 <= i <= n,
                n == self.rows@.len(),
                spec_find_aor(self.rows@, *aor) == find_aor_from(self.rows@, *aor, i as int),
            decreases n - i,
        {
            if uri_matches(&self.rows[i].aor, aor) {
                return Some(self.rows[i].clone());
            }
            i = i + 1;
        }
        None
    }

    /// Registers where the address-of-record can be reached: replaces
    /// its row, keeping the row's identity, or appends a first one.
    /// Writing the same binding again leaves one unchanged row.
    pub fn upsert(&mut self, aor: Uri, contact: Uri, expires_at: u64, transport: crate::message::Transport, username: String) -> (r: Registration)
        requires
            registration_table_wf(*old(self)),
            old(self).next_id < i64::MAX,
        ensures
            registration_table_wf(*final(self)),
            final(self).rows@ == spec_upsert(
                old(self).rows@,
                Registration {
                    id: old(self).next_id,
                    aor,
                    contact,
                    expires_at,
                    transport,
                    username,
                },
            ),
            spec_find_aor(old(self).rows@, aor) is Some ==> final(self).next_id == old(
                self,
            ).next_id && final(self).rows@.len() == old(self).rows@.len(),
            spec_find_aor(old(self).rows@, aor) is None ==> final(self).next_id == old(self).next_id
                + 1 && final(self).rows@.len() == old(self).rows@.len() + 1,
            r == final(self).rows@[spec_find_aor(final(self).rows@, aor).unwrap()],
            spec_find_aor(final(self).rows@, aor) is Some,
    {
        let ghost fresh = Registration {
            id: self.next_id,
            aor,
            contact,
            expires_at,
            transport,
            username,
        };
        let n = self.rows.len();
        let mut i: usize = 0;
        while i < n
            invariant
                0 <= i <= n,
                n == self.rows@.len(),
                spec_find_aor(self.rows@, aor) == find_aor_from(self.rows@, aor, i as int),
                *self == *old(self),
                registration_table_wf(*self),
                fresh == (Registration {
                    id: self.next_id,
                    aor,
                    contact,
                    expires_at,
                    transport,
                    username,
                }),
            decreases n - i,
        {
            if uri_matches(&self.rows[i].aor, &aor) {
                let row = Registration {
                    id: self.rows[i].id,
                    aor,
                    contact,
                    expires_at,
                    transport,
                    username,
                };
                let ghost pre = self.rows@;
                let out = row.clone();
                self.rows.set(i, row);
                proof {
                    assert(find_aor_from(pre, aor, i as int) == Some(i as int));
                    assert(spec_find_aor(pre, fresh.aor) == Some(i as int));
                    assert(self.rows@ =~= spec_upsert(pre, fresh));
                    assert forall|a: int, b: int|
                        0 <= a < b < self.rows@.len() implies !same_aor(
                        self.rows@[a].aor,
                        self.rows@[b].aor,
                    ) by {
                        assert(!same_aor(pre[a].aor, pre[b].aor));
                        assert(a != i as int ==> self.rows@[a] == pre[a]);
                        assert(b != i as int ==> self.rows@[b] == pre[b]);
                        assert(same_aor(self.rows@[i as int].aor, pre[i as int].aor));
                    }
                    lemma_find_aor_update_same(pre, i as int, self.rows@[i as int], aor, 0);
                }
                return out;
            }
            i = i + 1;
        }
        let row = Registration {
            id: self.next_id,
            aor,
            contact,
            expires_at,
            transport,
            username,
        };
        let ghost pre = self.rows@;
        let out = row.clone();
        self.rows.push(row);
        self.next_id = self.next_id + 1;
        proof {
            lemma_find_aor_none_no_match(pre, aor, 0);
            assert forall|a: int, b: int|
                0 <= a < b < self.rows@.len() implies !same_aor(
                self.rows@[a].aor,
                self.rows@[b].aor,
            ) by {
                if b < pre.len() {
                    assert(!same_aor(pre[a].aor, pre[b].aor));
                } else {
                    assert(self.rows@[b] == fresh);
                    assert(!same_aor(pre[a].aor, aor));
                    assert(same_aor(pre[a].aor, fresh.aor) ==> same_aor(pre[a].aor, aor));
                }
            }
            lemma_find_aor_push(pre, fresh, aor, 0);
        }
        out
    }
}

/// Whether two URIs name the same endpoint, comparing text contents.
pub fn uri_matches(a: &Uri, b: &Uri) -> (r: bool)
    ensures
        r == crate::message::uri_eq(*a, *b),
{
    let user_ok = match (&a.user, &b.user) {
        (Some(ua), Some(ub)) => ua.eq(ub),
        (None, None) => true,
        _ => false,
    };
    user_ok && a.host_with_port.host.eq(&b.host_with_port.host) && a.host_with_port.port
        == b.host_with_port.port
}

/// A scan's answer is in range and names a matching row.
proof fn lemma_find_aor_some_match(rows: Seq<Registration>, aor: Uri, k: int)
    requires
        0 <= k,
        find_aor_from(rows, aor, k) is Some,
    ensures
        ({
            let i = find_aor_from(rows, aor, k).unwrap();
            &&& k <= i < rows.len()
            &&& same_aor(rows[i].aor, aor)
        }),
    decreases rows.len() - k,
{
    if k < rows.len() && !same_aor(rows[k].aor, aor) {
        lemma_find_aor_some_match(rows, aor, k + 1);
    }
}

/// A scan that found nothing matches no row from where it started.
proof fn lemma_find_aor_none_no_match(rows: Seq<Registration>, aor: Uri, k: int)
    requires
        0 <= k,
        find_aor_from(rows, aor, k) is None,
    ensures
        forall|j: int| k <= j < rows.len() ==> !same_aor((#[trigger] rows[j]).aor, aor),
    decreases rows.len() - k,
{
    if k < rows.len() {
        lemma_find_aor_none_no_match(rows, aor, k + 1);
    }
}

/// Scanning a sequence extended by one row whose address-of-record
/// matched nothing before: the scan finds the new row last.
proof fn lemma_find_aor_push(rows: Seq<Registration>, row: Registration, aor: Uri, k: int)
    requires
        0 <= k <= rows.len(),
        same_aor(row.aor, aor),
    ensures
        find_aor_from(rows, aor, k) is Some ==> find_aor_from(rows.push(row), aor, k)
            == find_aor_from(rows, aor, k),
        find_aor_from(rows, aor, k) is None ==> find_aor_from(rows.push(row), aor, k) == Some(
            rows.len() as int,
        ),
    decreases rows.len() - k,
{
    if k < rows.len() {
        assert(rows.push(row)[k] == rows[k]);
        lemma_find_aor_push(rows, row, aor, k + 1);
    } else {
        assert(rows.push(row)[k] == row);
    }
}

/// Updating the matched row with one under the same address-of-record
/// leaves the scan's answer where it was.
proof fn lemma_find_aor_update_same(rows: Seq<Registration>, i: int, row: Registration, aor: Uri, k: int)
    requires
        0 <= i < rows.len(),
        same_aor(rows[i].aor, aor),
        same_aor(row.aor, aor),
        find_aor_from(rows, aor, k) == Some(i),
        0 <= k <= i,
    ensures
        find_aor_from(rows.update(i, row), aor, k) == Some(i),
    decreases rows.len() - k,
{
    if k < i {
        assert(rows.update(i, row)[k] == rows[k]);
        lemma_find_aor_update_same(rows, i, row, aor, k + 1);
    } else {
        assert(rows.update(i, row)[i] == row);
    }
}

/// Registering the same binding twice leaves what registering it once
/// left: the second write replaces the row with an equal row, keeping
/// its identity — the upsert is idempotent.
pub proof fn lemma_upsert_idempotent(
    rows: Seq<Registration>,
    first: Registration,
    second: Registration,
)
    requires
        second.aor == first.aor,
        second.contact == first.contact,
        second.expires_at == first.expires_at,
        second.transport == first.transport,
        second.username == first.username,
    ensures
        spec_upsert(spec_upsert(rows, first), second) == spec_upsert(rows, first),
{
    let once = spec_upsert(rows, first);
    match spec_find_aor(rows, first.aor) {
        Some(i) => {
            lemma_find_aor_some_match(rows, first.aor, 0);
            let kept = Registration { id: rows[i].id, ..first };
            assert(once == rows.update(i, kept));
            assert(once[i] == kept);
            lemma_find_aor_update_same(rows, i, kept, first.aor, 0);
            assert(spec_find_aor(once, second.aor) == Some(i));
            assert(Registration { id: once[i].id, ..second } == kept);
            assert(spec_upsert(once, second) =~= once.update(i, kept));
            assert(once.update(i, kept) =~= once);
        },
        None => {
            assert(once == rows.push(first));
            lemma_find_aor_push(rows, first, first.aor, 0);
            assert(spec_find_aor(once, second.aor) == Some(rows.len() as int));
            assert(once[rows.len() as int] == first);
            assert(Registration { id: first.id, ..second } == first);
            assert(spec_upsert(once, second) =~= once.update(rows.len() as int, first));
            assert(once.update(rows.len() as int, first) =~= once);
        },
    }
}

} // verus!
