//! An in-memory model of the persistence facade for transaction rows:
//! the table with create, find, update and delete, and the lazy query
//! with its filter, ordering and pagination. The facade is injected by
//! the caller; the core never sees the backend.

use vstd::prelude::*;

use vstd::string::StringSliceAdditionalSpecFns;

use crate::errors::{StoreError, StoreErrorKind};

verus! {

broadcast use vstd::seq_lib::group_to_multiset_ensures;

/// The state a transaction row is in, stored as lowercase text.
#[derive(Clone, Copy, Debug, PartialEq, Eq, Structural)]
pub enum TransactionState {
    Trying,
    Proceeding,
    Completed,
    Terminated,
}

/// The text the store keeps for a state.
pub open spec fn state_text(st: TransactionState) -> Seq<char> {
    match st {
        TransactionState::Trying => "trying"@,
        TransactionState::Proceeding => "proceeding"@,
        TransactionState::Completed => "completed"@,
        TransactionState::Terminated => "terminated"@,
    }
}

/// A byte lowered to its ASCII lowercase.
pub open spec fn lower_byte(b: u8) -> u8 {
    if 65 <= b <= 90 {
        (b + 32) as u8
    } else {
        b
    }
}

/// A byte string lowered to ASCII lowercase.
pub open spec fn lower_bytes(s: Seq<u8>) -> Seq<u8> {
    s.map_values(|b: u8| lower_byte(b))
}

/// The state a text names, compared without regard to ASCII case.
pub open spec fn spec_state_from_text(bytes: Seq<u8>) -> Option<TransactionState> {
    let lowered = lower_bytes(bytes);
    if lowered == "trying".spec_bytes() {
        Some(TransactionState::Trying)
    } else if lowered == "proceeding".spec_bytes() {
        Some(TransactionState::Proceeding)
    } else if lowered == "completed".spec_bytes() {
        Some(TransactionState::Completed)
    } else if lowered == "terminated".spec_bytes() {
        Some(TransactionState::Terminated)
    } else {
        None
    }
}

/// Whether `s`, lowered, reads as `t`.
fn matches_ignore_case(s: &str, t: &str) -> (r: bool)
    ensures
        r == (lower_bytes(s.spec_bytes()) == t.spec_bytes()),
{
    let sb = s.as_bytes();
    let tb = t.as_bytes();
    if sb.len() != tb.len() {
        assert(lower_bytes(sb@).len() == sb@.len());
        return false;
    }
    let n = sb.len();
    let mut i: usize = 0;
    while i < n
        invariant
            0 <= i <= n,
            n == sb@.len() == tb@.len(),
            sb@ == s.spec_bytes(),
            tb@ == t.spec_bytes(),
            forall|j: int| 0 <= j < i ==> lower_byte(sb@[j]) == tb@[j],
        decreases n - i,
    {
        let b = sb[i];
        let lowered: u8 = if 65 <= b && b <= 90 {
            b + 32
        } else {
            b
        };
        if lowered != tb[i] {
            assert(lower_bytes(sb@)[i as int] == lower_byte(sb@[i as int]));
            return false;
        }
        i = i + 1;
    }
    assert(lower_bytes(sb@) =~= tb@);
    true
}

impl TransactionState {
    /// The lowercase text the store keeps for this state.
    pub fn as_text(&self) -> (r: String)
        ensures
            r@ == state_text(*self),
    {
        match self {
            TransactionState::Trying => String::from_str("trying"),
            TransactionState::Proceeding => String::from_str("proceeding"),
            TransactionState::Completed => String::from_str("completed"),
            TransactionState::Terminated => String::from_str("terminated"),
        }
    }

    /// The state a stored text names, compared without regard to ASCII
    /// case; `None` for any other text.
    pub fn from_text(s: &str) -> (r: Option<TransactionState>)
        ensures
            r == spec_state_from_text(s.spec_bytes()),
    {
        if matches_ignore_case(s, "trying") {
            Some(TransactionState::Trying)
        } else if matches_ignore_case(s, "proceeding") {
            Some(TransactionState::Proceeding)
        } else if matches_ignore_case(s, "completed") {
            Some(TransactionState::Completed)
        } else if matches_ignore_case(s, "terminated") {
            Some(TransactionState::Terminated)
        } else {
            None
        }
    }
}

/// A persistent transaction row.
#[derive(Debug)]
pub struct Transaction {
    pub id: i64,
    pub created_at: u64,
    pub updated_at: u64,
    pub state: TransactionState,
    pub branch_id: String,
    pub dialog_id: i64,
}

impl Clone for Transaction {
    fn clone(&self) -> (res: Self)
        ensures
            res == *self,
    {
        Transaction {
            id: self.id,
            created_at: self.created_at,
            updated_at: self.updated_at,
            state: self.state,
            branch_id: self.branch_id.clone(),
            dialog_id: self.dialog_id,
        }
    }
}

/// A partial row: the fields a write supplies. On update a missing
/// field — the timestamps included — keeps the stored value, as a
/// changeset writes only what it carries; on create, a missing
/// timestamp defaults to the clock reading and any other missing field
/// refuses the write.
#[derive(Debug)]
pub struct DirtyTransaction {
    pub created_at: Option<u64>,
    pub updated_at: Option<u64>,
    pub state: Option<TransactionState>,
    pub branch_id: Option<String>,
    pub dialog_id: Option<i64>,
}

impl Default for DirtyTransaction {
    /// A partial row supplying nothing.
    fn default() -> (r: Self)
        ensures
            r.created_at is None,
            r.updated_at is None,
            r.state is None,
            r.branch_id is None,
            r.dialog_id is None,
    {
        DirtyTransaction {
            created_at: None,
            updated_at: None,
            state: None,
            branch_id: None,
            dialog_id: None,
        }
    }
}

/// The first index holding `id`, scanning from `i`.
pub open spec fn find_id_from(rows: Seq<Transaction>, id: i64, i: int) -> Option<int>
    decreases rows.len() - i,
{
    if i < 0 || i >= rows.len() {
        None
    } else if rows[i].id == id {
        Some(i)
    } else {
        find_id_from(rows, id, i + 1)
    }
}

/// The index of the row with the given identifier, if any.
pub open spec fn spec_find(rows: Seq<Transaction>, id: i64) -> Option<int> {
    find_id_from(rows, id, 0)
}

/// A row as a partial write leaves it: supplied fields replace stored
/// ones, every missing field keeps the stored value, the id stays.
pub open spec fn updated_row(row: Transaction, record: DirtyTransaction) -> Transaction {
    Transaction {
        id: row.id,
        created_at: if record.created_at is Some {
            record.created_at.unwrap()
        } else {
            row.created_at
        },
        updated_at: if record.updated_at is Some {
            record.updated_at.unwrap()
        } else {
            row.updated_at
        },
        state: if record.state is Some {
            record.state.unwrap()
        } else {
            row.state
        },
        branch_id: if record.branch_id is Some {
            record.branch_id.unwrap()
        } else {
            row.branch_id
        },
        dialog_id: if record.dialog_id is Some {
            record.dialog_id.unwrap()
        } else {
            row.dialog_id
        },
    }
}

/// The rows newest-first: each row was created no earlier than the next.
pub open spec fn sorted_desc(s: Seq<Transaction>) -> bool {
    forall|i: int, j: int| 0 <= i < j < s.len() ==> s[i].created_at >= s[j].created_at
}

/// The rows whose branch matches `b`, scanning from `i`, in order.
pub open spec fn branch_filtered_from(rows: Seq<Transaction>, b: String, i: int) -> Seq<
    Transaction,
>
    decreases rows.len() - i,
{
    if i < 0 || i >= rows.len() {
        Seq::empty()
    } else if rows[i].branch_id@ == b@ {
        seq![rows[i]] + branch_filtered_from(rows, b, i + 1)
    } else {
        branch_filtered_from(rows, b, i + 1)
    }
}

/// A copy of a row list, equal to its source element by element.
fn clone_rows(rows: &Vec<Transaction>) -> (r: Vec<Transaction>)
    ensures
        r@ == rows@,
{
    let mut r: Vec<Transaction> = Vec::new();
    let mut i: usize = 0;
    while i < rows.len()
        invariant
            0 <= i <= rows@.len(),
            r@ =~= rows@.subrange(0, i as int),
        decreases rows@.len() - i,
    {
        r.push(rows[i].clone());
        i = i + 1;
    }
    assert(r@ =~= rows@);
    r
}

/// A query being built up: the rows it would return, in order.
#[derive(Debug)]
pub struct LazyQuery {
    pub rows: Vec<Transaction>,
}

impl LazyQuery {
    /// A query over the given rows.
    pub fn new(rows: Vec<Transaction>) -> (q: Self)
        ensures
            q.rows@ == rows@,
    {
        LazyQuery { rows }
    }

    /// Keeps the rows whose branch equals the given one; with `None`
    /// the query is unchanged.
    pub fn branch_id(self, branch_id: Option<String>) -> (q: Self)
        ensures
            match branch_id {
                None => q.rows@ == self.rows@,
                Some(b) => q.rows@ == branch_filtered_from(self.rows@, b, 0),
            },
    {
        let b = match branch_id {
            None => {
                return self;
            },
            Some(b) => b,
        };
        let mut out: Vec<Transaction> = Vec::new();
        let mut i: usize = 0;
        let n = self.rows.len();
        while i < n
            invariant
                0 <= i <= n,
                n == self.rows@.len(),
                branch_filtered_from(self.rows@, b, 0) == out@ + branch_filtered_from(
                    self.rows@,
                    b,
                    i as int,
                ),
            decreases n - i,
        {
            let ghost pre = out@;
            if self.rows[i].branch_id.eq(&b) {
                out.push(self.rows[i].clone());
                proof {
                    assert(branch_filtered_from(self.rows@, b, i as int) == seq![
                        self.rows@[i as int],
                    ] + branch_filtered_from(self.rows@, b, i + 1));
                    assert(pre + (seq![self.rows@[i as int]] + branch_filtered_from(
                        self.rows@,
                        b,
                        i + 1,
                    )) =~= out@ + branch_filtered_from(self.rows@, b, i + 1));
                }
            }
            i = i + 1;
        }
        proof {
            assert(branch_filtered_from(self.rows@, b, n as int) =~= Seq::<Transaction>::empty());
            assert(out@ + Seq::<Transaction>::empty() =~= out@);
        }
        LazyQuery { rows: out }
    }

    /// Keeps one page: rows from `(page - 1) * per_page` on, at most
    /// `per_page` of them, clamped to what the query holds.
    pub fn paginate(self, page: usize, per_page: usize) -> (q: Self)
        requires
            1 <= page,
            page * per_page <= usize::MAX,
        ensures
            q.rows@ == self.rows@.subrange(
                vstd::math::min((page - 1) * per_page as int, self.rows@.len() as int),
                vstd::math::min((page - 1) * per_page + per_page as int, self.rows@.len() as int),
            ),
    {
        proof {
            assert((page - 1) * per_page + per_page == page * per_page) by (nonlinear_arith);
            assert((page - 1) * per_page >= 0) by (nonlinear_arith)
                requires
                    page >= 1,
            ;
        }
        let offset: usize = (page - 1) * per_page;
        let n = self.rows.len();
        let start: usize = if offset < n {
            offset
        } else {
            n
        };
        let end: usize = if offset + per_page < n {
            offset + per_page
        } else {
            n
        };
        let mut out: Vec<Transaction> = Vec::new();
        let mut i: usize = start;
        while i < end
            invariant
                start <= i <= end <= n,
                n == self.rows@.len(),
                out@ =~= self.rows@.subrange(start as int, i as int),
            decreases end - i,
        {
            out.push(self.rows[i].clone());
            i = i + 1;
        }
        assert(out@ =~= self.rows@.subrange(start as int, end as int));
        LazyQuery { rows: out }
    }

    /// Orders the rows by creation time, newest first; the rows are
    /// kept, only rearranged.
    pub fn order_by_created_at(self) -> (q: Self)
        ensures
            sorted_desc(q.rows@),
            q.rows@.to_multiset() == self.rows@.to_multiset(),
    {
        let rows = self.rows;
        let mut out: Vec<Transaction> = Vec::new();
        let mut k: usize = 0;
        while k < rows.len()
            invariant
                0 <= k <= rows@.len(),
                sorted_desc(out@),
                out@.to_multiset() == rows@.subrange(0, k as int).to_multiset(),
            decreases rows@.len() - k,
        {
            let row = rows[k].clone();
            let i = find_insert_pos(&out, row.created_at);
            let ghost pre = out@;
            proof {
                pre.insert_ensures(i as int, row);
            }
            out.insert(i, row);
            proof {
                assert forall|a: int, b: int|
                    0 <= a < b < out@.len() implies out@[a].created_at >= out@[b].created_at by {
                    if a < i as int && b < i as int {
                        assert(out@[a] == pre[a] && out@[b] == pre[b]);
                    } else if a < i as int && b == i as int {
                        assert(out@[a] == pre[a]);
                    } else if a < i as int && b > i as int {
                        assert(out@[a] == pre[a] && out@[b] == pre[b - 1]);
                    } else if a == i as int {
                        assert(out@[b] == pre[b - 1]);
                        assert(pre[b - 1].created_at < row.created_at || (i as int) > b - 1);
                    } else {
                        assert(out@[a] == pre[a - 1] && out@[b] == pre[b - 1]);
                    }
                }
                assert(rows@.subrange(0, k + 1 as int) =~= rows@.subrange(0, k as int).push(
                    rows@[k as int],
                ));
                assert(out@.to_multiset() =~= rows@.subrange(0, k + 1 as int).to_multiset());
            }
            k = k + 1;
        }
        assert(rows@.subrange(0, rows@.len() as int) =~= rows@);
        LazyQuery { rows: out }
    }

    /// All the rows the query holds, in order.
    pub fn load(self) -> (r: Vec<Transaction>)
        ensures
            r@ == self.rows@,
    {
        self.rows
    }

    /// The first row the query holds; a missing-row error when it holds
    /// none.
    pub fn first(self) -> (r: Result<Transaction, StoreError>)
        ensures
            match r {
                Ok(row) => self.rows@.len() > 0 && row == self.rows@[0],
                Err(e) => self.rows@.len() == 0 && e.kind is NotFound,
            },
    {
        if self.rows.len() > 0 {
            Ok(self.rows[0].clone())
        } else {
            Err(StoreError { kind: StoreErrorKind::NotFound })
        }
    }
}

/// The first position whose row was created strictly before the given
/// time, in a newest-first list: where a row created then belongs.
fn find_insert_pos(out: &Vec<Transaction>, created_at: u64) -> (i: usize)
    requires
        sorted_desc(out@),
    ensures
        0 <= i <= out@.len(),
        forall|j: int| 0 <= j < i ==> out@[j].created_at >= created_at,
        i < out@.len() ==> out@[i as int].created_at < created_at,
{
    let mut i: usize = 0;
    while i < out.len() && out[i].created_at >= created_at
        invariant
            0 <= i <= out@.len(),
            forall|j: int| 0 <= j < i ==> out@[j].created_at >= created_at,
        decreases out@.len() - i,
    {
        i = i + 1;
    }
    i
}

/// The transaction table: rows with unique identifiers, handed out in
/// creation order, and the next identifier to mint.
#[derive(Debug)]
pub struct TransactionTable {
    pub rows: Vec<Transaction>,
    pub next_id: i64,
}

/// The table's invariant: identifiers are unique, positive, and below
/// the next to mint.
pub open spec fn table_wf(t: TransactionTable) -> bool {
    &&& 1 <= t.next_id
    &&& forall|i: int| 0 <= i < t.rows@.len() ==> 1 <= (#[trigger] t.rows@[i]).id < t.next_id
    &&& forall|i: int, j: int| 0 <= i < j < t.rows@.len() ==> t.rows@[i].id != t.rows@[j].id
}

impl TransactionTable {
    /// An empty table.
    pub fn new() -> (t: Self)
        ensures
            t.rows@.len() == 0,
            t.next_id == 1,
            table_wf(t),
    {
        TransactionTable { rows: Vec::new(), next_id: 1 }
    }

    /// A query over all the table's rows.
    pub fn query(&self) -> (q: LazyQuery)
        ensures
            q.rows@ == self.rows@,
    {
        LazyQuery { rows: clone_rows(&self.rows) }
    }

    /// The row with the given identifier; a missing-row error when the
    /// table holds none.
    pub fn find(&self, id: i64) -> (r: Result<Transaction, StoreError>)
        ensures
            match r {
                Ok(row) => spec_find(self.rows@, id) is Some && row == self.rows@[spec_find(
                    self.rows@,
                    id,
                ).unwrap()],
                Err(e) => spec_find(self.rows@, id) is None && e.kind is NotFound,
            },
    {
        let n = self.rows.len();
        let mut i: usize = 0;
        while i < n
            invariant
                0 <= i <= n,
                n == self.rows@.len(),
                spec_find(self.rows@, id) == find_id_from(self.rows@, id, i as int),
            decreases n - i,
        {
            if self.rows[i].id == id {
                return Ok(self.rows[i].clone());
            }
            i = i + 1;
        }
        Err(StoreError { kind: StoreErrorKind::NotFound })
    }

    /// Inserts a row with a fresh identifier. The write must supply
    /// state, branch and dialog; timestamps default to the clock
    /// reading. A write missing a required field is refused whole.
    pub fn create(&mut self, record: DirtyTransaction, now: u64) -> (r: Result<
        Transaction,
        StoreError,
    >)
        requires
            table_wf(*old(self)),
            old(self).next_id < i64::MAX,
        ensures
            table_wf(*final(self)),
            match r {
                Ok(row) => ({
                    &&& record.state is Some
                    &&& record.branch_id is Some
                    &&& record.dialog_id is Some
                    &&& row.id == old(self).next_id
                    &&& row.state == record.state.unwrap()
                    &&& row.branch_id == record.branch_id.unwrap()
                    &&& row.dialog_id == record.dialog_id.unwrap()
                    &&& row.created_at == (if record.created_at is Some {
                        record.created_at.unwrap()
                    } else {
                        now
                    })
                    &&& row.updated_at == (if record.updated_at is Some {
                        record.updated_at.unwrap()
                    } else {
                        now
                    })
                    &&& final(self).rows@ == old(self).rows@.push(row)
                    &&& final(self).next_id == old(self).next_id + 1
                }),
                Err(e) => ({
                    &&& (record.state is None || record.branch_id is None
                        || record.dialog_id is None)
                    &&& *final(self) == *old(self)
                    &&& e.kind is Backend
                }),
            },
    {
        let DirtyTransaction { created_at, updated_at, state, branch_id, dialog_id } = record;
        let state = match state {
            Some(s) => s,
            None => {
                return Err(StoreError::custom(String::from_str("a new row needs a state")));
            },
        };
        let branch_id = match branch_id {
            Some(b) => b,
            None => {
                return Err(StoreError::custom(String::from_str("a new row needs a branch")));
            },
        };
        let dialog_id = match dialog_id {
            Some(d) => d,
            None => {
                return Err(StoreError::custom(String::from_str("a new row needs a dialog")));
            },
        };
        let row = Transaction {
            id: self.next_id,
            created_at: match created_at {
                Some(t) => t,
                None => now,
            },
            updated_at: match updated_at {
                Some(t) => t,
                None => now,
            },
            state,
            branch_id,
            dialog_id,
        };
        let out = row.clone();
        self.rows.push(row);
        self.next_id = self.next_id + 1;
        Ok(out)
    }

    /// Rewrites the row with the given identifier: supplied fields
    /// replace stored ones, missing fields — the update time included —
    /// keep what the row held. A missing row is an error and changes
    /// nothing.
    pub fn update(&mut self, record: DirtyTransaction, id: i64) -> (r: Result<
        Transaction,
        StoreError,
    >)
        requires
            table_wf(*old(self)),
        ensures
            table_wf(*final(self)),
            final(self).next_id == old(self).next_id,
            match r {
                Ok(row) => ({
                    let at = spec_find(old(self).rows@, id);
                    &&& at is Some
                    &&& row == updated_row(old(self).rows@[at.unwrap()], record)
                    &&& final(self).rows@ == old(self).rows@.update(at.unwrap(), row)
                }),
                Err(e) => spec_find(old(self).rows@, id) is None && *final(self) == *old(self)
                    && e.kind is NotFound,
            },
    {
        let n = self.rows.len();
        let mut i: usize = 0;
        while i < n
            invariant
                0 <= i <= n,
                n == self.rows@.len(),
                spec_find(self.rows@, id) == find_id_from(self.rows@, id, i as int),
                *self == *old(self),
                table_wf(*self),
            decreases n - i,
        {
            if self.rows[i].id == id {
                let stored = &self.rows[i];
                let row = Transaction {
                    id: stored.id,
                    created_at: match record.created_at {
                        Some(t) => t,
                        None => stored.created_at,
                    },
                    updated_at: match record.updated_at {
                        Some(t) => t,
                        None => stored.updated_at,
                    },
                    state: match record.state {
                        Some(s) => s,
                        None => stored.state,
                    },
                    branch_id: match record.branch_id {
                        Some(b) => b,
                        None => stored.branch_id.clone(),
                    },
                    dialog_id: match record.dialog_id {
                        Some(d) => d,
                        None => stored.dialog_id,
                    },
                };
                let ghost pre = self.rows@;
                let out = row.clone();
                self.rows.set(i, row);
                proof {
                    assert forall|a: int, b: int|
                        0 <= a < b < self.rows@.len() implies self.rows@[a].id
                        != self.rows@[b].id by {
                        assert(pre[a].id != pre[b].id);
                        assert(a != i as int ==> self.rows@[a] == pre[a]);
                        assert(b != i as int ==> self.rows@[b] == pre[b]);
                        assert(self.rows@[i as int].id == pre[i as int].id);
                    }
                }
                return Ok(out);
            }
            i = i + 1;
        }
        Err(StoreError { kind: StoreErrorKind::NotFound })
    }

    /// Removes and returns the row with the given identifier. A missing
    /// row is an error and changes nothing.
    pub fn delete(&mut self, id: i64) -> (r: Result<Transaction, StoreError>)
        requires
            table_wf(*old(self)),
        ensures
            table_wf(*final(self)),
            final(self).next_id == old(self).next_id,
            match r {
                Ok(row) => ({
                    let at = spec_find(old(self).rows@, id);
                    &&& at is Some
                    &&& row == old(self).rows@[at.unwrap()]
                    &&& final(self).rows@ == old(self).rows@.remove(at.unwrap())
                }),
                Err(e) => spec_find(old(self).rows@, id) is None && *final(self) == *old(self)
                    && e.kind is NotFound,
            },
    {
        let n = self.rows.len();
        let mut i: usize = 0;
        while i < n
            invariant
                0 <= i <= n,
                n == self.rows@.len(),
                spec_find(self.rows@, id) == find_id_from(self.rows@, id, i as int),
                *self == *old(self),
                table_wf(*self),
            decreases n - i,
        {
            if self.rows[i].id == id {
                let ghost pre = self.rows@;
                let row = self.rows.remove(i);
                proof {
                    pre.remove_ensures(i as int);
                    assert forall|a: int, b: int|
                        0 <= a < b < self.rows@.len() implies self.rows@[a].id
                        != self.rows@[b].id by {
                        let pa: int = if a < i as int {
                            a
                        } else {
                            a + 1
                        };
                        let pb: int = if b < i as int {
                            b
                        } else {
                            b + 1
                        };
                        assert(self.rows@[a] == pre[pa]);
                        assert(self.rows@[b] == pre[pb]);
                        assert(pre[pa].id != pre[pb].id);
                    }
                    assert forall|a: int| 0 <= a < self.rows@.len() implies 1 <= (
                    #[trigger] self.rows@[a]).id < self.next_id by {
                        let pa: int = if a < i as int {
                            a
                        } else {
                            a + 1
                        };
                        assert(self.rows@[a] == pre[pa]);
                    }
                }
                return Ok(row);
            }
            i = i + 1;
        }
        Err(StoreError { kind: StoreErrorKind::NotFound })
    }
}

} // verus!
