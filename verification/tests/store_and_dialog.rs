use sipcore::dialog::{Dialog, DialogFlow, DialogPhase};
use sipcore::message::{CSeq, HostPort, Method, Uri};
use sipcore::store::{DirtyTransaction, TransactionState, TransactionTable};

fn dirty(branch: &str, dialog_id: i64, created_at: u64) -> DirtyTransaction {
    DirtyTransaction {
        created_at: Some(created_at),
        updated_at: Some(created_at),
        state: Some(TransactionState::Trying),
        branch_id: Some(branch.to_string()),
        dialog_id: Some(dialog_id),
    }
}

#[test]
fn states_read_and_write_lowercase_text() {
    assert_eq!(TransactionState::Trying.as_text(), "trying");
    assert_eq!(TransactionState::Proceeding.as_text(), "proceeding");
    assert_eq!(TransactionState::Completed.as_text(), "completed");
    assert_eq!(TransactionState::Terminated.as_text(), "terminated");
    assert_eq!(TransactionState::from_text("trying"), Some(TransactionState::Trying));
    assert_eq!(TransactionState::from_text("TERMINATED"), Some(TransactionState::Terminated));
    assert_eq!(TransactionState::from_text("Proceeding"), Some(TransactionState::Proceeding));
    assert_eq!(TransactionState::from_text("gone"), None);
    assert_eq!(TransactionState::from_text(""), None);
}

#[test]
fn create_find_update_delete_round_trip() {
    let mut table = TransactionTable::new();
    let row = table.create(dirty("b-1", 7, 100), 100).unwrap();
    assert_eq!(row.id, 1);
    assert_eq!(row.branch_id, "b-1");
    assert_eq!(row.dialog_id, 7);
    let found = table.find(1).unwrap();
    assert_eq!(found.branch_id, "b-1");
    assert!(table.find(2).unwrap_err().is_not_found());

    // An update replaces only the supplied fields; the rest, the
    // timestamps included, keep what the row held.
    let patch = DirtyTransaction {
        state: Some(TransactionState::Completed),
        ..DirtyTransaction::default()
    };
    let updated = table.update(patch, 1).unwrap();
    assert_eq!(updated.state, TransactionState::Completed);
    assert_eq!(updated.branch_id, "b-1");
    assert_eq!(updated.updated_at, 100);
    assert_eq!(updated.created_at, 100);
    // A supplied update time replaces the stored one.
    let patch = DirtyTransaction { updated_at: Some(250), ..DirtyTransaction::default() };
    let updated = table.update(patch, 1).unwrap();
    assert_eq!(updated.updated_at, 250);
    assert_eq!(updated.state, TransactionState::Completed);

    let gone = table.delete(1).unwrap();
    assert_eq!(gone.id, 1);
    assert!(table.find(1).unwrap_err().is_not_found());
    assert!(table.delete(1).unwrap_err().is_not_found());
}

#[test]
fn a_create_missing_required_fields_is_refused() {
    let mut table = TransactionTable::new();
    let err = table.create(DirtyTransaction::default(), 5).unwrap_err();
    assert!(!err.is_not_found());
    assert!(matches!(err.kind, sipcore::errors::StoreErrorKind::Backend(_)));
    assert!(table.rows.is_empty());
}

#[test]
fn queries_filter_order_and_paginate() {
    let mut table = TransactionTable::new();
    table.create(dirty("b-1", 1, 300), 0).unwrap();
    table.create(dirty("b-2", 1, 100), 0).unwrap();
    table.create(dirty("b-1", 1, 200), 0).unwrap();

    // Filtering keeps only the matching branch, in table order.
    let rows = table.query().branch_id(Some("b-1".to_string())).load();
    assert_eq!(rows.len(), 2);
    assert_eq!(rows[0].created_at, 300);
    assert_eq!(rows[1].created_at, 200);

    // No filter keeps everything.
    assert_eq!(table.query().branch_id(None).load().len(), 3);

    // Ordering is newest first.
    let rows = table.query().order_by_created_at().load();
    assert_eq!(
        rows.iter().map(|r| r.created_at).collect::<Vec<_>>(),
        vec![300, 200, 100]
    );

    // Pagination slices after ordering.
    let rows = table.query().order_by_created_at().paginate(2, 2).load();
    assert_eq!(rows.len(), 1);
    assert_eq!(rows[0].created_at, 100);
    let rows = table.query().order_by_created_at().paginate(3, 2).load();
    assert!(rows.is_empty());

    // First returns the head, or a missing-row error when empty.
    let first = table.query().order_by_created_at().first().unwrap();
    assert_eq!(first.created_at, 300);
    let err = table.query().branch_id(Some("b-9".to_string())).first().unwrap_err();
    assert!(err.is_not_found());
}

#[test]
fn a_dialog_mints_one_stable_local_tag() {
    let mut d = Dialog::create("call-7".to_string(), None, DialogFlow::Uas, 10);
    assert_eq!(d.phase, DialogPhase::Early);
    assert_eq!(d.local_tag.len(), 36);
    let minted = d.local_tag.clone();
    d.confirm("remote-tag".to_string(), 20);
    assert_eq!(d.phase, DialogPhase::Confirmed);
    assert_eq!(d.local_tag, minted);
    assert_eq!(d.remote_tag.as_deref(), Some("remote-tag"));
    d.terminate(30);
    assert_eq!(d.phase, DialogPhase::Terminated);
    assert_eq!(d.local_tag, minted);
}

#[test]
fn cseq_ordering_is_enforced_per_method() {
    let mut d = Dialog::create("call-8".to_string(), None, DialogFlow::Uas, 0);
    assert!(d.accept_cseq(CSeq { seq: 2, method: Method::Invite }, 1));
    // Not greater than the last seen for INVITE: refused.
    assert!(!d.accept_cseq(CSeq { seq: 2, method: Method::Invite }, 2));
    assert!(!d.accept_cseq(CSeq { seq: 1, method: Method::Invite }, 3));
    // Another method has its own ordering.
    assert!(d.accept_cseq(CSeq { seq: 1, method: Method::Bye }, 4));
    assert!(d.accept_cseq(CSeq { seq: 3, method: Method::Invite }, 5));
}

#[test]
fn registration_upsert_is_idempotent() {
    let mut table = sipcore::registration::RegistrationTable::new();
    let aor = Uri { user: Some("alice".to_string()), host_with_port: HostPort { host: "127.0.0.1".to_string(), port: 5060 } };
    let contact = Uri { user: None, host_with_port: HostPort { host: "192.0.2.1".to_string(), port: 5062 } };
    let first = table.upsert(
        aor.clone(),
        contact.clone(),
        4600,
        sipcore::message::Transport::Udp,
        "alice".to_string(),
    );
    let second = table.upsert(
        aor.clone(),
        contact.clone(),
        4600,
        sipcore::message::Transport::Udp,
        "alice".to_string(),
    );
    assert_eq!(table.rows.len(), 1);
    assert_eq!(first.id, second.id);
    assert_eq!(table.rows[0].expires_at, 4600);
    // A different address-of-record gets its own row.
    let other = Uri { user: Some("bob".to_string()), ..aor };
    table.upsert(other, contact, 9000, sipcore::message::Transport::Udp, "bob".to_string());
    assert_eq!(table.rows.len(), 2);
}
