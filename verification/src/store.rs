//! The external record store behind one frame's render pass: a read-only
//! snapshot opened before the row loop, and a per-row key lookup against it.
//! What the store returns depends on its contents, so nothing is promised of
//! an individual lookup; the row logic is verified for either outcome.

use vstd::prelude::*;
use crate::view::TimelineTabView;

verus! {

#[verifier::external_type_specification]
#[verifier::external_body]
pub struct ExNdb(nostrdb::Ndb);

#[verifier::external_type_specification]
#[verifier::external_body]
pub struct ExTransaction(nostrdb::Transaction);

#[verifier::external_type_specification]
#[verifier::external_body]
pub struct ExError(nostrdb::Error);

#[verifier::external_type_specification]
#[verifier::external_body]
pub struct ExNote<'a>(nostrdb::Note<'a>);

/// Relies on nostrdb::Transaction::new: begins a read-only query transaction
/// on the store, or reports that it could not.
#[verifier::external_body]
fn new_transaction(ndb: &nostrdb::Ndb) -> (r: Result<nostrdb::Transaction, nostrdb::Error>) {
    nostrdb::Transaction::new(ndb)
}

/// Relies on nostrdb::Ndb::get_note_by_key: looks a record key up in the
/// given snapshot; which keys resolve depends on the store's contents.
#[verifier::external_body]
fn get_note_raw<'a>(ndb: &nostrdb::Ndb, txn: &'a nostrdb::Transaction, key: u64) -> (r: Result<
    nostrdb::Note<'a>,
    nostrdb::Error,
>) {
    ndb.get_note_by_key(txn, nostrdb::NoteKey::new(key))
}

/// Opens the read snapshot that scopes one render pass. `None` is fatal to
/// this frame's render: the view paints nothing and returns no action.
pub fn open_snapshot(ndb: &nostrdb::Ndb) -> (r: Option<nostrdb::Transaction>) {
    match new_transaction(ndb) {
        Ok(txn) => Some(txn),
        Err(_) => None,
    }
}

/// Resolves the record shown at display position `start_index` of one tab's
/// render pass: maps the position to its logical index, takes the item's key
/// there, and looks the key up in the frame's snapshot. `None` is fatal only
/// to this row; the caller reports it as the row's event and the pass goes
/// on.
pub fn resolve_row<'t>(
    view: &TimelineTabView<'_>,
    ndb: &nostrdb::Ndb,
    txn: &'t nostrdb::Transaction,
    start_index: usize,
) -> (r: Option<nostrdb::Note<'t>>)
    requires
        start_index < view.tab.notes@.len(),
{
    let key = view.row_key(start_index);
    match get_note_raw(ndb, txn, key) {
        Ok(note) => Some(note),
        Err(_) => None,
    }
}

} // verus!
