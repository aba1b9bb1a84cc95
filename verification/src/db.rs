//! The durable quote store: a transactional key-value table in a redb
//! database file, keyed by the quote identifier's bytes and holding
//! encoded quote records.
//!
//! The redb engine is trusted through the wrappers below; everything that
//! reads, checks or rewrites a record is verified against the store's
//! contents, modelled as a map from key bytes to record bytes. The
//! compare-and-set state transition runs inside a single write
//! transaction, so conflicting writers are serialized by the engine.

use vstd::prelude::*;
use redb::ReadableDatabase;
use redb::ReadableTable;
use crate::codec::{decode_quote_spec, encode_quote_spec, spec_key, decode_quote, encode_quote, id_key};
use crate::error::PosError;
use crate::types::{QuoteInfo, QuoteState};

verus! {

#[verifier::external_type_specification]
#[verifier::external_body]
pub struct ExDatabase(redb::Database);

#[verifier::external_type_specification]
#[verifier::external_body]
pub struct ExWriteTransaction(redb::WriteTransaction);

/// What the quotes table of a database holds: record bytes under key bytes.
pub uninterp spec fn kv_contents(db: redb::Database) -> Map<Seq<u8>, Seq<u8>>;

/// What the quotes table holds as seen from inside a write transaction.
pub uninterp spec fn txn_contents(t: redb::WriteTransaction) -> Map<Seq<u8>, Seq<u8>>;

/// Relies on redb::Database::create: opens (or creates) the database file
/// at `path` and runs one write transaction that opens the quotes table,
/// creating it if absent; idempotent on an existing file.
#[verifier::external_body]
fn db_open(path: &str) -> (r: Result<redb::Database, PosError>)
    ensures
        r matches Err(e) ==> e matches PosError::DatabaseError(_),
{
    let db = redb::Database::create(path).map_err(|e| PosError::DatabaseError(e.to_string()))?;
    let txn = db.begin_write().map_err(|e| PosError::DatabaseError(e.to_string()))?;
    let td: redb::TableDefinition<&[u8], &[u8]> = redb::TableDefinition::new("quotes");
    txn.open_table(td).map_err(|e| PosError::DatabaseError(e.to_string()))?;
    txn.commit().map_err(|e| PosError::DatabaseError(e.to_string()))?;
    Ok(db)
}

/// Relies on redb::Database::begin_read and ReadOnlyTable::get: one read
/// transaction that returns the value stored under `key`, if any.
#[verifier::external_body]
fn kv_read(db: &redb::Database, key: &Vec<u8>) -> (r: Result<Option<Vec<u8>>, PosError>)
    ensures
        r matches Ok(v) ==> match v {
            Some(b) => kv_contents(*db).contains_key(key@) && b@ == kv_contents(*db)[key@],
            None => !kv_contents(*db).contains_key(key@),
        },
        r matches Err(e) ==> e matches PosError::DatabaseError(_),
{
    let txn = db.begin_read().map_err(|e| PosError::DatabaseError(e.to_string()))?;
    let td: redb::TableDefinition<&[u8], &[u8]> = redb::TableDefinition::new("quotes");
    let table = txn.open_table(td).map_err(|e| PosError::DatabaseError(e.to_string()))?;
    let guard = table.get(key.as_slice()).map_err(|e| PosError::DatabaseError(e.to_string()))?;
    Ok(guard.map(|g| g.value().to_vec()))
}

/// Relies on redb::Database::begin_write: starts a write transaction that
/// sees the database's current contents.
#[verifier::external_body]
fn txn_begin(db: &redb::Database) -> (r: Result<redb::WriteTransaction, PosError>)
    ensures
        r matches Ok(t) ==> txn_contents(t) == kv_contents(*db),
        r matches Err(e) ==> e matches PosError::DatabaseError(_),
{
    db.begin_write().map_err(|e| PosError::DatabaseError(e.to_string()))
}

/// Relies on redb's Table::get inside a write transaction: returns the
/// value stored under `key` as this transaction sees it, if any.
#[verifier::external_body]
fn txn_get(t: &redb::WriteTransaction, key: &Vec<u8>) -> (r: Result<Option<Vec<u8>>, PosError>)
    ensures
        r matches Ok(v) ==> match v {
            Some(b) => txn_contents(*t).contains_key(key@) && b@ == txn_contents(*t)[key@],
            None => !txn_contents(*t).contains_key(key@),
        },
        r matches Err(e) ==> e matches PosError::DatabaseError(_),
{
    let td: redb::TableDefinition<&[u8], &[u8]> = redb::TableDefinition::new("quotes");
    let table = t.open_table(td).map_err(|e| PosError::DatabaseError(e.to_string()))?;
    let guard = table.get(key.as_slice()).map_err(|e| PosError::DatabaseError(e.to_string()))?;
    Ok(guard.map(|g| g.value().to_vec()))
}

/// Relies on redb's Table::insert inside a write transaction: stores
/// `value` under `key` in this transaction's view, replacing any
/// previous value.
#[verifier::external_body]
fn txn_put(t: &mut redb::WriteTransaction, key: &Vec<u8>, value: &Vec<u8>) -> (r: Result<
    (),
    PosError,
>)
    ensures
        r matches Ok(_) ==> txn_contents(*final(t)) == txn_contents(*old(t)).insert(key@, value@),
        r matches Err(e) ==> e matches PosError::DatabaseError(_),
{
    let td: redb::TableDefinition<&[u8], &[u8]> = redb::TableDefinition::new("quotes");
    let mut table = t.open_table(td).map_err(|e| PosError::DatabaseError(e.to_string()))?;
    table.insert(key.as_slice(), value.as_slice()).map_err(
        |e| PosError::DatabaseError(e.to_string()),
    )?;
    Ok(())
}

/// Relies on redb::WriteTransaction::commit: atomically makes the
/// transaction's view the database's durable contents. The change is
/// all or nothing, but a commit that returns an error may already have
/// become durable, so after a failure the store holds either its old
/// contents or exactly the transaction's view. A transaction dropped
/// without commit changes nothing.
#[verifier::external_body]
fn txn_commit(db: &mut redb::Database, t: redb::WriteTransaction) -> (r: Result<(), PosError>)
    ensures
        r matches Ok(_) ==> kv_contents(*final(db)) == txn_contents(t),
        r matches Err(e) ==> (kv_contents(*final(db)) == kv_contents(*old(db)) || kv_contents(
            *final(db),
        ) == txn_contents(t)) && e matches PosError::DatabaseError(_),
{
    t.commit().map_err(|e| PosError::DatabaseError(e.to_string()))
}

/// The durable quote store.
pub struct Db {
    table: redb::Database,
}

impl Db {
    /// The store's contents: the raw record bytes under each key.
    pub closed spec fn quotes(self) -> Map<Seq<u8>, Seq<u8>> {
        kv_contents(self.table)
    }

    /// Whether a record is stored under the key of `id`.
    pub open spec fn stored(self, id: u128) -> bool {
        self.quotes().contains_key(spec_key(id))
    }

    /// The quote decoded from the record under the key of `id`; only
    /// meaningful where `stored(id)` holds.
    pub open spec fn record_at(self, id: u128) -> Option<QuoteInfo> {
        decode_quote_spec(self.quotes()[spec_key(id)])
    }

    /// Opens the store at `path`, creating the backing file and the
    /// quotes table if absent.
    pub fn new(path: &str) -> (r: Result<Db, PosError>)
        ensures
            r matches Err(e) ==> e matches PosError::DatabaseError(_),
    {
        let table = db_open(path)?;
        Ok(Db { table })
    }

    /// Writes a quote's record under its identifier's key inside one
    /// write transaction, replacing any existing record with that key.
    /// On failure the store is unchanged, or — where the commit itself
    /// failed after becoming durable — holds exactly the written record.
    pub fn add_quote(&mut self, quote_info: &QuoteInfo) -> (r: Result<(), PosError>)
        ensures
            r matches Ok(_) ==> final(self).quotes() == old(self).quotes().insert(
                spec_key(quote_info.id),
                encode_quote_spec(*quote_info),
            ),
            r matches Err(e) ==> (final(self).quotes() == old(self).quotes() || final(self).quotes()
                == old(self).quotes().insert(
                spec_key(quote_info.id),
                encode_quote_spec(*quote_info),
            )) && e matches PosError::DatabaseError(_),
    {
        let key = id_key(quote_info.id);
        let value = encode_quote(quote_info);
        let mut txn = txn_begin(&self.table)?;
        match txn_put(&mut txn, &key, &value) {
            Ok(_) => {},
            Err(e) => {
                return Err(e);
            },
        }
        txn_commit(&mut self.table, txn)
    }

    /// Reads and decodes the quote stored under `quote_id` inside one
    /// read transaction. Fails with `QuoteNotFound` exactly when no
    /// record is stored, with `DeserializationError` exactly when the
    /// stored record does not decode, and with `DatabaseError` only on a
    /// storage failure.
    pub fn get_quote(&self, quote_id: u128) -> (r: Result<QuoteInfo, PosError>)
        ensures
            r matches Ok(q) ==> self.stored(quote_id) && self.record_at(quote_id) == Some(q),
            r matches Err(e) ==> match e {
                PosError::QuoteNotFound(i) => i == quote_id && !self.stored(quote_id),
                PosError::DeserializationError => self.stored(quote_id) && self.record_at(quote_id)
                    is None,
                PosError::DatabaseError(_) => true,
                _ => false,
            },
    {
        let key = id_key(quote_id);
        match kv_read(&self.table, &key)? {
            Some(v) => match decode_quote(&v) {
                Some(q) => Ok(q),
                None => Err(PosError::DeserializationError),
            },
            None => Err(PosError::QuoteNotFound(quote_id)),
        }
    }

    /// Compare-and-set on the quote's state, inside a single write
    /// transaction: reads the record under `quote_id`, verifies its state
    /// equals `expected`, and only then rewrites it with `new_state`,
    /// returning the pre-transition quote. On a state mismatch it fails
    /// with `InvalidQuoteState` carrying the current state, changing
    /// nothing. No failure changes the store, except a storage failure
    /// in the commit itself, after which the store holds either its old
    /// contents or exactly the rewritten record.
    pub fn update_quote_state(
        &mut self,
        quote_id: u128,
        expected: QuoteState,
        new_state: QuoteState,
    ) -> (r: Result<QuoteInfo, PosError>)
        ensures
            r matches Ok(prev) ==> old(self).stored(quote_id) && old(self).record_at(quote_id)
                == Some(prev) && prev.state == expected && final(self).quotes() == old(
                self,
            ).quotes().insert(
                spec_key(quote_id),
                encode_quote_spec(
                    QuoteInfo { id: prev.id, amount: prev.amount, unit: prev.unit, state: new_state },
                ),
            ),
            r matches Err(e) ==> match e {
                PosError::QuoteNotFound(i) => i == quote_id && !old(self).stored(quote_id) && final(self).quotes() == old(self).quotes(),
                PosError::InvalidQuoteState { id: i, state: st } => i == quote_id && old(
                    self,
                ).stored(quote_id) && (old(self).record_at(quote_id) matches Some(q) && q.state
                    != expected && st == q.state) && final(self).quotes() == old(self).quotes(),
                PosError::DeserializationError => old(self).stored(quote_id) && old(self).record_at(
                    quote_id,
                ) is None && final(self).quotes() == old(self).quotes(),
                PosError::DatabaseError(_) => final(self).quotes() == old(self).quotes() || (old(
                    self,
                ).stored(quote_id) && (old(self).record_at(quote_id) matches Some(q) && q.state
                    == expected && final(self).quotes() == old(self).quotes().insert(
                    spec_key(quote_id),
                    encode_quote_spec(
                        QuoteInfo {
                            id: q.id,
                            amount: q.amount,
                            unit: q.unit,
                            state: new_state,
                        },
                    ),
                ))),
                _ => false,
            },
    {
        let key = id_key(quote_id);
        let mut txn = txn_begin(&self.table)?;
        let v = match txn_get(&txn, &key) {
            Ok(Some(v)) => v,
            Ok(None) => {
                return Err(PosError::QuoteNotFound(quote_id));
            },
            Err(e) => {
                return Err(e);
            },
        };
        let q = match decode_quote(&v) {
            Some(q) => q,
            None => {
                return Err(PosError::DeserializationError);
            },
        };
        if q.state != expected {
            return Err(PosError::InvalidQuoteState { id: quote_id, state: q.state });
        }
        let updated = QuoteInfo { id: q.id, amount: q.amount, unit: q.unit, state: new_state };
        let new_v = encode_quote(&updated);
        match txn_put(&mut txn, &key, &new_v) {
            Ok(_) => {},
            Err(e) => {
                return Err(e);
            },
        }
        match txn_commit(&mut self.table, txn) {
            Ok(_) => Ok(q),
            Err(e) => Err(e),
        }
    }
}

} // verus!
