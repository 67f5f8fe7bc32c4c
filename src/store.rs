//! Rows of the pending store: one per transaction, every byte field in its
//! text projection, keyed by the hexadecimal id.
use crate::text::{hex_bytes, hex_text, lemma_hex_round_trip, BASE58_MAX_BYTES};
use crate::transactions::{from, from_fields_result, text_fields, Transaction, TransactionView, TxError};
use vstd::prelude::*;

verus! {

/// id, sender address, sender public key, receiver address, amount,
/// timestamp, signature
pub type RowView = (Seq<char>, Seq<char>, Seq<char>, Seq<char>, i32, i64, Seq<char>);

/// One stored pending transaction.
#[derive(Debug, Clone, PartialEq)]
pub struct StoredRow {
    pub id: String,
    pub sender_addr: String,
    pub sender_pubkey: String,
    pub receiver_addr: String,
    pub amount: i32,
    pub timestamp: i64,
    pub signature: String,
}

impl View for StoredRow {
    type V = RowView;

    open spec fn view(&self) -> RowView {
        (
            self.id@,
            self.sender_addr@,
            self.sender_pubkey@,
            self.receiver_addr@,
            self.amount,
            self.timestamp,
            self.signature@,
        )
    }
}

/// The transaction that a row stands for, or `None` where a field does not decode.
pub open spec fn row_transaction(r: RowView) -> Option<TransactionView> {
    from_fields_result(r.0, r.1, r.2, r.3, r.4, r.5, r.6)
}

/// The row under which a transaction is stored.
pub fn row_of(tx: &Transaction) -> (r: StoredRow)
    ensures
        r@ == text_fields(tx@),
        tx@.1.0.0.len() <= BASE58_MAX_BYTES && tx@.1.0.2.len() <= BASE58_MAX_BYTES
            ==> row_transaction(r@) == Some(tx@),
{
    let (id, sender_addr, sender_pubkey, receiver_addr, amount, timestamp, signature) =
        tx.text_fields();
    StoredRow { id, sender_addr, sender_pubkey, receiver_addr, amount, timestamp, signature }
}

/// The transaction that a stored row holds, every text field decoded.
pub fn transaction_of_row(row: &StoredRow) -> (r: Result<Transaction, TxError>)
    ensures
        match row_transaction(row@) {
            Some(t) => r matches Ok(v) && v@ == t,
            None => r == Err::<Transaction, TxError>(TxError::EncodingError),
        },
{
    from(
        &row.id,
        &row.sender_addr,
        &row.sender_pubkey,
        &row.receiver_addr,
        row.amount,
        row.timestamp,
        &row.signature,
    )
}

/// The transactions that rows read from the store hold, in the same order;
/// an error where any row does not decode.
pub fn transactions_from_rows(rows: &Vec<StoredRow>) -> (r: Result<Vec<Transaction>, TxError>)
    ensures
        (forall|i: int| 0 <= i < rows@.len() ==> #[trigger] row_transaction(rows@[i]@) is Some)
            ==> (r matches Ok(v) && v@.len() == rows@.len() && forall|i: int|
            0 <= i < rows@.len() ==> Some(#[trigger] v@[i]@) == row_transaction(rows@[i]@)),
        !(forall|i: int| 0 <= i < rows@.len() ==> #[trigger] row_transaction(rows@[i]@) is Some)
            ==> r == Err::<Vec<Transaction>, TxError>(TxError::EncodingError),
{
    let mut out: Vec<Transaction> = Vec::new();
    let mut i: usize = 0;
    while i < rows.len()
        invariant
            i <= rows@.len(),
            out@.len() == i,
            forall|j: int| 0 <= j < i ==> #[trigger] row_transaction(rows@[j]@) is Some,
            forall|j: int| 0 <= j < i ==> Some(#[trigger] out@[j]@) == row_transaction(rows@[j]@),
        decreases rows@.len() - i,
    {
        match transaction_of_row(&rows[i]) {
            Ok(t) => out.push(t),
            Err(e) => return Err(e),
        }
        i = i + 1;
    }
    Ok(out)
}

/// Whether some row is stored under this id text.
pub open spec fn has_id(rows: Seq<RowView>, id: Seq<char>) -> bool {
    exists|i: int| 0 <= i < rows.len() && #[trigger] rows[i].0 == id
}

/// Every row decodes, its id text is the hexadecimal of the decoded id, and
/// no two rows share an id.
pub open spec fn rows_wf(rows: Seq<RowView>) -> bool {
    &&& forall|i: int|
        0 <= i < rows.len() ==> (#[trigger] row_transaction(rows[i]) matches Some(t) && hex_text(
            t.0,
        ) == rows[i].0)
    &&& forall|i: int, j: int|
        0 <= i < j < rows.len() ==> #[trigger] rows[i].0 != #[trigger] rows[j].0
}

/// Pending transactions held in memory, one row each, unique by id.
pub struct PendingStore {
    rows: Vec<StoredRow>,
}

impl View for PendingStore {
    type V = Seq<RowView>;

    closed spec fn view(&self) -> Seq<RowView> {
        self.rows@.map_values(|r: StoredRow| r@)
    }
}

impl PendingStore {
    pub open spec fn wf(&self) -> bool {
        rows_wf(self@)
    }

    /// An empty store.
    pub fn new() -> (r: PendingStore)
        ensures
            r@ == Seq::<RowView>::empty(),
            r.wf(),
    {
        let r = PendingStore { rows: Vec::new() };
        assert(r@ =~= Seq::<RowView>::empty());
        r
    }

    /// Stores a transaction under its id. An id that is already stored, or
    /// a row that would not read back, is refused with `StorageError` and
    /// leaves the store as it was. A transaction whose addresses are at most
    /// 96 bytes always reads back as itself.
    pub fn insert(&mut self, tx: &Transaction) -> (r: Result<(), TxError>)
        requires
            old(self).wf(),
        ensures
            final(self).wf(),
            !has_id(old(self)@, text_fields(tx@).0) && row_transaction(text_fields(tx@)) is Some
                <==> r is Ok,
            r is Ok ==> final(self)@ == old(self)@.push(text_fields(tx@)),
            r is Err ==> r == Err::<(), TxError>(TxError::StorageError) && final(self)@ == old(
                self,
            )@,
            tx@.1.0.0.len() <= BASE58_MAX_BYTES && tx@.1.0.2.len() <= BASE58_MAX_BYTES ==> (
            row_transaction(text_fields(tx@)) == Some(tx@)),
    {
        let row = row_of(tx);
        if transaction_of_row(&row).is_err() {
            return Err(TxError::StorageError);
        }
        let mut i: usize = 0;
        while i < self.rows.len()
            invariant
                i <= self.rows@.len(),
                self@ == old(self)@,
                rows_wf(old(self)@),
                row@ == text_fields(tx@),
                tx@.1.0.0.len() <= BASE58_MAX_BYTES && tx@.1.0.2.len() <= BASE58_MAX_BYTES
                    ==> row_transaction(row@) == Some(tx@),
                forall|j: int| 0 <= j < i ==> #[trigger] self@[j].0 != row@.0,
            decreases self.rows@.len() - i,
        {
            if self.rows[i].id == row.id {
                assert(self@[i as int].0 == row@.0);
                return Err(TxError::StorageError);
            }
            i = i + 1;
        }
        proof {
            lemma_hex_round_trip(tx@.0);
        }
        self.rows.push(row);
        assert(self@ =~= old(self)@.push(text_fields(tx@)));
        assert(!has_id(old(self)@, text_fields(tx@).0));
        Ok(())
    }

    /// Every stored transaction, decoded from its row, in order of
    /// insertion; no two share an id.
    pub fn list_all(&self) -> (r: Result<Vec<Transaction>, TxError>)
        requires
            self.wf(),
        ensures
            r matches Ok(v) && v@.len() == self@.len() && (forall|i: int|
                0 <= i < self@.len() ==> Some(#[trigger] v@[i]@) == row_transaction(self@[i]))
                && (forall|i: int, j: int|
                0 <= i < j < v@.len() ==> #[trigger] v@[i]@.0 != #[trigger] v@[j]@.0),
    {
        assert forall|i: int| 0 <= i < self@.len() implies self@[i] == #[trigger] self.rows@[i]@ by {}
        assert forall|i: int| 0 <= i < self.rows@.len() implies #[trigger] row_transaction(
            self.rows@[i]@,
        ) is Some by {
            assert(self@[i] == self.rows@[i]@);
        }
        let r = transactions_from_rows(&self.rows);
        proof {
            let v = r->Ok_0;
            assert forall|i: int, j: int| 0 <= i < j < v@.len() implies #[trigger] v@[i]@.0
                != #[trigger] v@[j]@.0 by {
                assert(self@[i] == self.rows@[i]@);
                assert(self@[j] == self.rows@[j]@);
                assert(Some(v@[i]@) == row_transaction(self@[i]));
                assert(Some(v@[j]@) == row_transaction(self@[j]));
                assert(self@[i].0 != self@[j].0);
            }
        }
        r
    }

    /// Removes every stored transaction.
    pub fn clear(&mut self)
        ensures
            final(self)@ == Seq::<RowView>::empty(),
            final(self).wf(),
    {
        self.rows = Vec::new();
        assert(self@ =~= Seq::<RowView>::empty());
    }
}

/// A transaction that `insert` stored, and whose row reads back as itself
/// (as `insert` promises for addresses of at most 96 bytes), is among what
/// `list_all` then returns.
pub proof fn lemma_inserted_is_listed(
    before: Seq<RowView>,
    t: TransactionView,
    listed: Seq<TransactionView>,
)
    requires
        row_transaction(text_fields(t)) == Some(t),
        listed.len() == before.len() + 1,
        forall|i: int|
            0 <= i < listed.len() ==> Some(#[trigger] listed[i]) == row_transaction(
                before.push(text_fields(t))[i],
            ),
    ensures
        exists|j: int| 0 <= j < listed.len() && #[trigger] listed[j] == t,
{
    let j = before.len() as int;
    assert(Some(listed[j]) == row_transaction(before.push(text_fields(t))[j]));
}

} // verus!
