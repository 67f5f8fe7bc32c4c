//! Signed value-transfer records: canonical encoding, signing, verification
//! and the text projection used by the pending store.

pub mod codec;
pub mod crypto;
pub mod store;
pub mod text;
pub mod transactions;

pub use crypto::public_key_of;
pub use store::{row_of, PendingStore, transaction_of_row, transactions_from_rows, StoredRow};
pub use transactions::{create, from, new, Transaction, TransactionContent, TransactionSigned, TxError};
