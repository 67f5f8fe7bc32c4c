use ledger_tx::{
    create, from, new, public_key_of, row_of, transaction_of_row, transactions_from_rows,
    PendingStore, StoredRow, Transaction, TransactionContent, TransactionSigned, TxError,
};
use sha2::{Digest, Sha256};

fn secret_key() -> Vec<u8> {
    vec![0x11; 32]
}

fn address_of(public_key: &[u8]) -> Vec<u8> {
    Sha256::digest(public_key).to_vec()
}

fn sample(amount: i32, timestamp: i64) -> Transaction {
    let sk = secret_key();
    let pk = public_key_of(&sk).unwrap();
    let sender = address_of(&pk);
    let receiver = vec![0u8, 7, 42, 255, 3];
    create(&sk, pk, sender, receiver, amount, timestamp).unwrap()
}

#[test]
fn content_round_trip() {
    let c = TransactionContent::new(vec![1, 2, 3], vec![], vec![9; 40], -5, i64::MIN);
    let bytes = c.encode();
    assert_eq!(TransactionContent::from_bytes(&bytes), Ok(c));
}

#[test]
fn content_encoding_layout() {
    let c = TransactionContent::new(vec![0xaa], vec![], vec![0xbb, 0xcc], -2, 1);
    let mut expected: Vec<u8> = vec![1, 0, 0, 0, 0, 0, 0, 0, 0xaa];
    expected.extend_from_slice(&[0; 8]);
    expected.extend_from_slice(&[2, 0, 0, 0, 0, 0, 0, 0, 0xbb, 0xcc]);
    expected.extend_from_slice(&[0xfe, 0xff, 0xff, 0xff]);
    expected.extend_from_slice(&[1, 0, 0, 0, 0, 0, 0, 0]);
    assert_eq!(c.encode(), expected);
}

#[test]
fn signed_and_transaction_round_trip() {
    let tx = sample(42, 1_600_000_000);
    let signed_bytes = tx.transaction().encode();
    assert_eq!(TransactionSigned::from_bytes(&signed_bytes), Ok(tx.transaction().clone()));
    let bytes = tx.to_bytes();
    assert_eq!(Transaction::from_bytes(&bytes), Ok(tx));
}

#[test]
fn truncated_bytes_are_malformed() {
    let bytes = sample(42, 1_600_000_000).to_bytes();
    for n in 0..bytes.len() {
        assert_eq!(Transaction::from_bytes(&bytes[..n].to_vec()), Err(TxError::MalformedEncoding));
    }
}

#[test]
fn over_long_bytes_are_malformed() {
    let mut bytes = sample(42, 1_600_000_000).to_bytes();
    bytes.push(0);
    assert_eq!(Transaction::from_bytes(&bytes), Err(TxError::MalformedEncoding));
    let huge_len = vec![0xff; 16];
    assert_eq!(Transaction::from_bytes(&huge_len), Err(TxError::MalformedEncoding));
}

#[test]
fn created_transaction_verifies() {
    let tx = sample(42, 1_600_000_000);
    assert_eq!(tx.id().len(), 32);
    assert_eq!(tx.transaction().signature().len(), 64);
    assert_eq!(tx.verify(), Ok(true));
}

#[test]
fn id_is_digest_of_signed_encoding() {
    let tx = sample(7, 99);
    assert_eq!(tx.transaction().get_id(), Ok(Sha256::digest(tx.transaction().encode()).to_vec()));
    assert_eq!(tx.transaction().get_id(), Ok(tx.id().clone()));
}

#[test]
fn get_signature_matches_created_signature() {
    let tx = sample(7, 99);
    let sig = tx.transaction().content().get_signature(&secret_key()).unwrap();
    assert_eq!(&sig, tx.transaction().signature());
}

#[test]
fn tampered_amount_fails_verification() {
    let tx = sample(42, 1_600_000_000);
    let f = tx.text_fields();
    let tampered = from(&f.0, &f.1, &f.2, &f.3, f.4 ^ 1, f.5, &f.6).unwrap();
    assert_eq!(tampered.verify(), Ok(false));
}

#[test]
fn tampered_receiver_fails_verification() {
    let tx = sample(42, 1_600_000_000);
    let f = tx.text_fields();
    let mut receiver = tx.transaction().content().receiver_addr().clone();
    receiver[0] ^= 0x80;
    let receiver_text = base58::ToBase58::to_base58(receiver.as_slice());
    let tampered = from(&f.0, &f.1, &f.2, &receiver_text, f.4, f.5, &f.6).unwrap();
    assert_eq!(tampered.transaction().content().receiver_addr(), &receiver);
    assert_eq!(tampered.verify(), Ok(false));
}

#[test]
fn tampered_signature_fails_verification() {
    let tx = sample(42, 1_600_000_000);
    let mut bytes = tx.to_bytes();
    let last = bytes.len() - 1;
    bytes[last] ^= 1;
    let tampered = Transaction::from_bytes(&bytes).unwrap();
    assert_eq!(tampered.verify(), Ok(false));
}

#[test]
fn unparsable_signature_is_a_format_error() {
    let tx = sample(42, 1_600_000_000);
    let fields = tx.text_fields();
    let short_sig = fields.6[..10].to_string();
    let t = from(&fields.0, &fields.1, &fields.2, &fields.3, fields.4, fields.5, &short_sig).unwrap();
    assert_eq!(t.verify(), Err(TxError::CryptoFormatError));
}

#[test]
fn unparsable_public_key_is_a_format_error() {
    let tx = sample(42, 1_600_000_000);
    let f = tx.text_fields();
    let short_key = "010203".to_string();
    let t = from(&f.0, &f.1, &short_key, &f.3, f.4, f.5, &f.6).unwrap();
    assert_eq!(t.verify(), Err(TxError::CryptoFormatError));
    let empty_key = String::new();
    let t = from(&f.0, &f.1, &empty_key, &f.3, f.4, f.5, &f.6).unwrap();
    assert_eq!(t.verify(), Err(TxError::CryptoFormatError));
}

#[test]
fn invalid_secret_key_is_a_signing_error() {
    let zero = vec![0u8; 32];
    let short = vec![1u8; 31];
    assert_eq!(create(&zero, vec![], vec![], vec![], 1, 1), Err(TxError::SigningError));
    assert_eq!(create(&short, vec![], vec![], vec![], 1, 1), Err(TxError::SigningError));
    assert_eq!(public_key_of(&zero), Err(TxError::SigningError));
}

#[test]
fn identity_is_deterministic() {
    let a = sample(42, 1_600_000_000);
    let b = sample(42, 1_600_000_000);
    let c = sample(42, 1_600_000_001);
    assert_eq!(a.id(), b.id());
    assert_eq!(a, b);
    assert_ne!(a.id(), c.id());
}

#[test]
fn new_stamps_and_signs() {
    let sk = secret_key();
    let pk = public_key_of(&sk).unwrap();
    let tx = new(&sk, pk.clone(), address_of(&pk), vec![5], 10).unwrap();
    assert!(tx.transaction().content().timestamp() > 1_600_000_000);
    assert_eq!(tx.verify(), Ok(true));
}

#[test]
fn text_fields_are_hex_and_base58() {
    let c = TransactionContent::new(vec![0, 0, 1], vec![0x0f, 0xa0], vec![0x61], 3, 4);
    let sk = secret_key();
    let sig = c.get_signature(&sk).unwrap();
    let tx = create(
        &sk,
        c.sender_pubkey().clone(),
        c.sender_addr().clone(),
        c.receiver_addr().clone(),
        c.amount(),
        c.timestamp(),
    )
    .unwrap();
    let fields = tx.text_fields();
    assert_eq!(fields.1, "112");
    assert_eq!(fields.2, "0fa0");
    assert_eq!(fields.3, "2g");
    assert_eq!(fields.6.len(), 128);
    assert_eq!(fields.6, sig.iter().map(|b| format!("{:02x}", b)).collect::<String>());
}

#[test]
fn text_round_trip() {
    let tx = sample(-1, 0);
    let f = tx.text_fields();
    let back = from(&f.0, &f.1, &f.2, &f.3, f.4, f.5, &f.6).unwrap();
    assert_eq!(back, tx);
}

#[test]
fn uppercase_hex_is_accepted() {
    let tx = sample(1, 2);
    let f = tx.text_fields();
    let back = from(&f.0.to_uppercase(), &f.1, &f.2.to_uppercase(), &f.3, f.4, f.5, &f.6).unwrap();
    assert_eq!(back, tx);
}

#[test]
fn bad_text_is_an_encoding_error() {
    let tx = sample(1, 2);
    let f = tx.text_fields();
    let odd = "abc".to_string();
    let not_hex = "zz".to_string();
    let not_b58 = "0OIl".to_string();
    assert_eq!(from(&odd, &f.1, &f.2, &f.3, 1, 2, &f.6), Err(TxError::EncodingError));
    assert_eq!(from(&f.0, &f.1, &not_hex, &f.3, 1, 2, &f.6), Err(TxError::EncodingError));
    assert_eq!(from(&f.0, &not_b58, &f.2, &f.3, 1, 2, &f.6), Err(TxError::EncodingError));
    assert_eq!(from(&f.0, &f.1, &f.2, &not_b58, 1, 2, &f.6), Err(TxError::EncodingError));
    assert_eq!(from(&f.0, &f.1, &f.2, &f.3, 1, 2, &not_hex), Err(TxError::EncodingError));
}

#[test]
fn rows_round_trip() {
    let tx = sample(42, 1_600_000_000);
    let row = row_of(&tx);
    assert_eq!(row.id, hex::encode(tx.id()));
    let back = transaction_of_row(&row).unwrap();
    assert_eq!(back.verify(), Ok(true));
    assert_eq!(back, tx);
    let bad = StoredRow { signature: "x".to_string(), ..row.clone() };
    assert_eq!(transactions_from_rows(&vec![row.clone(), bad]), Err(TxError::EncodingError));
    assert_eq!(transactions_from_rows(&vec![row.clone(), row]).unwrap().len(), 2);
}

#[test]
fn store_round_trip() {
    let tx = sample(42, 1_600_000_000);
    let mut store = PendingStore::new();
    assert_eq!(store.insert(&tx), Ok(()));
    let listed = store.list_all().unwrap();
    assert_eq!(listed.len(), 1);
    assert_eq!(listed[0].verify(), Ok(true));
    assert_eq!(listed[0], tx);
}

#[test]
fn duplicate_id_is_refused() {
    let tx = sample(42, 1_600_000_000);
    let other = sample(43, 1_600_000_000);
    let mut store = PendingStore::new();
    assert_eq!(store.insert(&tx), Ok(()));
    assert_eq!(store.insert(&tx), Err(TxError::StorageError));
    assert_eq!(store.insert(&other), Ok(()));
    assert_eq!(store.list_all().unwrap(), vec![tx, other]);
}

#[test]
fn concrete_scenario() {
    let sk = secret_key();
    let pk = public_key_of(&sk).unwrap();
    let sender = address_of(&pk);
    let receiver = address_of(b"receiver");
    let tx = create(&sk, pk, sender, receiver, 42, 1_600_000_000).unwrap();
    assert_eq!(tx.verify(), Ok(true));
    let mut store = PendingStore::new();
    store.insert(&tx).unwrap();
    assert_eq!(store.list_all().unwrap().len(), 1);
    store.clear();
    assert!(store.list_all().unwrap().is_empty());
}

#[test]
fn long_base58_text_is_an_encoding_error() {
    let tx = sample(1, 2);
    let f = tx.text_fields();
    let ones = "1".repeat(133);
    assert_eq!(from(&f.0, &ones, &f.2, &f.3, 1, 2, &f.6), Err(TxError::EncodingError));
    assert_eq!(from(&f.0, &f.1, &f.2, &ones, 1, 2, &f.6), Err(TxError::EncodingError));
    let max_ones = "1".repeat(132);
    let back = from(&f.0, &max_ones, &f.2, &f.3, 1, 2, &f.6).unwrap();
    assert_eq!(back.transaction().content().sender_addr(), &vec![0u8; 132]);
}

#[test]
fn zero_address_round_trips() {
    let sk = secret_key();
    let pk = public_key_of(&sk).unwrap();
    let tx = create(&sk, pk, vec![0u8; 96], vec![0u8; 5], 1, 2).unwrap();
    let f = tx.text_fields();
    assert_eq!(f.1, "1".repeat(96));
    let back = from(&f.0, &f.1, &f.2, &f.3, f.4, f.5, &f.6).unwrap();
    assert_eq!(back, tx);
}

#[test]
fn unreadable_row_is_refused_by_store() {
    let sk = secret_key();
    let pk = public_key_of(&sk).unwrap();
    let tx = create(&sk, pk, vec![0u8; 133], vec![1], 1, 2).unwrap();
    let mut store = PendingStore::new();
    assert_eq!(store.insert(&tx), Err(TxError::StorageError));
    assert_eq!(store.list_all().unwrap().len(), 0);
}
