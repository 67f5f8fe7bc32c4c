//! The transaction model: content, signed wrapper and identified record.
use crate::codec::{
    dec_bytes, dec_i32, dec_i64, decode_i32, decode_i64, decode_len_prefixed, enc_bytes, enc_i32,
    enc_i64, encode_i32, encode_i64, encode_len_prefixed, lemma_dec_bytes, lemma_dec_i32,
    lemma_dec_i64, push_all,
};
use crate::crypto::{
    current_timestamp, keypair_valid, schnorr_accepts, schnorr_sig_of, schnorr_sign, schnorr_verify,
    sha256, sha256_of, xonly_key_of, xonly_valid,
};
use crate::text::{
    base58_bytes, base58_of, from_base58, from_hex, hex_bytes, hex_text, lemma_hex_round_trip,
    to_base58, to_hex, BASE58_MAX_BYTES, BASE58_MAX_CHARS,
};
use vstd::string::StrSliceExecFns;
use vstd::prelude::*;

verus! {

/// The ways an operation on a transaction can fail.
#[derive(Debug, Clone, Copy, PartialEq, Eq, Structural)]
pub enum TxError {
    /// Binary input that is truncated, over-long or otherwise not an encoding.
    MalformedEncoding,
    /// A text field that is not valid hexadecimal or base58.
    EncodingError,
    /// A signature or public key that cannot be parsed.
    CryptoFormatError,
    /// A secret key that cannot sign.
    SigningError,
    /// A failure of the backing store.
    StorageError,
}

/// sender address, sender public key, receiver address, amount, timestamp
pub type ContentView = (Seq<u8>, Seq<u8>, Seq<u8>, i32, i64);

/// content, signature
pub type SignedView = (ContentView, Seq<u8>);

/// id, signed transaction
pub type TransactionView = (Seq<u8>, SignedView);

/// The payload of a transfer.
#[derive(Debug, Clone, PartialEq)]
pub struct TransactionContent {
    sender_addr: Vec<u8>,
    sender_pubkey: Vec<u8>,
    receiver_addr: Vec<u8>,
    amount: i32,
    timestamp: i64,
}

/// Content together with the signature over the digest of its encoding.
#[derive(Debug, Clone, PartialEq)]
pub struct TransactionSigned {
    content: TransactionContent,
    signature: Vec<u8>,
}

/// A signed transaction with its id, the digest of the signed encoding.
#[derive(Debug, Clone, PartialEq)]
pub struct Transaction {
    id: Vec<u8>,
    transaction: TransactionSigned,
}

impl View for TransactionContent {
    type V = ContentView;

    closed spec fn view(&self) -> ContentView {
        (self.sender_addr@, self.sender_pubkey@, self.receiver_addr@, self.amount, self.timestamp)
    }
}

impl View for TransactionSigned {
    type V = SignedView;

    closed spec fn view(&self) -> SignedView {
        (self.content@, self.signature@)
    }
}

impl View for Transaction {
    type V = TransactionView;

    closed spec fn view(&self) -> TransactionView {
        (self.id@, self.transaction@)
    }
}

pub open spec fn encode_content(c: ContentView) -> Seq<u8> {
    enc_bytes(c.0) + enc_bytes(c.1) + enc_bytes(c.2) + enc_i32(c.3) + enc_i64(c.4)
}

pub open spec fn encode_signed(s: SignedView) -> Seq<u8> {
    encode_content(s.0) + enc_bytes(s.1)
}

pub open spec fn encode_transaction(t: TransactionView) -> Seq<u8> {
    enc_bytes(t.0) + encode_signed(t.1)
}

/// Reads a content at the front of `s`, with what follows it.
pub open spec fn dec_content(s: Seq<u8>) -> Option<(ContentView, Seq<u8>)> {
    match dec_bytes(s) {
        None => None,
        Some((a, s1)) => match dec_bytes(s1) {
            None => None,
            Some((k, s2)) => match dec_bytes(s2) {
                None => None,
                Some((b, s3)) => match dec_i32(s3) {
                    None => None,
                    Some((m, s4)) => match dec_i64(s4) {
                        None => None,
                        Some((t, s5)) => Some(((a, k, b, m, t), s5)),
                    },
                },
            },
        },
    }
}

/// Reads a signed transaction at the front of `s`, with what follows it.
pub open spec fn dec_signed(s: Seq<u8>) -> Option<(SignedView, Seq<u8>)> {
    match dec_content(s) {
        None => None,
        Some((c, s1)) => match dec_bytes(s1) {
            None => None,
            Some((g, s2)) => Some(((c, g), s2)),
        },
    }
}

/// Reads a transaction at the front of `s`, with what follows it.
pub open spec fn dec_transaction(s: Seq<u8>) -> Option<(TransactionView, Seq<u8>)> {
    match dec_bytes(s) {
        None => None,
        Some((i, s1)) => match dec_signed(s1) {
            None => None,
            Some((g, s2)) => Some(((i, g), s2)),
        },
    }
}

/// The value that `s` encodes exactly, with no bytes left over.
pub open spec fn decode_content(s: Seq<u8>) -> Option<ContentView> {
    match dec_content(s) {
        Some((c, rest)) if rest.len() == 0 => Some(c),
        _ => None,
    }
}

pub open spec fn decode_signed(s: Seq<u8>) -> Option<SignedView> {
    match dec_signed(s) {
        Some((g, rest)) if rest.len() == 0 => Some(g),
        _ => None,
    }
}

pub open spec fn decode_transaction(s: Seq<u8>) -> Option<TransactionView> {
    match dec_transaction(s) {
        Some((t, rest)) if rest.len() == 0 => Some(t),
        _ => None,
    }
}

/// Byte fields short enough for their length prefix.
pub open spec fn content_fits(c: ContentView) -> bool {
    c.0.len() <= u64::MAX && c.1.len() <= u64::MAX && c.2.len() <= u64::MAX
}

pub open spec fn signed_fits(s: SignedView) -> bool {
    content_fits(s.0) && s.1.len() <= u64::MAX
}

pub open spec fn transaction_fits(t: TransactionView) -> bool {
    t.0.len() <= u64::MAX && signed_fits(t.1)
}

/// The digest that the sender signs: that of the content's encoding.
pub open spec fn content_digest(c: ContentView) -> Seq<u8> {
    sha256_of(encode_content(c))
}

/// The id of a signed transaction: the digest of its encoding.
pub open spec fn signed_id(s: SignedView) -> Seq<u8> {
    sha256_of(encode_signed(s))
}

/// The transaction that creation yields from these inputs.
pub open spec fn created(
    secret_key: Seq<u8>,
    sender_pubkey: Seq<u8>,
    sender_addr: Seq<u8>,
    receiver_addr: Seq<u8>,
    amount: i32,
    timestamp: i64,
) -> TransactionView {
    let c = (sender_addr, sender_pubkey, receiver_addr, amount, timestamp);
    let s = (c, schnorr_sig_of(secret_key, content_digest(c)));
    (signed_id(s), s)
}

/// What verification gives: `None` where the signature or the public key
/// cannot be parsed, else whether the signature matches the content digest.
pub open spec fn verify_result(t: TransactionView) -> Option<bool> {
    let c = t.1.0;
    let sig = t.1.1;
    if sig.len() != 64 || c.1.len() != 32 || !xonly_valid(c.1) {
        None
    } else {
        Some(schnorr_accepts(sig, content_digest(c), c.1))
    }
}

proof fn lemma_dec_content(c: ContentView, rest: Seq<u8>)
    requires
        content_fits(c),
    ensures
        dec_content(encode_content(c) + rest) == Some((c, rest)),
{
    let s4 = enc_i64(c.4) + rest;
    let s3 = enc_i32(c.3) + s4;
    let s2 = enc_bytes(c.2) + s3;
    let s1 = enc_bytes(c.1) + s2;
    assert(encode_content(c) + rest =~= enc_bytes(c.0) + s1);
    lemma_dec_bytes(c.0, s1);
    lemma_dec_bytes(c.1, s2);
    lemma_dec_bytes(c.2, s3);
    lemma_dec_i32(c.3, s4);
    lemma_dec_i64(c.4, rest);
}

proof fn lemma_dec_signed(g: SignedView, rest: Seq<u8>)
    requires
        signed_fits(g),
    ensures
        dec_signed(encode_signed(g) + rest) == Some((g, rest)),
{
    let s1 = enc_bytes(g.1) + rest;
    assert(encode_signed(g) + rest =~= encode_content(g.0) + s1);
    lemma_dec_content(g.0, s1);
    lemma_dec_bytes(g.1, rest);
}

proof fn lemma_dec_transaction(t: TransactionView, rest: Seq<u8>)
    requires
        transaction_fits(t),
    ensures
        dec_transaction(encode_transaction(t) + rest) == Some((t, rest)),
{
    let s1 = encode_signed(t.1) + rest;
    assert(encode_transaction(t) + rest =~= enc_bytes(t.0) + s1);
    lemma_dec_bytes(t.0, s1);
    lemma_dec_signed(t.1, rest);
}

/// Decoding the encoding of a content gives that content back.
pub proof fn lemma_content_round_trip(c: ContentView)
    requires
        content_fits(c),
    ensures
        decode_content(encode_content(c)) == Some(c),
{
    lemma_dec_content(c, Seq::empty());
    assert(encode_content(c) + Seq::<u8>::empty() =~= encode_content(c));
}

/// Decoding the encoding of a signed transaction gives it back.
pub proof fn lemma_signed_round_trip(g: SignedView)
    requires
        signed_fits(g),
    ensures
        decode_signed(encode_signed(g)) == Some(g),
{
    lemma_dec_signed(g, Seq::empty());
    assert(encode_signed(g) + Seq::<u8>::empty() =~= encode_signed(g));
}

/// Decoding the encoding of a transaction gives it back.
pub proof fn lemma_transaction_round_trip(t: TransactionView)
    requires
        transaction_fits(t),
    ensures
        decode_transaction(encode_transaction(t)) == Some(t),
{
    lemma_dec_transaction(t, Seq::empty());
    assert(encode_transaction(t) + Seq::<u8>::empty() =~= encode_transaction(t));
}

/// Two contents with the same encoding are equal: a change to any field,
/// the amount or the receiver address among them, changes the bytes whose
/// digest is signed.
pub proof fn lemma_content_encoding_injective(c1: ContentView, c2: ContentView)
    requires
        content_fits(c1),
        content_fits(c2),
    ensures
        encode_content(c1) == encode_content(c2) ==> c1 == c2,
{
    lemma_content_round_trip(c1);
    lemma_content_round_trip(c2);
}

/// Two signed transactions with the same encoding are equal: a change to the
/// signature or to the content changes the bytes whose digest is the id.
pub proof fn lemma_signed_encoding_injective(g1: SignedView, g2: SignedView)
    requires
        signed_fits(g1),
        signed_fits(g2),
    ensures
        encode_signed(g1) == encode_signed(g2) ==> g1 == g2,
{
    lemma_signed_round_trip(g1);
    lemma_signed_round_trip(g2);
}

/// Creation is deterministic: the same inputs and timestamp give the same
/// id; different timestamps give different bytes under the id's digest.
pub proof fn lemma_identity_determinism(
    secret_key: Seq<u8>,
    sender_pubkey: Seq<u8>,
    sender_addr: Seq<u8>,
    receiver_addr: Seq<u8>,
    amount: i32,
    t1: i64,
    t2: i64,
)
    requires
        sender_pubkey.len() <= u64::MAX,
        sender_addr.len() <= u64::MAX,
        receiver_addr.len() <= u64::MAX,
        schnorr_sig_of(secret_key, content_digest((sender_addr, sender_pubkey, receiver_addr, amount, t1))).len() <= u64::MAX,
        schnorr_sig_of(secret_key, content_digest((sender_addr, sender_pubkey, receiver_addr, amount, t2))).len() <= u64::MAX,
    ensures
        t1 == t2 ==> created(secret_key, sender_pubkey, sender_addr, receiver_addr, amount, t1).0
            == created(secret_key, sender_pubkey, sender_addr, receiver_addr, amount, t2).0,
        t1 != t2 ==> encode_signed(
            created(secret_key, sender_pubkey, sender_addr, receiver_addr, amount, t1).1,
        ) != encode_signed(
            created(secret_key, sender_pubkey, sender_addr, receiver_addr, amount, t2).1,
        ),
{
    let g1 = created(secret_key, sender_pubkey, sender_addr, receiver_addr, amount, t1).1;
    let g2 = created(secret_key, sender_pubkey, sender_addr, receiver_addr, amount, t2).1;
    lemma_signed_encoding_injective(g1, g2);
}

/// Reads a content that starts at `pos`.
fn read_content(data: &[u8], pos: usize) -> (r: Option<(TransactionContent, usize)>)
    requires
        pos <= data@.len(),
    ensures
        match r {
            None => dec_content(data@.skip(pos as int)) is None,
            Some((c, next)) => pos <= next <= data@.len() && dec_content(data@.skip(pos as int))
                == Some((c@, data@.skip(next as int))),
        },
{
    let (sender_addr, p1) = match decode_len_prefixed(data, pos) {
        Some(x) => x,
        None => return None,
    };
    let (sender_pubkey, p2) = match decode_len_prefixed(data, p1) {
        Some(x) => x,
        None => return None,
    };
    let (receiver_addr, p3) = match decode_len_prefixed(data, p2) {
        Some(x) => x,
        None => return None,
    };
    let (amount, p4) = match decode_i32(data, p3) {
        Some(x) => x,
        None => return None,
    };
    let (timestamp, p5) = match decode_i64(data, p4) {
        Some(x) => x,
        None => return None,
    };
    Some((TransactionContent { sender_addr, sender_pubkey, receiver_addr, amount, timestamp }, p5))
}

/// Reads a signed transaction that starts at `pos`.
fn read_signed(data: &[u8], pos: usize) -> (r: Option<(TransactionSigned, usize)>)
    requires
        pos <= data@.len(),
    ensures
        match r {
            None => dec_signed(data@.skip(pos as int)) is None,
            Some((g, next)) => pos <= next <= data@.len() && dec_signed(data@.skip(pos as int))
                == Some((g@, data@.skip(next as int))),
        },
{
    let (content, p1) = match read_content(data, pos) {
        Some(x) => x,
        None => return None,
    };
    let (signature, p2) = match decode_len_prefixed(data, p1) {
        Some(x) => x,
        None => return None,
    };
    Some((TransactionSigned { content, signature }, p2))
}

impl TransactionContent {
    /// A content from its fields; it cannot be changed afterwards.
    pub fn new(
        sender_addr: Vec<u8>,
        sender_pubkey: Vec<u8>,
        receiver_addr: Vec<u8>,
        amount: i32,
        timestamp: i64,
    ) -> (r: TransactionContent)
        ensures
            r@ == (sender_addr@, sender_pubkey@, receiver_addr@, amount, timestamp),
    {
        TransactionContent { sender_addr, sender_pubkey, receiver_addr, amount, timestamp }
    }

    pub fn sender_addr(&self) -> (r: &Vec<u8>)
        ensures
            r@ == self@.0,
    {
        &self.sender_addr
    }

    pub fn sender_pubkey(&self) -> (r: &Vec<u8>)
        ensures
            r@ == self@.1,
    {
        &self.sender_pubkey
    }

    pub fn receiver_addr(&self) -> (r: &Vec<u8>)
        ensures
            r@ == self@.2,
    {
        &self.receiver_addr
    }

    pub fn amount(&self) -> (r: i32)
        ensures
            r == self@.3,
    {
        self.amount
    }

    pub fn timestamp(&self) -> (r: i64)
        ensures
            r == self@.4,
    {
        self.timestamp
    }

    /// The canonical encoding.
    pub fn encode(&self) -> (r: Vec<u8>)
        ensures
            r@ == encode_content(self@),
            content_fits(self@),
    {
        assert(self.sender_addr.len() == self.sender_addr@.len());
        assert(self.sender_pubkey.len() == self.sender_pubkey@.len());
        assert(self.receiver_addr.len() == self.receiver_addr@.len());
        let mut out: Vec<u8> = Vec::new();
        encode_len_prefixed(&mut out, self.sender_addr.as_slice());
        encode_len_prefixed(&mut out, self.sender_pubkey.as_slice());
        encode_len_prefixed(&mut out, self.receiver_addr.as_slice());
        encode_i32(&mut out, self.amount);
        encode_i64(&mut out, self.timestamp);
        assert(out@ =~= encode_content(self@));
        out
    }

    /// The content that `data` encodes, with nothing left over.
    pub fn from_bytes(data: &Vec<u8>) -> (r: Result<TransactionContent, TxError>)
        ensures
            match decode_content(data@) {
                Some(c) => r matches Ok(v) && v@ == c,
                None => r == Err::<TransactionContent, TxError>(TxError::MalformedEncoding),
            },
    {
        assert(data@.skip(0) =~= data@);
        match read_content(data.as_slice(), 0) {
            Some((c, next)) if next == data.len() => Ok(c),
            _ => Err(TxError::MalformedEncoding),
        }
    }

    /// Signs the digest of the encoding with a 32-byte secret key.
    pub fn get_signature(&self, private_key: &Vec<u8>) -> (r: Result<Vec<u8>, TxError>)
        ensures
            keypair_valid(private_key@) ==> (r matches Ok(s) && s@ == schnorr_sig_of(
                private_key@,
                content_digest(self@),
            ) && s@.len() == 64 && schnorr_accepts(
                s@,
                content_digest(self@),
                xonly_key_of(private_key@),
            )),
            !keypair_valid(private_key@) ==> r == Err::<Vec<u8>, TxError>(TxError::SigningError),
    {
        let encoded = self.encode();
        let digest = sha256(encoded.as_slice());
        match schnorr_sign(digest.as_slice(), private_key.as_slice()) {
            Some(s) => Ok(s),
            None => Err(TxError::SigningError),
        }
    }
}

impl TransactionSigned {
    /// The signed content.
    pub fn content(&self) -> (r: &TransactionContent)
        ensures
            r@ == self@.0,
    {
        &self.content
    }

    /// The signature over the content digest.
    pub fn signature(&self) -> (r: &Vec<u8>)
        ensures
            r@ == self@.1,
    {
        &self.signature
    }

    /// The canonical encoding.
    pub fn encode(&self) -> (r: Vec<u8>)
        ensures
            r@ == encode_signed(self@),
            signed_fits(self@),
    {
        assert(self.signature.len() == self.signature@.len());
        let mut out = self.content.encode();
        encode_len_prefixed(&mut out, self.signature.as_slice());
        out
    }

    /// The signed transaction that `data` encodes, with nothing left over.
    pub fn from_bytes(data: &Vec<u8>) -> (r: Result<TransactionSigned, TxError>)
        ensures
            match decode_signed(data@) {
                Some(g) => r matches Ok(v) && v@ == g,
                None => r == Err::<TransactionSigned, TxError>(TxError::MalformedEncoding),
            },
    {
        assert(data@.skip(0) =~= data@);
        match read_signed(data.as_slice(), 0) {
            Some((g, next)) if next == data.len() => Ok(g),
            _ => Err(TxError::MalformedEncoding),
        }
    }

    /// The id: the digest of the encoding.
    pub fn get_id(&self) -> (r: Result<Vec<u8>, TxError>)
        ensures
            r matches Ok(id) && id@ == signed_id(self@) && id@.len() == 32,
    {
        let encoded = self.encode();
        Ok(sha256(encoded.as_slice()))
    }
}

impl Transaction {
    /// The id: the digest of the signed transaction's encoding.
    pub fn id(&self) -> (r: &Vec<u8>)
        ensures
            r@ == self@.0,
    {
        &self.id
    }

    /// The signed transaction that the id covers.
    pub fn transaction(&self) -> (r: &TransactionSigned)
        ensures
            r@ == self@.1,
    {
        &self.transaction
    }

    /// The canonical encoding.
    pub fn to_bytes(&self) -> (r: Vec<u8>)
        ensures
            r@ == encode_transaction(self@),
            transaction_fits(self@),
    {
        assert(self.id.len() == self.id@.len());
        let mut out: Vec<u8> = Vec::new();
        encode_len_prefixed(&mut out, self.id.as_slice());
        let rest = self.transaction.encode();
        push_all(&mut out, rest.as_slice());
        out
    }

    /// The transaction that `data` encodes, with nothing left over. The
    /// signature is not checked: see `verify`.
    pub fn from_bytes(data: &Vec<u8>) -> (r: Result<Transaction, TxError>)
        ensures
            match decode_transaction(data@) {
                Some(t) => r matches Ok(v) && v@ == t,
                None => r == Err::<Transaction, TxError>(TxError::MalformedEncoding),
            },
    {
        assert(data@.skip(0) =~= data@);
        let (id, p1) = match decode_len_prefixed(data.as_slice(), 0) {
            Some(x) => x,
            None => return Err(TxError::MalformedEncoding),
        };
        match read_signed(data.as_slice(), p1) {
            Some((g, next)) if next == data.len() => Ok(Transaction { id, transaction: g }),
            _ => Err(TxError::MalformedEncoding),
        }
    }

    /// Checks the signature against the content digest and the sender's
    /// public key. A signature that does not match gives `Ok(false)`.
    pub fn verify(&self) -> (r: Result<bool, TxError>)
        ensures
            match verify_result(self@) {
                Some(b) => r == Ok::<bool, TxError>(b),
                None => r == Err::<bool, TxError>(TxError::CryptoFormatError),
            },
    {
        let content = &self.transaction.content;
        let encoded = content.encode();
        let digest = sha256(encoded.as_slice());
        match schnorr_verify(
            self.transaction.signature.as_slice(),
            digest.as_slice(),
            content.sender_pubkey.as_slice(),
        ) {
            Some(b) => Ok(b),
            None => Err(TxError::CryptoFormatError),
        }
    }
}

/// Builds, signs and identifies a transaction with the given timestamp.
pub fn create(
    sender_privkey: &Vec<u8>,
    sender_pubkey: Vec<u8>,
    sender_addr: Vec<u8>,
    receiver_addr: Vec<u8>,
    amount: i32,
    timestamp: i64,
) -> (r: Result<Transaction, TxError>)
    ensures
        keypair_valid(sender_privkey@) ==> (r matches Ok(t) && t@ == created(
            sender_privkey@,
            sender_pubkey@,
            sender_addr@,
            receiver_addr@,
            amount,
            timestamp,
        )),
        !keypair_valid(sender_privkey@) ==> r == Err::<Transaction, TxError>(
            TxError::SigningError,
        ),
        r matches Ok(t) ==> t@.0.len() == 32,
        r matches Ok(t) ==> (sender_pubkey@ == xonly_key_of(sender_privkey@) ==> verify_result(
            t@,
        ) == Some(true)),
{
    let content = TransactionContent { sender_addr, sender_pubkey, receiver_addr, amount, timestamp };
    let encoded = content.encode();
    let digest = sha256(encoded.as_slice());
    let signature = match schnorr_sign(digest.as_slice(), sender_privkey.as_slice()) {
        Some(s) => s,
        None => return Err(TxError::SigningError),
    };
    let signed = TransactionSigned { content, signature };
    let encoded_signed = signed.encode();
    let id = sha256(encoded_signed.as_slice());
    Ok(Transaction { id, transaction: signed })
}

/// Builds, signs and identifies a transaction stamped with the current time.
pub fn new(
    sender_privkey: &Vec<u8>,
    sender_pubkey: Vec<u8>,
    sender_addr: Vec<u8>,
    receiver_addr: Vec<u8>,
    amount: i32,
) -> (r: Result<Transaction, TxError>)
    ensures
        keypair_valid(sender_privkey@) ==> (r matches Ok(t) && t@ == created(
            sender_privkey@,
            sender_pubkey@,
            sender_addr@,
            receiver_addr@,
            amount,
            t@.1.0.4,
        )),
        !keypair_valid(sender_privkey@) ==> r == Err::<Transaction, TxError>(
            TxError::SigningError,
        ),
        r matches Ok(t) ==> t@.0.len() == 32,
        r matches Ok(t) ==> (sender_pubkey@ == xonly_key_of(sender_privkey@) ==> verify_result(
            t@,
        ) == Some(true)),
{
    let timestamp = current_timestamp();
    create(sender_privkey, sender_pubkey, sender_addr, receiver_addr, amount, timestamp)
}

/// The transaction that text fields stand for: ids, public keys and
/// signatures in hexadecimal, addresses in base58 of at most 132
/// characters. `None` where a field does not decode.
pub open spec fn from_fields_result(
    id: Seq<char>,
    sender_addr: Seq<char>,
    sender_pubkey: Seq<char>,
    receiver_addr: Seq<char>,
    amount: i32,
    timestamp: i64,
    signature: Seq<char>,
) -> Option<TransactionView> {
    if sender_addr.len() > BASE58_MAX_CHARS || receiver_addr.len() > BASE58_MAX_CHARS {
        None
    } else {
        match (
        hex_bytes(id),
        base58_bytes(sender_addr),
        hex_bytes(sender_pubkey),
        base58_bytes(receiver_addr),
        hex_bytes(signature),
    ) {
        (Some(i), Some(a), Some(k), Some(b), Some(g)) => Some((i, ((a, k, b, amount, timestamp), g))),
        _ => None,
    }
    }
}

/// Rebuilds a transaction from its text fields. The signature is not
/// checked: see `verify`.
pub fn from(
    id: &String,
    sender_addr: &String,
    sender_pubkey: &String,
    receiver_addr: &String,
    amount: i32,
    timestamp: i64,
    signature: &String,
) -> (r: Result<Transaction, TxError>)
    ensures
        match from_fields_result(
            id@,
            sender_addr@,
            sender_pubkey@,
            receiver_addr@,
            amount,
            timestamp,
            signature@,
        ) {
            Some(t) => r matches Ok(v) && v@ == t,
            None => r == Err::<Transaction, TxError>(TxError::EncodingError),
        },
{
    if sender_addr.as_str().unicode_len() > BASE58_MAX_CHARS
        || receiver_addr.as_str().unicode_len() > BASE58_MAX_CHARS {
        return Err(TxError::EncodingError);
    }
    let id = match from_hex(id.as_str()) {
        Some(v) => v,
        None => return Err(TxError::EncodingError),
    };
    let sender_addr = match from_base58(sender_addr.as_str()) {
        Some(v) => v,
        None => return Err(TxError::EncodingError),
    };
    let sender_pubkey = match from_hex(sender_pubkey.as_str()) {
        Some(v) => v,
        None => return Err(TxError::EncodingError),
    };
    let receiver_addr = match from_base58(receiver_addr.as_str()) {
        Some(v) => v,
        None => return Err(TxError::EncodingError),
    };
    let signature = match from_hex(signature.as_str()) {
        Some(v) => v,
        None => return Err(TxError::EncodingError),
    };
    let content = TransactionContent { sender_addr, sender_pubkey, receiver_addr, amount, timestamp };
    Ok(Transaction { id, transaction: TransactionSigned { content, signature } })
}

/// The text fields of a transaction, in the order that `from` takes them.
pub open spec fn text_fields(t: TransactionView) -> (
    Seq<char>,
    Seq<char>,
    Seq<char>,
    Seq<char>,
    i32,
    i64,
    Seq<char>,
) {
    (
        hex_text(t.0),
        base58_of(t.1.0.0),
        hex_text(t.1.0.1),
        base58_of(t.1.0.2),
        t.1.0.3,
        t.1.0.4,
        hex_text(t.1.1),
    )
}

impl Transaction {
    /// The text projection of every field, as the pending store keeps them.
    pub fn text_fields(&self) -> (r: (String, String, String, String, i32, i64, String))
        ensures
            (r.0@, r.1@, r.2@, r.3@, r.4, r.5, r.6@) == text_fields(self@),
            self@.1.0.0.len() <= BASE58_MAX_BYTES && self@.1.0.2.len() <= BASE58_MAX_BYTES
                ==> from_fields_result(r.0@, r.1@, r.2@, r.3@, r.4, r.5, r.6@) == Some(self@),
    {
        let c = &self.transaction.content;
        let r = (
            to_hex(self.id.as_slice()),
            to_base58(c.sender_addr.as_slice()),
            to_hex(c.sender_pubkey.as_slice()),
            to_base58(c.receiver_addr.as_slice()),
            c.amount,
            c.timestamp,
            to_hex(self.transaction.signature.as_slice()),
        );
        proof {
            lemma_hex_round_trip(self@.0);
            lemma_hex_round_trip(self@.1.0.1);
            lemma_hex_round_trip(self@.1.1);
        }
        r
    }
}

} // verus!
