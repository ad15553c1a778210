//! Transactions, their payloads, and their serialized form.
use vstd::prelude::*;
use vstd::utf8::encode_utf8;
use crate::coordinator::{Mode, SubmitError, Submission};
use crate::encoding::{
    borsh_transfer_fields, borsh_tx_fields, borsh_update_vp_fields, fits_prefix, le_bytes,
    len_prefixed, opt_field, opt_fits_prefix, opt_view, str_field,
};

verus! {

/// Code to run on the ledger, optional input data, and an optional
/// signature over the unsigned transaction.
#[derive(Debug)]
pub struct Transaction {
    pub code: Vec<u8>,
    pub data: Option<Vec<u8>>,
    pub signature: Option<Vec<u8>>,
}

/// The serialized form of a transaction with these fields.
pub open spec fn tx_encoding(code: Seq<u8>, data: Option<Seq<u8>>, signature: Option<Seq<u8>>) -> Seq<u8> {
    len_prefixed(code) + opt_field(data) + opt_field(signature)
}

impl Transaction {
    /// Whether every field's length fits its four-byte prefix.
    pub open spec fn encodable(&self) -> bool {
        &&& fits_prefix(self.code@)
        &&& opt_fits_prefix(opt_view(self.data))
        &&& opt_fits_prefix(opt_view(self.signature))
    }

    pub open spec fn encoding(&self) -> Seq<u8> {
        tx_encoding(self.code@, opt_view(self.data), opt_view(self.signature))
    }

    /// The bytes a signature covers: the transaction without its signature.
    pub open spec fn unsigned_encoding(&self) -> Seq<u8> {
        tx_encoding(self.code@, opt_view(self.data), None)
    }

    /// An unsigned transaction of `code` and `data`.
    pub fn new(code: Vec<u8>, data: Option<Vec<u8>>) -> (r: Transaction)
        ensures
            r.code@ == code@,
            opt_view(r.data) == opt_view(data),
            r.signature is None,
    {
        Transaction { code, data, signature: None }
    }

    /// The serialized transaction; `None` when a field is too long.
    pub fn to_bytes(&self) -> (r: Option<Vec<u8>>)
        ensures
            r is Some <==> self.encodable(),
            r is Some ==> r->0@ == self.encoding(),
    {
        borsh_tx_fields(&self.code, &self.data, &self.signature)
    }

    /// The bytes to sign; `None` when the code or data is too long.
    pub fn signing_bytes(&self) -> (r: Option<Vec<u8>>)
        ensures
            r is Some <==> (fits_prefix(self.code@) && opt_fits_prefix(opt_view(self.data))),
            r is Some ==> r->0@ == self.unsigned_encoding(),
    {
        borsh_tx_fields(&self.code, &self.data, &None)
    }

    /// Signs the transaction: `signer` is handed the unsigned bytes and its
    /// result becomes the signature. `None` when the code or data is too long
    /// to be signed.
    pub fn sign<F: Fn(&Vec<u8>) -> Vec<u8>>(self, signer: F) -> (r: Option<Transaction>)
        requires
            forall|b: &Vec<u8>| signer.requires((b,)),
        ensures
            r is Some <==> (fits_prefix(self.code@) && opt_fits_prefix(opt_view(self.data))),
            r is Some ==> {
                &&& r->0.code@ == self.code@
                &&& opt_view(r->0.data) == opt_view(self.data)
                &&& exists|b: Vec<u8>, sig: Vec<u8>|
                    b@ == self.unsigned_encoding() && signer.ensures((&b,), sig) && r->0.signature
                        == Some(sig)
            },
    {
        match self.signing_bytes() {
            None => None,
            Some(b) => {
                let sig = signer(&b);
                Some(Transaction { code: self.code, data: self.data, signature: Some(sig) })
            },
        }
    }
}

/// A token transfer between two accounts.
#[derive(Debug)]
pub struct Transfer {
    pub source: String,
    pub target: String,
    pub token: String,
    pub amount: u64,
}

impl Transfer {
    pub open spec fn encodable(&self) -> bool {
        &&& fits_prefix(encode_utf8(self.source@))
        &&& fits_prefix(encode_utf8(self.target@))
        &&& fits_prefix(encode_utf8(self.token@))
    }

    /// The three account names as text fields, then the amount as eight
    /// little-endian bytes.
    pub open spec fn encoding(&self) -> Seq<u8> {
        str_field(self.source@) + str_field(self.target@) + str_field(self.token@) + le_bytes(
            self.amount as nat,
            8,
        )
    }

    /// The serialized transfer; `None` when a name is too long.
    pub fn to_bytes(&self) -> (r: Option<Vec<u8>>)
        ensures
            r is Some <==> self.encodable(),
            r is Some ==> r->0@ == self.encoding(),
    {
        borsh_transfer_fields(
            self.source.as_str(),
            self.target.as_str(),
            self.token.as_str(),
            self.amount,
        )
    }
}

/// A replacement of an account's validity predicate.
#[derive(Debug)]
pub struct UpdateVp {
    pub addr: String,
    pub vp_code: Vec<u8>,
}

impl UpdateVp {
    pub open spec fn encodable(&self) -> bool {
        fits_prefix(encode_utf8(self.addr@)) && fits_prefix(self.vp_code@)
    }

    /// The account as a text field, then the length-prefixed code.
    pub open spec fn encoding(&self) -> Seq<u8> {
        str_field(self.addr@) + len_prefixed(self.vp_code@)
    }

    /// The serialized update; `None` when a field is too long.
    pub fn to_bytes(&self) -> (r: Option<Vec<u8>>)
        ensures
            r is Some <==> self.encodable(),
            r is Some ==> r->0@ == self.encoding(),
    {
        borsh_update_vp_fields(self.addr.as_str(), &self.vp_code)
    }
}

/// Serializes `tx` and starts its submission in `mode`.
pub fn submit_tx(tx: Transaction, mode: Mode) -> (r: Result<Submission, SubmitError>)
    ensures
        r is Err <==> !tx.encodable(),
        r is Err ==> r->Err_0 == SubmitError::Encoding,
        r is Ok ==> r->Ok_0.fresh(tx.encoding(), mode),
{
    match tx.to_bytes() {
        None => Err(SubmitError::Encoding),
        Some(bytes) => Ok(Submission::start(bytes, mode)),
    }
}

/// Submits the unsigned transaction of `code` and `data`.
pub fn submit_custom(code: Vec<u8>, data: Option<Vec<u8>>, mode: Mode) -> (r: Result<
    Submission,
    SubmitError,
>)
    ensures
        r is Err <==> !(fits_prefix(code@) && opt_fits_prefix(opt_view(data))),
        r is Err ==> r->Err_0 == SubmitError::Encoding,
        r is Ok ==> r->Ok_0.fresh(tx_encoding(code@, opt_view(data), None), mode),
{
    submit_tx(Transaction::new(code, data), mode)
}

/// Builds the transaction of `tx_code` with `payload` as its data, signs it
/// with `signer`, and submits it.
fn submit_signed<F: Fn(&Vec<u8>) -> Vec<u8>>(
    tx_code: Vec<u8>,
    payload: Vec<u8>,
    signer: F,
    mode: Mode,
) -> (r: Result<Submission, SubmitError>)
    requires
        forall|b: &Vec<u8>| signer.requires((b,)),
    ensures
        r is Err ==> r->Err_0 == SubmitError::Encoding,
        r is Err ==> !(fits_prefix(tx_code@) && fits_prefix(payload@)) || exists|
            b: Vec<u8>,
            sig: Vec<u8>,
        |
            b@ == tx_encoding(tx_code@, Some(payload@), None) && signer.ensures((&b,), sig)
                && !fits_prefix(sig@),
        r is Ok ==> exists|b: Vec<u8>, sig: Vec<u8>|
            b@ == tx_encoding(tx_code@, Some(payload@), None) && signer.ensures((&b,), sig)
                && r->Ok_0.fresh(tx_encoding(tx_code@, Some(payload@), Some(sig@)), mode),
{
    match Transaction::new(tx_code, Some(payload)).sign(signer) {
        None => Err(SubmitError::Encoding),
        Some(tx) => submit_tx(tx, mode),
    }
}

/// Submits a signed transfer: `tx_code` is the transfer program and the
/// serialized `transfer` its data.
pub fn submit_transfer<F: Fn(&Vec<u8>) -> Vec<u8>>(
    transfer: &Transfer,
    tx_code: Vec<u8>,
    signer: F,
    mode: Mode,
) -> (r: Result<Submission, SubmitError>)
    requires
        forall|b: &Vec<u8>| signer.requires((b,)),
    ensures
        r is Err ==> r->Err_0 == SubmitError::Encoding,
        r is Err ==> !(transfer.encodable() && fits_prefix(tx_code@) && fits_prefix(
            transfer.encoding(),
        )) || exists|b: Vec<u8>, sig: Vec<u8>|
            b@ == tx_encoding(tx_code@, Some(transfer.encoding()), None) && signer.ensures(
                (&b,),
                sig,
            ) && !fits_prefix(sig@),
        r is Ok ==> exists|b: Vec<u8>, sig: Vec<u8>|
            b@ == tx_encoding(tx_code@, Some(transfer.encoding()), None) && signer.ensures(
                (&b,),
                sig,
            ) && r->Ok_0.fresh(
                tx_encoding(tx_code@, Some(transfer.encoding()), Some(sig@)),
                mode,
            ),
{
    match transfer.to_bytes() {
        None => Err(SubmitError::Encoding),
        Some(payload) => submit_signed(tx_code, payload, signer, mode),
    }
}

/// Submits a signed update of a validity predicate: `tx_code` is the update
/// program and the serialized `update` its data.
pub fn submit_update_vp<F: Fn(&Vec<u8>) -> Vec<u8>>(
    update: &UpdateVp,
    tx_code: Vec<u8>,
    signer: F,
    mode: Mode,
) -> (r: Result<Submission, SubmitError>)
    requires
        forall|b: &Vec<u8>| signer.requires((b,)),
    ensures
        r is Err ==> r->Err_0 == SubmitError::Encoding,
        r is Err ==> !(update.encodable() && fits_prefix(tx_code@) && fits_prefix(
            update.encoding(),
        )) || exists|b: Vec<u8>, sig: Vec<u8>|
            b@ == tx_encoding(tx_code@, Some(update.encoding()), None) && signer.ensures(
                (&b,),
                sig,
            ) && !fits_prefix(sig@),
        r is Ok ==> exists|b: Vec<u8>, sig: Vec<u8>|
            b@ == tx_encoding(tx_code@, Some(update.encoding()), None) && signer.ensures(
                (&b,),
                sig,
            ) && r->Ok_0.fresh(tx_encoding(tx_code@, Some(update.encoding()), Some(sig@)), mode),
{
    match update.to_bytes() {
        None => Err(SubmitError::Encoding),
        Some(payload) => submit_signed(tx_code, payload, signer, mode),
    }
}

} // verus!
