//! Messages of the custody's HTTP interfaces.

use vstd::prelude::*;
use crate::domain::CurrencyAddress;
use crate::btc_codec::Network;

verus! {

/// An operator's signature over a message, with the nonce that was signed
/// along and the operator's public key.
///
/// The key is held in its PEM (SubjectPublicKeyInfo) text form, the form in
/// which the custody records who issued what; the signature in its fixed
/// 64-byte encoding.
pub struct SignatureData {
    pub signature: Vec<u8>,
    pub nonce: u64,
    pub public_key: String,
}

/// The part of a withdrawal request that operators sign when they decide on it.
pub struct ConfirmationData {
    /// Identifier of the withdrawal request (a UUID, as a 128-bit integer).
    pub id: u128,
    pub user: String,
    pub address: CurrencyAddress,
    pub created_at: String,
    pub amount: u64,
}

/// A withdrawal request as an operator submits it.
pub struct WithdrawalRequestInfo {
    /// User which initiated withdrawal request
    pub user: String,
    /// Receiving address
    pub address: CurrencyAddress,
    /// Amount of tokens to transfer
    pub amount: u64,
}

/// A withdrawal request together with the operators' signed decisions on it,
/// as the hot wallet receives it.
pub struct ConfirmedWithdrawal {
    pub id: u128,
    pub user: String,
    pub address: CurrencyAddress,
    pub created_at: String,
    pub amount: u64,
    /// Signatures of operators that confirm the request.
    pub confirmations: Vec<SignatureData>,
    /// Signatures of operators that reject the request.
    pub rejections: Vec<SignatureData>,
}

/// Settings of the hot wallet's withdrawal endpoint.
pub struct WithdrawCfg {
    /// How many more valid confirmations than rejections a withdrawal needs.
    pub min_confirmations: i16,
    /// The operators' public keys, in PEM text.
    pub op_public_keys: Vec<String>,
    /// The domain under which operators send their decisions.
    pub hot_domain: String,
    /// The network of the node that pays out.
    pub network: Network,
}

/// An error answer of the hot wallet's API: HTTP status, message and code.
pub struct ErrorMessage {
    pub status: u16,
    pub message: String,
    pub code: u16,
}

/// What the hot wallet answers about a withdrawal it has paid out.
pub struct WithdrawalResponse {
    pub id: u128,
    /// Identifier of the paying transaction.
    pub txid: [u8; 32],
    /// Fee paid, in satoshi, where the node reports one.
    pub fee: Option<u64>,
    pub input_addresses: Vec<CurrencyAddress>,
    pub output_addresses: Vec<CurrencyAddress>,
}

/// The node's role in a wallet transaction entry.
#[derive(PartialEq, Eq, Structural, Clone, Copy, Debug)]
pub enum TxCategory {
    Send,
    Receive,
    Generate,
    Immature,
    Orphan,
}

/// One entry of the node's account of a wallet transaction.
pub struct TxDetail {
    pub category: TxCategory,
    /// The address involved, in its text form, where the node names one.
    pub address: Option<String>,
}

/// The node's fee estimate: a rate in satoshi per 1000 virtual bytes (the
/// node reports BTC per kvB) where it has one, and the number of blocks the
/// estimate is for.
#[derive(PartialEq, Eq, Structural, Clone, Copy, Debug)]
pub struct FeeEstimate {
    pub fee_rate: Option<u64>,
    pub blocks: i64,
}

/// The fee rate the hot wallet advertises, in satoshi per byte.
#[derive(PartialEq, Eq, Structural, Clone, Copy, Debug)]
pub struct FeeResponse {
    pub fee_rate: u64,
    pub block: Option<i64>,
}

/// The hot wallet's balance, in satoshi.
#[derive(PartialEq, Eq, Structural, Clone, Copy, Debug)]
pub struct HotBalanceResponse {
    pub balance: u64,
}

/// Events the chain scanner has gathered, with the block it has reached.
pub struct BtcEvents<E> {
    pub hash: [u8; 32],
    pub height: u64,
    pub events: Vec<E>,
}

/// An invitation an operator has issued.
pub struct InviteRec {
    pub invite: u128,
    /// The issuing operator's public key, in PEM text.
    pub invitor: String,
    pub label: String,
}

/// An invitation as shown to the operator who issued it.
pub struct InviteResp {
    pub invite: u128,
    pub label: String,
}

} // verus!
