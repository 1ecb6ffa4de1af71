//! Withdrawal requests and operators' decisions as the custody stores them.

use vstd::prelude::*;
use vstd::std_specs::convert::{FromSpec, FromSpecImpl};
use crate::domain::{Currency, CurrencyAddress};
use crate::types::{
    ConfirmationData, SignatureData, WithdrawalRequestInfo as WithdrawalRequestInfoApi,
};

verus! {

/// A withdrawal request as stored.
pub struct WithdrawalRequestInfo {
    /// User which initiated withdrawal request
    pub user: String,
    /// Receiving address
    pub address: CurrencyAddress,
    /// Amount of tokens to transfer
    pub amount: u64,
}

impl From<WithdrawalRequestInfoApi> for WithdrawalRequestInfo {
    fn from(value: WithdrawalRequestInfoApi) -> (r: WithdrawalRequestInfo)
        ensures
            r.user == value.user,
            r.address == value.address,
            r.amount == value.amount,
    {
        WithdrawalRequestInfo { user: value.user, address: value.address, amount: value.amount }
    }
}

impl FromSpecImpl<WithdrawalRequestInfoApi> for WithdrawalRequestInfo {
    open spec fn obeys_from_spec() -> bool {
        true
    }

    open spec fn from_spec(value: WithdrawalRequestInfoApi) -> WithdrawalRequestInfo {
        WithdrawalRequestInfo { user: value.user, address: value.address, amount: value.amount }
    }
}

/// Whether an operator confirms or rejects a withdrawal request.
#[derive(PartialEq, Eq, Structural, Clone, Copy, Debug)]
pub enum WithdrawalRequestDecisionType {
    Confirm,
    Reject,
}

/// An operator's decision as it comes in, before it is stored.
pub struct WithdrawalRequestDecisionInfo {
    /// User which initiated withdrawal request
    pub user_id: String,
    /// Withdrawal request currency
    pub currency: Currency,
    /// Withdrawal request ID
    pub request_id: u128,
    /// API URL wich was used to send the decision
    pub url: String,
    /// Confirmation message
    pub msg: String,
    /// Operator's digital signature
    pub signature: Vec<u8>,
    /// Nonce that was generated during decision
    pub nonce: u64,
    /// Operator's public key corresponding to the signing private key
    pub public_key: String,
    /// Decision type: confirm or reject
    pub decision_type: WithdrawalRequestDecisionType,
}

/// The pieces an operator's decision is assembled from: what was signed,
/// the signature, the kind of decision, the URL and the message.
pub type DecisionParts = (
    ConfirmationData,
    SignatureData,
    WithdrawalRequestDecisionType,
    String,
    String,
);

impl From<DecisionParts> for WithdrawalRequestDecisionInfo {
    fn from(value: DecisionParts) -> (r: WithdrawalRequestDecisionInfo)
        ensures
            r.user_id == value.0.user,
            r.currency == value.0.address.currency_of(),
            r.request_id == value.0.id,
            r.url == value.3,
            r.msg == value.4,
            r.signature == value.1.signature,
            r.nonce == value.1.nonce,
            r.public_key == value.1.public_key,
            r.decision_type == value.2,
    {
        let currency = value.0.address.currency();
        WithdrawalRequestDecisionInfo {
            user_id: value.0.user,
            currency,
            request_id: value.0.id,
            url: value.3,
            msg: value.4,
            signature: value.1.signature,
            nonce: value.1.nonce,
            public_key: value.1.public_key,
            decision_type: value.2,
        }
    }
}

impl FromSpecImpl<DecisionParts> for WithdrawalRequestDecisionInfo {
    open spec fn obeys_from_spec() -> bool {
        true
    }

    open spec fn from_spec(value: DecisionParts) -> WithdrawalRequestDecisionInfo {
        WithdrawalRequestDecisionInfo {
            user_id: value.0.user,
            currency: value.0.address.currency_of(),
            request_id: value.0.id,
            url: value.3,
            msg: value.4,
            signature: value.1.signature,
            nonce: value.1.nonce,
            public_key: value.1.public_key,
            decision_type: value.2,
        }
    }
}

/// What is stored of an operator's decision: enough to check the
/// operator's signature again.
pub struct WithdrawalRequestDecision {
    /// API URL wich was used to send the decision
    pub url: String,
    /// Confirmation message
    pub msg: String,
    /// Operator's digital signature
    pub signature: Vec<u8>,
    /// Nonce that was generated during decision
    pub nonce: u64,
    /// Operator's public key corresponding to the signing private key
    pub public_key: String,
}

impl From<WithdrawalRequestDecisionInfo> for WithdrawalRequestDecision {
    fn from(info: WithdrawalRequestDecisionInfo) -> (r: WithdrawalRequestDecision)
        ensures
            r.url == info.url,
            r.msg == info.msg,
            r.signature == info.signature,
            r.nonce == info.nonce,
            r.public_key == info.public_key,
    {
        WithdrawalRequestDecision {
            url: info.url,
            msg: info.msg,
            signature: info.signature,
            nonce: info.nonce,
            public_key: info.public_key,
        }
    }
}

impl FromSpecImpl<WithdrawalRequestDecisionInfo> for WithdrawalRequestDecision {
    open spec fn obeys_from_spec() -> bool {
        true
    }

    open spec fn from_spec(info: WithdrawalRequestDecisionInfo) -> WithdrawalRequestDecision {
        WithdrawalRequestDecision {
            url: info.url,
            msg: info.msg,
            signature: info.signature,
            nonce: info.nonce,
            public_key: info.public_key,
        }
    }
}

/// Storing a submitted withdrawal request keeps its user, its address (of
/// whatever currency) and its amount.
pub proof fn lemma_stored_request_keeps_fields(value: WithdrawalRequestInfoApi)
    ensures
        <WithdrawalRequestInfo as FromSpec<WithdrawalRequestInfoApi>>::from_spec(value).user == value.user,
        <WithdrawalRequestInfo as FromSpec<WithdrawalRequestInfoApi>>::from_spec(value).address == value.address,
        <WithdrawalRequestInfo as FromSpec<WithdrawalRequestInfoApi>>::from_spec(value).amount == value.amount,
{
}

/// An incoming decision records the request's user and identifier, the
/// currency of the request's address, the URL and message it came with, the
/// operator's signature, nonce and key, and the kind of decision.
pub proof fn lemma_decision_info_keeps_fields(value: DecisionParts)
    ensures
        ({
            let r = <WithdrawalRequestDecisionInfo as FromSpec<DecisionParts>>::from_spec(value);
            &&& r.user_id == value.0.user
            &&& r.request_id == value.0.id
            &&& r.currency == match value.0.address {
                CurrencyAddress::BTC(_) => Currency::BTC,
                CurrencyAddress::ETH(_) => Currency::ETH,
                CurrencyAddress::ERC20(e) => Currency::ERC20(e.token),
            }
            &&& r.url == value.3
            &&& r.msg == value.4
            &&& r.signature == value.1.signature
            &&& r.nonce == value.1.nonce
            &&& r.public_key == value.1.public_key
            &&& r.decision_type == value.2
        }),
{
}

/// A stored decision keeps the URL, message, signature, nonce and key of
/// the incoming one.
pub proof fn lemma_stored_decision_keeps_fields(info: WithdrawalRequestDecisionInfo)
    ensures
        <WithdrawalRequestDecision as FromSpec<WithdrawalRequestDecisionInfo>>::from_spec(info).url == info.url,
        <WithdrawalRequestDecision as FromSpec<WithdrawalRequestDecisionInfo>>::from_spec(info).msg == info.msg,
        <WithdrawalRequestDecision as FromSpec<WithdrawalRequestDecisionInfo>>::from_spec(info).signature == info.signature,
        <WithdrawalRequestDecision as FromSpec<WithdrawalRequestDecisionInfo>>::from_spec(info).nonce == info.nonce,
        <WithdrawalRequestDecision as FromSpec<WithdrawalRequestDecisionInfo>>::from_spec(info).public_key == info.public_key,
{
}

} // verus!
