//! What the hot wallet's HTTP handlers compute between their calls to the
//! Bitcoin node: which withdrawals the operators have authorised, what is
//! paid, and what is answered.

use vstd::prelude::*;
use crate::btc_codec::{
    address_of_script, parsed_address, decode_output_scripts, decoded_output_scripts,
    parse_address, script_address, uuid_text, uuid_to_string, Network,
};
use crate::domain::CurrencyAddress;
use crate::types::{
    BtcEvents, ConfirmationData, FeeEstimate, FeeResponse, HotBalanceResponse, ConfirmedWithdrawal, ErrorMessage, TxCategory, TxDetail, WithdrawCfg,
    WithdrawalResponse,
};
use crate::withdrawal::WithdrawalRequestDecisionType;

verus! {

/// The path, under the hot wallet's domain, on which decisions of the given
/// kind are sent.
pub open spec fn decision_path_text(kind: WithdrawalRequestDecisionType) -> Seq<char> {
    match kind {
        WithdrawalRequestDecisionType::Confirm => "/confirm"@,
        WithdrawalRequestDecisionType::Reject => "/reject"@,
    }
}

/// The path on which decisions of the given kind are sent.
pub fn decision_path(kind: WithdrawalRequestDecisionType) -> (r: &'static str)
    ensures
        r@ == decision_path_text(kind),
{
    match kind {
        WithdrawalRequestDecisionType::Confirm => "/confirm",
        WithdrawalRequestDecisionType::Reject => "/reject",
    }
}

/// The text an operator signs to take a decision of the given kind on the
/// request serialised as `msg`: the decision's URL, a colon, the request.
pub open spec fn signed_text(
    domain: Seq<char>,
    kind: WithdrawalRequestDecisionType,
    msg: Seq<char>,
) -> Seq<char> {
    domain + decision_path_text(kind) + ":"@ + msg
}

/// The message whose signatures count as decisions of the given kind.
pub fn signed_message(hot_domain: &str, kind: WithdrawalRequestDecisionType, msg: &str) -> (r:
    String)
    ensures
        r@ == signed_text(hot_domain@, kind, msg@),
{
    let mut text = hot_domain.to_owned();
    text.append(decision_path(kind));
    text.append(":");
    text.append(msg);
    text
}

/// A confirming signature never counts as a rejecting one: over the same
/// domain and request, the confirming and the rejecting message differ.
pub proof fn lemma_confirm_and_reject_messages_differ(domain: Seq<char>, msg: Seq<char>)
    ensures
        signed_text(domain, WithdrawalRequestDecisionType::Confirm, msg) != signed_text(
            domain,
            WithdrawalRequestDecisionType::Reject,
            msg,
        ),
{
    reveal_strlit("/confirm");
    reveal_strlit("/reject");
    let c = signed_text(domain, WithdrawalRequestDecisionType::Confirm, msg);
    let r = signed_text(domain, WithdrawalRequestDecisionType::Reject, msg);
    let i = domain.len() + 1;
    assert(c[i as int] == 'c');
    assert(r[i as int] == 'r');
}

/// The part of a confirmed withdrawal that the operators have signed.
pub fn confirmation_data(cw: &ConfirmedWithdrawal) -> (r: ConfirmationData)
    ensures
        r.id == cw.id,
        r.user == cw.user,
        r.address == cw.address,
        r.created_at == cw.created_at,
        r.amount == cw.amount,
{
    ConfirmationData {
        id: cw.id,
        user: cw.user.clone(),
        address: cw.address.clone(),
        created_at: cw.created_at.clone(),
        amount: cw.amount,
    }
}

/// How many entries of a sequence are `true`.
pub open spec fn count_true(s: Seq<bool>) -> nat
    decreases s.len(),
{
    if s.len() == 0 {
        0
    } else {
        count_true(s.drop_last()) + (if s.last() {
            1nat
        } else {
            0nat
        })
    }
}

/// How many signatures were found valid.
pub fn count_valid(verdicts: &Vec<bool>) -> (n: usize)
    ensures
        n == count_true(verdicts@),
{
    let mut n: usize = 0;
    let mut i: usize = 0;
    while i < verdicts.len()
        invariant
            i <= verdicts.len(),
            n <= i,
            n == count_true(verdicts@.subrange(0, i as int)),
        decreases verdicts.len() - i,
    {
        assert(verdicts@.subrange(0, i + 1).drop_last() == verdicts@.subrange(0, i as int));
        if verdicts[i] {
            n = n + 1;
        }
        i = i + 1;
    }
    assert(verdicts@.subrange(0, verdicts.len() as int) == verdicts@);
    n
}

/// The rule by which operators authorise a withdrawal: strictly more valid
/// confirmations than valid rejections, by at least `min_confirmations`.
pub open spec fn authorized(confirms: int, rejections: int, min_confirmations: int) -> bool {
    confirms > rejections && confirms - rejections >= min_confirmations
}

/// Whether the given numbers of valid confirmations and rejections
/// authorise a withdrawal.
pub fn withdrawal_authorized(
    valid_confirms: usize,
    valid_rejections: usize,
    min_confirmations: i16,
) -> (ok: bool)
    ensures
        ok == authorized(valid_confirms as int, valid_rejections as int, min_confirmations as int),
{
    if valid_confirms > valid_rejections {
        let margin = valid_confirms - valid_rejections;
        min_confirmations < 0 || margin >= min_confirmations as usize
    } else {
        false
    }
}

/// One more signature on the confirming side never withdraws an
/// authorisation, and one more on the rejecting side never grants one.
pub proof fn lemma_authorization_monotonic(
    confirms: Seq<bool>,
    rejections: Seq<bool>,
    min_confirmations: i16,
    extra: bool,
)
    ensures
        authorized(
            count_true(confirms) as int,
            count_true(rejections) as int,
            min_confirmations as int,
        ) ==> authorized(
            count_true(confirms.push(extra)) as int,
            count_true(rejections) as int,
            min_confirmations as int,
        ),
        !authorized(
            count_true(confirms) as int,
            count_true(rejections) as int,
            min_confirmations as int,
        ) ==> !authorized(
            count_true(confirms) as int,
            count_true(rejections.push(extra)) as int,
            min_confirmations as int,
        ),
{
    assert(confirms.push(extra).drop_last() == confirms);
    assert(rejections.push(extra).drop_last() == rejections);
}

/// A withdrawal is never authorised unless strictly more operators confirm
/// it than reject it, whatever the configured minimum.
pub proof fn lemma_authorization_needs_majority(
    confirms: Seq<bool>,
    rejections: Seq<bool>,
    min_confirmations: i16,
)
    requires
        authorized(
            count_true(confirms) as int,
            count_true(rejections) as int,
            min_confirmations as int,
        ),
    ensures
        count_true(confirms) > count_true(rejections),
        count_true(confirms) - count_true(rejections) >= min_confirmations,
{
}

/// An error answer with the given status, message and code.
pub open spec fn is_error(e: ErrorMessage, status: u16, message: Seq<char>, code: u16) -> bool {
    e.status == status && e.message@ == message && e.code == code
}

fn error_message(status: u16, message: &str, code: u16) -> (e: ErrorMessage)
    ensures
        is_error(e, status, message@, code),
{
    ErrorMessage { status, message: message.to_owned(), code }
}

/// The answer to a withdrawal to an address that cannot be paid.
pub open spec fn is_not_btc(e: ErrorMessage) -> bool {
    is_error(e, 400, "Not BTC??"@, 500)
}

/// The answer to a withdrawal the operators have not authorised.
pub open spec fn is_forbidden(e: ErrorMessage) -> bool {
    is_error(e, 403, "Signature verification failed"@, 403)
}

/// A payment the hot wallet is to make: to whom, how much (in satoshi),
/// and the comment recorded with it.
pub struct PaymentOrder {
    pub address: bitcoin::Address,
    pub amount: u64,
    pub comment: String,
}

/// Whether the hot wallet can pay to an address: a Bitcoin address that
/// the `bitcoin` crate accepts.
pub open spec fn payable(address: CurrencyAddress) -> bool {
    address matches CurrencyAddress::BTC(a) && parsed_address(a.addr@) is Ok
}

/// What preparing the payment of request `id` of `amount` to `address`
/// gives: where the address can be paid, the payment of `amount` to the
/// address parsed from its text, commented with the request's identifier;
/// the "Not BTC??" answer otherwise.
pub open spec fn payment_outcome(
    r: Result<PaymentOrder, ErrorMessage>,
    id: u128,
    address: CurrencyAddress,
    amount: u64,
) -> bool {
    if payable(address) {
        &&& r matches Ok(o)
        &&& address matches CurrencyAddress::BTC(b)
        &&& o.address == parsed_address(b.addr@)->Ok_0
        &&& o.amount == amount
        &&& o.comment@ == uuid_text(id)
    } else {
        r matches Err(e) && is_not_btc(e)
    }
}

/// Prepares the payment of a withdrawal request: the address must be a
/// Bitcoin address, and the request's identifier becomes the comment.
pub fn prepare_payment(id: u128, address: &CurrencyAddress, amount: u64) -> (r: Result<
    PaymentOrder,
    ErrorMessage,
>)
    ensures
        payment_outcome(r, id, *address, amount),
{
    match address {
        CurrencyAddress::BTC(a) => match parse_address(a.addr.as_str()) {
            Ok(addr) => Ok(PaymentOrder { address: addr, amount, comment: uuid_to_string(id) }),
            Err(_) => Err(error_message(400, "Not BTC??", 500)),
        },
        _ => Err(error_message(400, "Not BTC??", 500)),
    }
}

/// Decides on a confirmed withdrawal. `confirm_verdicts[i]` tells whether
/// `cw.confirmations[i]` is a valid operator signature over the confirming
/// message, and `reject_verdicts` the same of the rejections. Where the
/// operators authorise the withdrawal, its payment is prepared; otherwise
/// the answer is "Signature verification failed".
pub fn authorize_withdrawal(
    cfg: &WithdrawCfg,
    cw: &ConfirmedWithdrawal,
    confirm_verdicts: &Vec<bool>,
    reject_verdicts: &Vec<bool>,
) -> (r: Result<PaymentOrder, ErrorMessage>)
    requires
        confirm_verdicts.len() == cw.confirmations.len(),
        reject_verdicts.len() == cw.rejections.len(),
    ensures
        authorized(
            count_true(confirm_verdicts@) as int,
            count_true(reject_verdicts@) as int,
            cfg.min_confirmations as int,
        ) ==> payment_outcome(r, cw.id, cw.address, cw.amount),
        !authorized(
            count_true(confirm_verdicts@) as int,
            count_true(reject_verdicts@) as int,
            cfg.min_confirmations as int,
        ) ==> (r matches Err(e) && is_forbidden(e)),
{
    let valid_confirms = count_valid(confirm_verdicts);
    let valid_rejections = count_valid(reject_verdicts);
    if withdrawal_authorized(valid_confirms, valid_rejections, cfg.min_confirmations) {
        prepare_payment(cw.id, &cw.address, cw.amount)
    } else {
        Err(error_message(403, "Signature verification failed", 403))
    }
}

/// The fee of a transaction as the node reports it (a signed amount, in
/// satoshi), as an absolute value.
pub open spec fn fee_paid(fee: Option<i64>) -> Option<u64> {
    match fee {
        Some(f) => Some((if f < 0 { -(f as int) } else { f as int }) as u64),
        None => None,
    }
}

/// The fee a withdrawal paid.
pub fn withdrawal_fee(fee: Option<i64>) -> (r: Option<u64>)
    requires
        fee matches Some(f) ==> f != i64::MIN,
    ensures
        r == fee_paid(fee),
{
    match fee {
        Some(f) => if f < 0 {
            Some((-f) as u64)
        } else {
            Some(f as u64)
        },
        None => None,
    }
}

/// Whether an entry of the node's account of a transaction names one of
/// the addresses it is counted from: a receiving, generating or immature
/// entry.
pub open spec fn counts_as_input(c: TxCategory) -> bool {
    c == TxCategory::Receive || c == TxCategory::Generate || c == TxCategory::Immature
}

/// The address texts of the entries that count as inputs and name an
/// address, in order.
pub open spec fn input_address_texts(details: Seq<TxDetail>) -> Seq<Seq<char>>
    decreases details.len(),
{
    if details.len() == 0 {
        seq![]
    } else {
        let before = input_address_texts(details.drop_last());
        let d = details.last();
        if counts_as_input(d.category) && d.address is Some {
            before.push(d.address->0@)
        } else {
            before
        }
    }
}

/// Whether `a` is the Bitcoin address with text `t`.
pub open spec fn is_btc_text(a: CurrencyAddress, t: Seq<char>) -> bool {
    a matches CurrencyAddress::BTC(b) && b.addr@ == t
}

/// Whether `v` is the list of Bitcoin addresses with the texts `texts`.
pub open spec fn btc_addresses(v: Seq<CurrencyAddress>, texts: Seq<Seq<char>>) -> bool {
    &&& v.len() == texts.len()
    &&& forall|i: int| 0 <= i < v.len() ==> is_btc_text(#[trigger] v[i], texts[i])
}

/// The addresses a withdrawal transaction is counted from.
pub fn input_addresses(details: &Vec<TxDetail>) -> (r: Vec<CurrencyAddress>)
    ensures
        btc_addresses(r@, input_address_texts(details@)),
{
    let mut r: Vec<CurrencyAddress> = Vec::new();
    let mut i: usize = 0;
    while i < details.len()
        invariant
            i <= details.len(),
            btc_addresses(r@, input_address_texts(details@.subrange(0, i as int))),
        decreases details.len() - i,
    {
        assert(details@.subrange(0, i + 1).drop_last() == details@.subrange(0, i as int));
        let d = &details[i];
        let counts = d.category == TxCategory::Receive || d.category == TxCategory::Generate
            || d.category == TxCategory::Immature;
        if counts {
            match &d.address {
                Some(a) => {
                    r.push(CurrencyAddress::btc(a.clone()));
                },
                None => {},
            }
        }
        i = i + 1;
    }
    assert(details@.subrange(0, details.len() as int) == details@);
    r
}

/// The texts of the addresses that output scripts pay to, in order, leaving
/// out the scripts that pay to no address.
pub open spec fn output_address_texts(scripts: Seq<Seq<u8>>, network: Network) -> Seq<Seq<char>>
    decreases scripts.len(),
{
    if scripts.len() == 0 {
        seq![]
    } else {
        let before = output_address_texts(scripts.drop_last(), network);
        match script_address(scripts.last(), network) {
            Some(t) => before.push(t),
            None => before,
        }
    }
}

/// The addresses a raw transaction pays to, or the text of the decoding
/// error.
pub fn output_addresses(tx_bytes: &[u8], network: Network) -> (r: Result<
    Vec<CurrencyAddress>,
    String,
>)
    ensures
        r is Ok <==> decoded_output_scripts(tx_bytes@) is Ok,
        r matches Ok(v) ==> btc_addresses(
            v@,
            output_address_texts(decoded_output_scripts(tx_bytes@)->Ok_0, network),
        ),
        r matches Err(e) ==> e@ == decoded_output_scripts(tx_bytes@)->Err_0,
{
    let scripts = match decode_output_scripts(tx_bytes) {
        Ok(s) => s,
        Err(e) => {
            return Err(e);
        },
    };
    let ghost ss = scripts.deep_view();
    let mut r: Vec<CurrencyAddress> = Vec::new();
    let mut i: usize = 0;
    while i < scripts.len()
        invariant
            i <= scripts.len(),
            ss == scripts.deep_view(),
            btc_addresses(r@, output_address_texts(ss.subrange(0, i as int), network)),
        decreases scripts.len() - i,
    {
        assert(ss.subrange(0, i + 1).drop_last() == ss.subrange(0, i as int));
        assert(ss[i as int] == scripts[i as int]@);
        match address_of_script(scripts[i].as_slice(), network) {
            Some(t) => {
                r.push(CurrencyAddress::btc(t));
            },
            None => {},
        }
        i = i + 1;
    }
    assert(ss.subrange(0, scripts.len() as int) == ss);
    Ok(r)
}

/// Builds the answer about a paid withdrawal from what the node reports of
/// the paying transaction: its fee, its entries and its raw bytes.
pub fn withdrawal_response(
    id: u128,
    txid: [u8; 32],
    fee: Option<i64>,
    details: &Vec<TxDetail>,
    tx_bytes: &[u8],
    network: Network,
) -> (r: Result<WithdrawalResponse, ErrorMessage>)
    requires
        fee matches Some(f) ==> f != i64::MIN,
    ensures
        r is Ok <==> decoded_output_scripts(tx_bytes@) is Ok,
        r matches Ok(resp) ==> {
            &&& resp.id == id
            &&& resp.txid == txid
            &&& resp.fee == fee_paid(fee)
            &&& btc_addresses(resp.input_addresses@, input_address_texts(details@))
            &&& btc_addresses(
                resp.output_addresses@,
                output_address_texts(decoded_output_scripts(tx_bytes@)->Ok_0, network),
            )
        },
        r matches Err(e) ==> is_error(
            e,
            500,
            "Failed to deserialize tx: "@ + decoded_output_scripts(tx_bytes@)->Err_0,
            500,
        ),
{
    let fee = withdrawal_fee(fee);
    let input_addresses = input_addresses(details);
    match output_addresses(tx_bytes, network) {
        Ok(output_addresses) => Ok(
            WithdrawalResponse { id, txid, fee, input_addresses, output_addresses },
        ),
        Err(detail) => Err(node_failure(NodeFailure::DeserializeTx, detail.as_str())),
    }
}

/// A step of a withdrawal or of a balance query at which a call to the
/// node can fail.
#[derive(PartialEq, Eq, Structural, Clone, Copy, Debug)]
pub enum NodeFailure {
    PostTx,
    TxNotFound,
    DeserializeTx,
    Balance,
}

/// How the answer to a failure at the given step begins.
pub open spec fn failure_prefix(step: NodeFailure) -> Seq<char> {
    match step {
        NodeFailure::PostTx => "Failed to post the tx: "@,
        NodeFailure::TxNotFound => "Tx not found: "@,
        NodeFailure::DeserializeTx => "Failed to deserialize tx: "@,
        NodeFailure::Balance => "Failed get the balance: "@,
    }
}

/// The answer to a failure at the given step, with the failure's text.
pub fn node_failure(step: NodeFailure, detail: &str) -> (e: ErrorMessage)
    ensures
        is_error(e, 500, failure_prefix(step) + detail@, 500),
{
    let prefix = match step {
        NodeFailure::PostTx => "Failed to post the tx: ",
        NodeFailure::TxNotFound => "Tx not found: ",
        NodeFailure::DeserializeTx => "Failed to deserialize tx: ",
        NodeFailure::Balance => "Failed get the balance: ",
    };
    let mut message = prefix.to_owned();
    message.append(detail);
    ErrorMessage { status: 500, message, code: 500 }
}

/// The fee rate advertised where the node has no estimate: 5 satoshi per
/// byte, for no particular block.
pub open spec fn default_fee() -> FeeResponse {
    FeeResponse { fee_rate: 5, block: None }
}

/// The fee rate to advertise, in satoshi per byte, given the node's
/// estimate (per 1000 bytes), or `None` where the node could not be asked.
pub fn fee_response(estimate: Option<FeeEstimate>) -> (r: FeeResponse)
    ensures
        r == match estimate {
            Some(FeeEstimate { fee_rate: Some(rate), blocks }) => FeeResponse {
                fee_rate: (rate / 1000) as u64,
                block: Some(blocks),
            },
            _ => default_fee(),
        },
{
    let default = FeeResponse { fee_rate: 5, block: None };
    match estimate {
        None => default,
        Some(fe) => match fe.fee_rate {
            None => default,
            Some(rate) => FeeResponse { fee_rate: rate / 1000, block: Some(fe.blocks) },
        },
    }
}

/// The answer about the hot wallet's balance, given the node's answer (in
/// satoshi) or the text of its failure.
pub fn hot_balance(balance: Result<u64, String>) -> (r: Result<HotBalanceResponse, ErrorMessage>)
    ensures
        balance matches Ok(b) ==> r == Ok::<HotBalanceResponse, ErrorMessage>(
            HotBalanceResponse { balance: b },
        ),
        balance matches Err(d) ==> (r matches Err(e) && is_error(
            e,
            500,
            failure_prefix(NodeFailure::Balance) + d@,
            500,
        )),
{
    match balance {
        Ok(b) => Ok(HotBalanceResponse { balance: b }),
        Err(d) => Err(node_failure(NodeFailure::Balance, d.as_str())),
    }
}

/// The chain scanner's state as the events endpoint sees it: the last block
/// reached, its height, and the events gathered since the last poll.
pub struct ScanState<E> {
    pub last_block: [u8; 32],
    pub last_height: u64,
    pub events: Vec<E>,
}

/// Whether a poll of the scanner in state `before` answered `r` and left
/// the scanner in state `after`: the answer holds the block reached and all
/// gathered events, and the scanner keeps its block and holds no events.
pub open spec fn polled<E>(before: ScanState<E>, after: ScanState<E>, r: BtcEvents<E>) -> bool {
    &&& r.hash == before.last_block
    &&& r.height == before.last_height
    &&& r.events@ == before.events@
    &&& after.last_block == before.last_block
    &&& after.last_height == before.last_height
    &&& after.events@ == Seq::<E>::empty()
}

/// Hands out the events the scanner has gathered, and forgets them.
pub fn take_events<E>(state: &mut ScanState<E>) -> (r: BtcEvents<E>)
    ensures
        polled(*old(state), *final(state), r),
{
    let mut events: Vec<E> = Vec::new();
    std::mem::swap(&mut events, &mut state.events);
    BtcEvents { hash: state.last_block, height: state.last_height, events }
}

/// Events are handed out once: a poll right after a poll hands out no
/// events, and reports the same block.
pub proof fn lemma_poll_twice<E>(
    s0: ScanState<E>,
    s1: ScanState<E>,
    s2: ScanState<E>,
    r1: BtcEvents<E>,
    r2: BtcEvents<E>,
)
    requires
        polled(s0, s1, r1),
        polled(s1, s2, r2),
    ensures
        r1.events@ == s0.events@,
        r2.events@.len() == 0,
        r2.hash == r1.hash,
        r2.height == r1.height,
{
}

/// Whether the scanner, from state `before`, appended the events `added`
/// to reach state `after` (it may also move to another block).
pub open spec fn appended<E>(before: ScanState<E>, after: ScanState<E>, added: Seq<E>) -> bool {
    after.events@ == before.events@ + added
}

/// The events of a sequence of answers, one answer after the other.
pub open spec fn answered_events<E>(answers: Seq<BtcEvents<E>>) -> Seq<E>
    decreases answers.len(),
{
    if answers.len() == 0 {
        seq![]
    } else {
        answered_events(answers.drop_last()) + answers.last().events@
    }
}

/// The events of a sequence of batches, one batch after the other.
pub open spec fn batched_events<E>(batches: Seq<Seq<E>>) -> Seq<E>
    decreases batches.len(),
{
    if batches.len() == 0 {
        seq![]
    } else {
        batched_events(batches.drop_last()) + batches.last()
    }
}

/// Polls hand out every event the scanner appends, once each and in order.
/// The scanner starts in `start` with no events; before poll `i` it
/// appends `batches[i]`, reaching `at_poll[i]`; poll `i` answers
/// `answers[i]` and leaves `after_poll[i]`. Then the answers' events, one
/// after the other, are the batches, one after the other.
pub proof fn lemma_polls_hand_out_appended_events<E>(
    start: ScanState<E>,
    batches: Seq<Seq<E>>,
    at_poll: Seq<ScanState<E>>,
    answers: Seq<BtcEvents<E>>,
    after_poll: Seq<ScanState<E>>,
)
    requires
        start.events@.len() == 0,
        at_poll.len() == batches.len(),
        answers.len() == batches.len(),
        after_poll.len() == batches.len(),
        batches.len() > 0 ==> appended(start, at_poll[0], batches[0]),
        forall|i: int|
            0 < i < batches.len() ==> appended(after_poll[i - 1], #[trigger] at_poll[i], batches[i]),
        forall|i: int|
            0 <= i < batches.len() ==> polled(#[trigger] at_poll[i], after_poll[i], answers[i]),
    ensures
        answered_events(answers) == batched_events(batches),
    decreases batches.len(),
{
    let n = batches.len();
    if n > 0 {
        let m = (n - 1) as int;
        let b = batches.subrange(0, m);
        let p = at_poll.subrange(0, m);
        let a = answers.subrange(0, m);
        let q = after_poll.subrange(0, m);
        assert forall|i: int| 0 < i < b.len() implies appended(q[i - 1], #[trigger] p[i], b[i]) by {
            assert(appended(after_poll[i - 1], at_poll[i], batches[i]));
        }
        assert forall|i: int| 0 <= i < b.len() implies polled(#[trigger] p[i], q[i], a[i]) by {
            assert(polled(at_poll[i], after_poll[i], answers[i]));
        }
        lemma_polls_hand_out_appended_events(start, b, p, a, q);
        assert(polled(at_poll[m], after_poll[m], answers[m]));
        if m > 0 {
            assert(appended(after_poll[m - 1], at_poll[m], batches[m]));
            assert(polled(at_poll[m - 1], after_poll[m - 1], answers[m - 1]));
        }
        assert(answers[m].events@ == batches[m]);
        assert(answers.drop_last() == a);
        assert(batches.drop_last() == b);
    }
}

/// Errors of the hot wallet's endpoints for driving a test node.
pub enum DebugApiError {
    /// The node does not run on the test network, where these endpoints are
    /// switched off.
    DebugNotEnabled,
    /// The node refused a call; the text of its error.
    NodeRpc(String),
    /// The given address is not one; the text of the parser's error.
    AddressParse(String),
}

/// Lets the test-node endpoints through only on a node whose chain is
/// "regtest".
pub fn guard_regtest(chain: &String) -> (r: Result<(), DebugApiError>)
    ensures
        r is Ok <==> chain@ == "regtest"@,
        r matches Err(e) ==> e is DebugNotEnabled,
{
    let regtest = "regtest".to_owned();
    if chain.eq(&regtest) {
        Ok(())
    } else {
        Err(DebugApiError::DebugNotEnabled)
    }
}

/// How many blocks the block-generating endpoint mines on a node with the
/// given chain: the number asked for, or one block where none is asked.
pub fn plan_generate(chain: &String, blocks: Option<u16>) -> (r: Result<u16, DebugApiError>)
    ensures
        chain@ != "regtest"@ ==> (r matches Err(e) && e is DebugNotEnabled),
        chain@ == "regtest"@ ==> r == Ok::<u16, DebugApiError>(
            match blocks {
                Some(n) => n,
                None => 1u16,
            },
        ),
{
    guard_regtest(chain)?;
    match blocks {
        Some(n) => Ok(n),
        None => Ok(1),
    }
}

/// What the test-node endpoint that sends coins pays, on a node with the
/// given chain: `amount` satoshi to the parsed address.
pub fn plan_send(chain: &String, address: &str, amount: u64) -> (r: Result<
    (bitcoin::Address, u64),
    DebugApiError,
>)
    ensures
        chain@ != "regtest"@ ==> (r matches Err(e) && e is DebugNotEnabled),
        chain@ == "regtest"@ && parsed_address(address@) is Err ==> (r matches Err(e) && (
        e matches DebugApiError::AddressParse(t) && t@ == parsed_address(address@)->Err_0)),
        chain@ == "regtest"@ && parsed_address(address@) is Ok ==> (r matches Ok(p) && p.0
            == parsed_address(address@)->Ok_0 && p.1 == amount),
{
    guard_regtest(chain)?;
    match parse_address(address) {
        Ok(a) => Ok((a, amount)),
        Err(t) => Err(DebugApiError::AddressParse(t)),
    }
}

/// The secret key the API server runs with where none is configured.
pub open spec fn zero_secret_key() -> Seq<char> {
    "AAAAAAAAAAAAAAAAAAAAAAAAAAAAAAAAAAAAAAAAAAAAAAAAAAAAAAAAAAAAAAAAAAAAAAAAAAAAAAAAAAAAAA=="@
}

/// The secret key the API server runs with: the configured one, or the
/// all-zero key.
pub fn server_secret_key<'a>(secret_key: Option<&'a str>) -> (r: &'a str)
    ensures
        r@ == match secret_key {
            Some(k) => k@,
            None => zero_secret_key(),
        },
{
    match secret_key {
        Some(k) => k,
        None => "AAAAAAAAAAAAAAAAAAAAAAAAAAAAAAAAAAAAAAAAAAAAAAAAAAAAAAAAAAAAAAAAAAAAAAAAAAAAAAAAAAAAAA==",
    }
}

/// The decision paths and the signed texts, spelled out: the domain, then
/// "/confirm:" or "/reject:", then the request.
pub proof fn lemma_signed_text_spelled_out(domain: Seq<char>, msg: Seq<char>)
    ensures
        decision_path_text(WithdrawalRequestDecisionType::Confirm) == "/confirm"@,
        decision_path_text(WithdrawalRequestDecisionType::Reject) == "/reject"@,
        signed_text(domain, WithdrawalRequestDecisionType::Confirm, msg) == domain + "/confirm:"@
            + msg,
        signed_text(domain, WithdrawalRequestDecisionType::Reject, msg) == domain + "/reject:"@
            + msg,
{
    reveal_strlit("/confirm");
    reveal_strlit("/reject");
    reveal_strlit(":");
    reveal_strlit("/confirm:");
    reveal_strlit("/reject:");
    assert(signed_text(domain, WithdrawalRequestDecisionType::Confirm, msg) =~= domain
        + "/confirm:"@ + msg);
    assert(signed_text(domain, WithdrawalRequestDecisionType::Reject, msg) =~= domain + "/reject:"@
        + msg);
}

/// Counting valid signatures: none in an empty list, one more for each
/// further valid one, never more than there are.
pub proof fn lemma_count_true_counts(s: Seq<bool>, b: bool)
    ensures
        count_true(Seq::<bool>::empty()) == 0,
        b ==> count_true(s.push(b)) == count_true(s) + 1,
        !b ==> count_true(s.push(b)) == count_true(s),
        count_true(s) <= s.len(),
    decreases s.len(),
{
    assert(s.push(b).drop_last() == s);
    if s.len() > 0 {
        lemma_count_true_counts(s.drop_last(), b);
    }
}

/// The authorisation rule, both ways: a withdrawal is authorised exactly
/// when valid confirmations outnumber valid rejections by a margin of at
/// least `min_confirmations`.
pub proof fn lemma_authorization_rule(confirms: int, rejections: int, min_confirmations: int)
    ensures
        authorized(confirms, rejections, min_confirmations) <==> (confirms > rejections && confirms
            - rejections >= min_confirmations),
{
}

/// The error answers, spelled out.
pub proof fn lemma_error_answers_spelled_out(e: ErrorMessage)
    ensures
        is_not_btc(e) <==> (e.status == 400 && e.message@ == "Not BTC??"@ && e.code == 500),
        is_forbidden(e) <==> (e.status == 403 && e.message@ == "Signature verification failed"@
            && e.code == 403),
{
}

/// Every Bitcoin address the `bitcoin` crate parses is paid: the payment
/// goes to the parsed address, of the requested amount, commented with the
/// request's identifier.
pub proof fn lemma_parsed_btc_address_is_paid(
    r: Result<PaymentOrder, ErrorMessage>,
    id: u128,
    address: CurrencyAddress,
    amount: u64,
    text: Seq<char>,
)
    requires
        payment_outcome(r, id, address, amount),
        address matches CurrencyAddress::BTC(b) && b.addr@ == text,
        parsed_address(text) is Ok,
    ensures
        r matches Ok(o) && o.address == parsed_address(text)->Ok_0 && o.amount == amount
            && o.comment@ == uuid_text(id),
{
}

/// Every other address is refused with "Not BTC??": one of another currency,
/// or a text the `bitcoin` crate does not parse.
pub proof fn lemma_other_address_is_refused(
    r: Result<PaymentOrder, ErrorMessage>,
    id: u128,
    address: CurrencyAddress,
    amount: u64,
)
    requires
        payment_outcome(r, id, address, amount),
        !(address matches CurrencyAddress::BTC(b) && parsed_address(b.addr@) is Ok),
    ensures
        r matches Err(e) && e.status == 400 && e.message@ == "Not BTC??"@ && e.code == 500,
{
}

/// The fee is reported as an absolute value: a non-negative fee as it is,
/// a negative one with its sign dropped, no fee as none.
pub proof fn lemma_fee_is_absolute(f: i64)
    ensures
        fee_paid(None) == None::<u64>,
        f >= 0 ==> fee_paid(Some(f)) == Some(f as u64),
        f > i64::MIN ==> fee_paid(Some(f)) == fee_paid(Some((-f) as i64)),
{
}

/// Whether `v` lists Bitcoin addresses with the texts `texts`, spelled out.
pub proof fn lemma_btc_addresses_spelled_out(v: Seq<CurrencyAddress>, texts: Seq<Seq<char>>)
    ensures
        btc_addresses(v, texts) <==> (v.len() == texts.len() && forall|i: int|
            0 <= i < v.len() ==> (#[trigger] v[i] matches CurrencyAddress::BTC(b) && b.addr@
                == texts[i])),
{
}

/// Input addresses, entry by entry: none from no entries; a receiving,
/// generating or immature entry that names an address adds that address at
/// the end; any other entry adds nothing.
pub proof fn lemma_input_address_texts_step(details: Seq<TxDetail>, d: TxDetail)
    ensures
        input_address_texts(Seq::<TxDetail>::empty()) == Seq::<Seq<char>>::empty(),
        (d.category == TxCategory::Receive || d.category == TxCategory::Generate || d.category
            == TxCategory::Immature) && d.address is Some ==> input_address_texts(details.push(d))
            == input_address_texts(details).push(d.address->0@),
        !((d.category == TxCategory::Receive || d.category == TxCategory::Generate || d.category
            == TxCategory::Immature) && d.address is Some) ==> input_address_texts(details.push(d))
            == input_address_texts(details),
{
    assert(details.push(d).drop_last() == details);
}

/// Output addresses, script by script, for the configured network: none
/// from no scripts; a script that pays to an address on that network adds
/// exactly that address at the end; any other script adds nothing.
pub proof fn lemma_output_address_texts_step(
    scripts: Seq<Seq<u8>>,
    script: Seq<u8>,
    network: Network,
)
    ensures
        output_address_texts(Seq::<Seq<u8>>::empty(), network) == Seq::<Seq<char>>::empty(),
        script_address(script, network) is Some ==> output_address_texts(
            scripts.push(script),
            network,
        ) == output_address_texts(scripts, network).push(script_address(script, network)->0),
        script_address(script, network) is None ==> output_address_texts(
            scripts.push(script),
            network,
        ) == output_address_texts(scripts, network),
{
    assert(scripts.push(script).drop_last() == scripts);
}

/// The answers to a failing call to the node, spelled out.
pub proof fn lemma_failure_prefixes_spelled_out()
    ensures
        failure_prefix(NodeFailure::PostTx) == "Failed to post the tx: "@,
        failure_prefix(NodeFailure::TxNotFound) == "Tx not found: "@,
        failure_prefix(NodeFailure::DeserializeTx) == "Failed to deserialize tx: "@,
        failure_prefix(NodeFailure::Balance) == "Failed get the balance: "@,
{
}

/// Without an estimate the advertised fee is 5 satoshi per byte, for no
/// particular block; the server's default key is the all-zero one.
pub proof fn lemma_defaults_spelled_out()
    ensures
        default_fee() == (FeeResponse { fee_rate: 5, block: None }),
        zero_secret_key()
            == "AAAAAAAAAAAAAAAAAAAAAAAAAAAAAAAAAAAAAAAAAAAAAAAAAAAAAAAAAAAAAAAAAAAAAAAAAAAAAAAAAAAAAA=="@,
{
}

} // verus!
