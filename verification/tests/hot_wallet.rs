use hexstody::btc_api::{
    authorize_withdrawal, confirmation_data, count_valid, decision_path, fee_response,
    guard_regtest, hot_balance, input_addresses, node_failure, output_addresses, plan_generate,
    plan_send, prepare_payment, server_secret_key, signed_message, take_events,
    withdrawal_authorized, withdrawal_fee, withdrawal_response, DebugApiError, NodeFailure,
    ScanState,
};
use hexstody::btc_codec::Network;
use hexstody::domain::{BtcAddress, CurrencyAddress, EthAccount};
use hexstody::types::{
    ConfirmedWithdrawal, FeeEstimate, FeeResponse, HotBalanceResponse, SignatureData, TxCategory,
    TxDetail, WithdrawCfg,
};
use hexstody::withdrawal::WithdrawalRequestDecisionType;
use bitcoin::blockdata::transaction::{OutPoint, Transaction, TxIn, TxOut};

const MAIN_P2PKH: &str = "1BvBMSEYstWetqTFn5Au4m4GFg7xJaNVN2";
const MAIN_BECH32: &str = "bc1qw508d6qejxtdg4y5r3zarvary0c5xw7kv8f3t4";
const REQUEST_ID: u128 = 0xa1a2a3a4b1b2c1c2d1d2d3d4d5d6d7d8;

fn sig(n: u64) -> SignatureData {
    SignatureData { signature: vec![1u8; 64], nonce: n, public_key: format!("key{}", n) }
}

fn cfg(min: i16) -> WithdrawCfg {
    WithdrawCfg {
        min_confirmations: min,
        op_public_keys: vec!["key1".to_owned(), "key2".to_owned()],
        hot_domain: "https://hot.example".to_owned(),
        network: Network::Regtest,
    }
}

fn withdrawal(address: CurrencyAddress, confirms: usize, rejects: usize) -> ConfirmedWithdrawal {
    ConfirmedWithdrawal {
        id: REQUEST_ID,
        user: "alice".to_owned(),
        address,
        created_at: "2022-06-01".to_owned(),
        amount: 25_000,
        confirmations: (0..confirms as u64).map(sig).collect(),
        rejections: (0..rejects as u64).map(sig).collect(),
    }
}

fn btc(addr: &str) -> CurrencyAddress {
    CurrencyAddress::BTC(BtcAddress { addr: addr.to_owned() })
}

#[test]
fn decision_paths() {
    assert_eq!(decision_path(WithdrawalRequestDecisionType::Confirm), "/confirm");
    assert_eq!(decision_path(WithdrawalRequestDecisionType::Reject), "/reject");
}

#[test]
fn signed_messages_join_url_and_request() {
    let m = signed_message("https://hot", WithdrawalRequestDecisionType::Confirm, "{\"a\":1}");
    assert_eq!(m, "https://hot/confirm:{\"a\":1}");
    let r = signed_message("https://hot", WithdrawalRequestDecisionType::Reject, "{\"a\":1}");
    assert_eq!(r, "https://hot/reject:{\"a\":1}");
    assert_ne!(m, r);
}

#[test]
fn counts_valid_signatures() {
    assert_eq!(count_valid(&vec![]), 0);
    assert_eq!(count_valid(&vec![true, false, true, true]), 3);
    assert_eq!(count_valid(&vec![false, false]), 0);
}

#[test]
fn authorization_rule() {
    assert!(withdrawal_authorized(3, 1, 2));
    assert!(!withdrawal_authorized(3, 2, 2));
    assert!(!withdrawal_authorized(2, 2, 0));
    assert!(!withdrawal_authorized(2, 2, -5));
    assert!(withdrawal_authorized(1, 0, -5));
    assert!(withdrawal_authorized(1, 0, 0));
    assert!(!withdrawal_authorized(0, 0, 0));
    assert!(!withdrawal_authorized(1, 0, i16::MAX));
}

#[test]
fn authorization_monotonic_examples() {
    // one more confirmation keeps an authorisation
    assert!(withdrawal_authorized(2, 0, 2));
    assert!(withdrawal_authorized(3, 0, 2));
    // one more rejection keeps a refusal
    assert!(!withdrawal_authorized(2, 1, 2));
    assert!(!withdrawal_authorized(2, 2, 2));
}

#[test]
fn confirmation_data_copies_request() {
    let cw = withdrawal(btc(MAIN_P2PKH), 1, 0);
    let cd = confirmation_data(&cw);
    assert_eq!(cd.id, REQUEST_ID);
    assert_eq!(cd.user, "alice");
    assert_eq!(cd.created_at, "2022-06-01");
    assert_eq!(cd.amount, 25_000);
}

#[test]
fn unauthorised_withdrawal_is_forbidden() {
    let cw = withdrawal(btc(MAIN_P2PKH), 2, 1);
    let e = match authorize_withdrawal(&cfg(2), &cw, &vec![true, true], &vec![true]) {
        Err(e) => e,
        Ok(_) => panic!("authorised"),
    };
    assert_eq!(e.status, 403);
    assert_eq!(e.code, 403);
    assert_eq!(e.message, "Signature verification failed");
}

#[test]
fn invalid_signatures_do_not_count() {
    let cw = withdrawal(btc(MAIN_P2PKH), 3, 0);
    assert!(authorize_withdrawal(&cfg(2), &cw, &vec![true, false, false], &vec![]).is_err());
    assert!(authorize_withdrawal(&cfg(2), &cw, &vec![true, false, true], &vec![]).is_ok());
}

#[test]
fn authorised_withdrawal_is_paid_with_request_id_as_comment() {
    let cw = withdrawal(btc(MAIN_P2PKH), 2, 0);
    let order = match authorize_withdrawal(&cfg(2), &cw, &vec![true, true], &vec![]) {
        Ok(o) => o,
        Err(e) => panic!("refused: {}", e.message),
    };
    assert_eq!(order.amount, 25_000);
    assert_eq!(order.comment, "a1a2a3a4-b1b2-c1c2-d1d2-d3d4d5d6d7d8");
    assert_eq!(order.address.to_string(), MAIN_P2PKH);
}

#[test]
fn non_btc_address_is_refused() {
    let cw = withdrawal(CurrencyAddress::ETH(EthAccount { account: "0x1".to_owned() }), 2, 0);
    let e = match authorize_withdrawal(&cfg(1), &cw, &vec![true, true], &vec![]) {
        Err(e) => e,
        Ok(_) => panic!("paid to an ETH account"),
    };
    assert_eq!(e.status, 400);
    assert_eq!(e.code, 500);
    assert_eq!(e.message, "Not BTC??");
}

#[test]
fn unparsable_btc_address_is_refused() {
    let e = match prepare_payment(1, &btc("not an address"), 10) {
        Err(e) => e,
        Ok(_) => panic!("paid to garbage"),
    };
    assert_eq!(e.message, "Not BTC??");
    assert_eq!(e.status, 400);
}

#[test]
fn bech32_address_is_payable() {
    let order = match prepare_payment(0, &btc(MAIN_BECH32), 1) {
        Ok(o) => o,
        Err(e) => panic!("refused: {}", e.message),
    };
    assert_eq!(order.comment, "00000000-0000-0000-0000-000000000000");
    assert_eq!(order.address.to_string(), MAIN_BECH32);
}

#[test]
fn fee_is_absolute() {
    assert_eq!(withdrawal_fee(Some(-1410)), Some(1410));
    assert_eq!(withdrawal_fee(Some(220)), Some(220));
    assert_eq!(withdrawal_fee(None), None);
    assert_eq!(withdrawal_fee(Some(i64::MIN + 1)), Some(i64::MAX as u64));
}

#[test]
fn inputs_are_receiving_entries_with_addresses() {
    let details = vec![
        TxDetail { category: TxCategory::Send, address: Some("s".to_owned()) },
        TxDetail { category: TxCategory::Receive, address: Some("r".to_owned()) },
        TxDetail { category: TxCategory::Generate, address: None },
        TxDetail { category: TxCategory::Immature, address: Some("i".to_owned()) },
        TxDetail { category: TxCategory::Orphan, address: Some("o".to_owned()) },
        TxDetail { category: TxCategory::Generate, address: Some("g".to_owned()) },
    ];
    let got: Vec<String> = input_addresses(&details)
        .into_iter()
        .map(|a| match a {
            CurrencyAddress::BTC(BtcAddress { addr }) => addr,
            _ => panic!("not a BTC address"),
        })
        .collect();
    assert_eq!(got, vec!["r".to_owned(), "i".to_owned(), "g".to_owned()]);
}

fn sample_tx() -> Vec<u8> {
    let p2pkh: bitcoin::Address = MAIN_P2PKH.parse().unwrap();
    let bech32: bitcoin::Address = MAIN_BECH32.parse().unwrap();
    let tx = Transaction {
        version: 2,
        lock_time: 0,
        input: vec![TxIn {
            previous_output: OutPoint::default(),
            script_sig: bitcoin::Script::new(),
            sequence: 0xffff_ffff,
            witness: bitcoin::Witness::default(),
        }],
        output: vec![
            TxOut { value: 1000, script_pubkey: p2pkh.script_pubkey() },
            TxOut { value: 0, script_pubkey: bitcoin::Script::new_op_return(&[1, 2, 3]) },
            TxOut { value: 2000, script_pubkey: bech32.script_pubkey() },
        ],
    };
    bitcoin::consensus::encode::serialize(&tx)
}

fn texts(v: Vec<CurrencyAddress>) -> Vec<String> {
    v.into_iter()
        .map(|a| match a {
            CurrencyAddress::BTC(BtcAddress { addr }) => addr,
            _ => panic!("not a BTC address"),
        })
        .collect()
}

#[test]
fn outputs_are_decoded_addresses() {
    let got = texts(output_addresses(&sample_tx(), Network::Bitcoin).unwrap());
    assert_eq!(got, vec![MAIN_P2PKH.to_owned(), MAIN_BECH32.to_owned()]);
}

#[test]
fn outputs_are_written_for_the_network() {
    let got = texts(output_addresses(&sample_tx(), Network::Regtest).unwrap());
    assert_eq!(got.len(), 2);
    assert!(got[0].starts_with('m') || got[0].starts_with('n'));
    assert!(got[1].starts_with("bcrt1"));
}

#[test]
fn undecodable_transaction_is_an_error() {
    assert!(output_addresses(&[0x01, 0x02], Network::Bitcoin).is_err());
    let e = match withdrawal_response(1, [0u8; 32], None, &vec![], &[0x01], Network::Bitcoin) {
        Err(e) => e,
        Ok(_) => panic!("decoded garbage"),
    };
    assert_eq!(e.status, 500);
    assert_eq!(e.code, 500);
    assert!(e.message.starts_with("Failed to deserialize tx: "));
    assert!(e.message.len() > "Failed to deserialize tx: ".len());
}

#[test]
fn withdrawal_response_collects_everything() {
    let details = vec![TxDetail { category: TxCategory::Receive, address: Some("in".to_owned()) }];
    let resp = withdrawal_response(
        REQUEST_ID,
        [9u8; 32],
        Some(-300),
        &details,
        &sample_tx(),
        Network::Bitcoin,
    )
    .unwrap_or_else(|e| panic!("{}", e.message));
    assert_eq!(resp.id, REQUEST_ID);
    assert_eq!(resp.txid, [9u8; 32]);
    assert_eq!(resp.fee, Some(300));
    assert_eq!(texts(resp.input_addresses), vec!["in".to_owned()]);
    assert_eq!(texts(resp.output_addresses), vec![MAIN_P2PKH.to_owned(), MAIN_BECH32.to_owned()]);
}

#[test]
fn node_failures_are_explained() {
    let e = node_failure(NodeFailure::PostTx, "Rpc(timeout)");
    assert_eq!(e.message, "Failed to post the tx: Rpc(timeout)");
    assert_eq!((e.status, e.code), (500, 500));
    assert_eq!(node_failure(NodeFailure::TxNotFound, "x").message, "Tx not found: x");
    assert_eq!(
        node_failure(NodeFailure::DeserializeTx, "y").message,
        "Failed to deserialize tx: y"
    );
    assert_eq!(node_failure(NodeFailure::Balance, "z").message, "Failed get the balance: z");
}

#[test]
fn fee_estimates() {
    assert_eq!(fee_response(None), FeeResponse { fee_rate: 5, block: None });
    assert_eq!(
        fee_response(Some(FeeEstimate { fee_rate: None, blocks: 2 })),
        FeeResponse { fee_rate: 5, block: None }
    );
    assert_eq!(
        fee_response(Some(FeeEstimate { fee_rate: Some(12_345), blocks: 2 })),
        FeeResponse { fee_rate: 12, block: Some(2) }
    );
}

#[test]
fn hot_balance_answers() {
    assert_eq!(hot_balance(Ok(5_000_000_000)).ok(), Some(HotBalanceResponse { balance: 5_000_000_000 }));
    let e = hot_balance(Err("down".to_owned())).err().unwrap();
    assert_eq!(e.message, "Failed get the balance: down");
    assert_eq!(e.status, 500);
}

#[test]
fn events_are_handed_out_once() {
    let mut state = ScanState { last_block: [3u8; 32], last_height: 101, events: vec![10, 20, 30] };
    let first = take_events(&mut state);
    assert_eq!(first.events, vec![10, 20, 30]);
    assert_eq!(first.height, 101);
    assert_eq!(first.hash, [3u8; 32]);
    let second = take_events(&mut state);
    assert!(second.events.is_empty());
    assert_eq!(second.height, 101);
    assert_eq!(state.last_height, 101);
}

#[test]
fn polls_hand_out_appended_events_once_in_order() {
    let mut state = ScanState { last_block: [0u8; 32], last_height: 0, events: Vec::new() };
    let mut handed: Vec<u32> = Vec::new();
    state.events.extend([1, 2]);
    handed.extend(take_events(&mut state).events);
    handed.extend(take_events(&mut state).events);
    state.events.push(3);
    state.last_height = 7;
    state.events.push(4);
    let third = take_events(&mut state);
    assert_eq!(third.height, 7);
    handed.extend(third.events);
    state.events.push(5);
    handed.extend(take_events(&mut state).events);
    assert_eq!(handed, vec![1, 2, 3, 4, 5]);
}

#[test]
fn under_limit_payment_ignores_signatures() {
    let a = prepare_payment(REQUEST_ID, &btc(MAIN_P2PKH), 25_000).ok().unwrap();
    let cw = withdrawal(btc(MAIN_P2PKH), 2, 0);
    let b = authorize_withdrawal(&cfg(2), &cw, &vec![true, true], &vec![]).ok().unwrap();
    assert_eq!(a.address, b.address);
    assert_eq!(a.amount, b.amount);
    assert_eq!(a.comment, b.comment);
    let parsed: bitcoin::Address = MAIN_P2PKH.parse().unwrap();
    assert_eq!(a.address, parsed);
}

#[test]
fn debug_endpoints_only_on_regtest() {
    assert!(guard_regtest(&"regtest".to_owned()).is_ok());
    assert!(matches!(guard_regtest(&"main".to_owned()), Err(DebugApiError::DebugNotEnabled)));
    assert!(matches!(plan_generate(&"test".to_owned(), Some(3)), Err(DebugApiError::DebugNotEnabled)));
    assert!(matches!(
        plan_send(&"main".to_owned(), MAIN_P2PKH, 5),
        Err(DebugApiError::DebugNotEnabled)
    ));
}

#[test]
fn generate_defaults_to_one_block() {
    assert!(matches!(plan_generate(&"regtest".to_owned(), None), Ok(1)));
    assert!(matches!(plan_generate(&"regtest".to_owned(), Some(101)), Ok(101)));
}

#[test]
fn send_parses_the_address() {
    match plan_send(&"regtest".to_owned(), MAIN_BECH32, 1000) {
        Ok((a, amount)) => {
            assert_eq!(a, MAIN_BECH32.parse::<bitcoin::Address>().unwrap());
            assert_eq!(amount, 1000);
        }
        Err(_) => panic!("refused a valid address"),
    }
    match plan_send(&"regtest".to_owned(), "nonsense", 1000) {
        Err(DebugApiError::AddressParse(t)) => assert!(!t.is_empty()),
        _ => panic!("accepted nonsense"),
    }
}

#[test]
fn secret_key_defaults_to_zero_key() {
    assert_eq!(server_secret_key(Some("abc")), "abc");
    assert_eq!(
        server_secret_key(None),
        "AAAAAAAAAAAAAAAAAAAAAAAAAAAAAAAAAAAAAAAAAAAAAAAAAAAAAAAAAAAAAAAAAAAAAAAAAAAAAAAAAAAAAA=="
    );
}
