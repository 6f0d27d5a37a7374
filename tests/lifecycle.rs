use erc20_driver::builder::{create_dao_entity, make_transfer, RawTransaction, TransferDetails};
use erc20_driver::chain::{get_tx_on_chain_status, ReceiptInfo};
use erc20_driver::gas::{PolygonGasPriceMethod, PolygonPriority, GWEI};
use erc20_driver::lifecycle::{
    classify_send_error, send_order, GasPolicy, SendErrorKind, SendPass, TransactionRecord,
    TxStatus, TxType,
};
use erc20_driver::network::Network;
use erc20_driver::nonce::{get_next_nonce, get_next_nonce_info};

const DYNAMIC: GasPolicy = GasPolicy {
    method: PolygonGasPriceMethod::PolygonGasPriceDynamic,
    priority: PolygonPriority::PolygonPrioritySlow,
};

fn record(nonce: u64, starting: u128, max: Option<u128>) -> TransactionRecord {
    create_dao_entity(
        nonce,
        [0x11; 20],
        starting,
        max,
        55_000,
        "{}".to_string(),
        Network::Polygon,
        1_000,
        TxType::Transfer,
        Some(10),
    )
}

fn sent_record(nonce: u64, price: u128, hash: &str) -> TransactionRecord {
    let mut r = record(nonce, price, None);
    assert!(r.prepare_send("{}".to_string(), "aa".to_string(), price, 1_001));
    r.record_sent(hash, 1_002);
    r
}

#[test]
fn single_transfer_happy_path() {
    let info = get_next_nonce_info(7, 6, None);
    let nonce = get_next_nonce(&info);
    assert_eq!(nonce, 7);
    let details = TransferDetails {
        sender: [0x11; 20],
        recipient: [0x22; 20],
        amount: 10_000_000_000_000_000_000,
    };
    let built = make_transfer(
        &details,
        [0x33; 20],
        nonce,
        Network::Mainnet,
        DYNAMIC,
        1000 * GWEI,
        None,
        None,
        None,
        5 * GWEI,
    );
    assert_eq!(built.raw.nonce, 7);
    assert_eq!(built.raw.gas, 55_000);
    assert_eq!(built.raw.gas_price, 5 * GWEI + 1000);
    let mut rec = create_dao_entity(
        nonce,
        details.sender,
        built.raw.gas_price,
        built.max_gas_price,
        built.raw.gas,
        "{}".to_string(),
        Network::Mainnet,
        100,
        TxType::Transfer,
        Some(built.amount),
    );
    assert_eq!(rec.status, TxStatus::Created);
    let price = rec.effective_gas_price(4 * GWEI, DYNAMIC).unwrap();
    assert_eq!(price, 5 * GWEI + 1000);
    assert!(rec.prepare_send("{}".to_string(), "sig".to_string(), price, 101));
    rec.record_sent("0xh1", 102);
    assert_eq!(rec.status, TxStatus::Sent);
    assert_eq!(rec.tmp_onchain_txs.as_deref(), Some("0xh1"));

    // Confirmed once block + required - 1 <= current: the inclusion block
    // is the first of the three confirmations, so block 102 is the third.
    let receipt = ReceiptInfo { block_number: Some(100), status: Some(1), gas_used: Some(51_000) };
    let early = get_tx_on_chain_status(Some(receipt), true, Some(price), 3, 101);
    assert!(!early.confirmed);
    rec.reconcile("0xh1", &early, 103);
    assert_eq!(rec.status, TxStatus::Sent);
    let late = get_tx_on_chain_status(Some(receipt), true, Some(price), 3, 102);
    assert!(late.confirmed);
    rec.reconcile("0xh1", &late, 104);
    assert_eq!(rec.status, TxStatus::Confirmed);
    assert_eq!(rec.final_tx.as_deref(), Some("0xh1"));
    assert_eq!(rec.final_gas_used, Some(51_000));
}

#[test]
fn gas_bump_on_stall_static_ladder() {
    let policy = GasPolicy {
        method: PolygonGasPriceMethod::PolygonGasPriceStatic,
        priority: PolygonPriority::PolygonPriorityFast,
    };
    let mut rec = record(8, 10 * GWEI, Some(40 * GWEI));
    assert!(rec.prepare_send("{}".to_string(), "s1".to_string(), 30_010_000_000, 1));
    rec.record_sent("H1", 2);
    rec.request_bump(3);
    assert_eq!(rec.status, TxStatus::ResendAndBumpGas);
    let price = rec.effective_gas_price(0, policy).unwrap();
    assert_eq!(price, 40_010_000_000);
    assert!(rec.prepare_send("{}".to_string(), "s2".to_string(), price, 4));
    rec.record_sent("H2", 5);
    assert_eq!(rec.tmp_onchain_txs.as_deref(), Some("H1;H2"));
    assert_eq!(rec.current_gas_price, Some(40_010_000_000));
}

#[test]
fn already_known_forces_bump() {
    let mut rec = sent_record(9, 20 * GWEI, "H1");
    rec.record_send_error("already known", 10);
    assert_eq!(rec.status, TxStatus::ResendAndBumpGas);
    let price = rec.effective_gas_price(0, DYNAMIC).unwrap();
    assert_eq!(price, 22_200_000_000);
    assert!(price >= 22 * GWEI);
}

#[test]
fn nonce_too_low_with_prior_hash() {
    let mut rec = sent_record(5, 20 * GWEI, "H1");
    rec.resent_times = 2;
    rec.record_send_error("nonce too low", 10);
    assert_eq!(rec.status, TxStatus::ErrorSent);
    assert_eq!(rec.resent_times, 3);
    assert_eq!(rec.last_error_msg.as_deref(), Some("nonce too low"));
    let receipt = ReceiptInfo { block_number: Some(50), status: Some(1), gas_used: Some(40_000) };
    let st = get_tx_on_chain_status(Some(receipt), true, None, 1, 50);
    rec.reconcile("H1", &st, 11);
    assert_eq!(rec.status, TxStatus::Confirmed);
    assert_eq!(rec.final_tx.as_deref(), Some("H1"));
}

#[test]
fn nonce_too_low_without_history_is_terminal() {
    let mut rec = record(5, 20 * GWEI, None);
    rec.record_send_error("err: nonce too low", 10);
    assert_eq!(rec.status, TxStatus::NonceTooLow);
    let mut spent = sent_record(6, 20 * GWEI, "H1");
    spent.resent_times = 5;
    spent.record_send_error("nonce too low", 10);
    assert_eq!(spent.status, TxStatus::NonceTooLow);
}

#[test]
fn other_send_error_counts_a_resend() {
    let mut rec = sent_record(3, GWEI, "H1");
    rec.record_send_error("connection reset", 7);
    assert_eq!(rec.status, TxStatus::ErrorSent);
    assert_eq!(rec.resent_times, 1);
    assert_eq!(rec.last_error_msg.as_deref(), Some("connection reset"));
}

#[test]
fn batch_send_monotonicity() {
    let recs = vec![
        record(6, 30 * GWEI, None),
        record(4, 25 * GWEI, None),
        record(5, 22 * GWEI, None),
    ];
    let order = send_order(&recs);
    let nonces: Vec<u64> = order.iter().map(|&i| recs[i].nonce).collect();
    assert_eq!(nonces, vec![4, 5, 6]);
    let mut pass = SendPass::new();
    let mut sent = Vec::new();
    for &i in &order {
        let price = recs[i].effective_gas_price(0, DYNAMIC).unwrap();
        if pass.allows(price) {
            sent.push(recs[i].nonce);
        }
    }
    assert_eq!(sent, vec![4, 6]);
    assert_eq!(pass.current_max_gas_price, 30 * GWEI);
}

#[test]
fn send_order_keeps_equal_nonces_in_place() {
    let recs = vec![record(2, 1, None), record(1, 1, None), record(2, 2, None)];
    assert_eq!(send_order(&recs), vec![1, 0, 2]);
    assert!(send_order(&Vec::new()).is_empty());
}

#[test]
fn terminal_records_take_no_transition() {
    let mut rec = sent_record(1, GWEI, "H1");
    let receipt = ReceiptInfo { block_number: Some(1), status: Some(0), gas_used: Some(1) };
    rec.reconcile("H1", &get_tx_on_chain_status(Some(receipt), true, None, 1, 1), 5);
    assert_eq!(rec.status, TxStatus::Failed);
    let before = format!("{:?}", rec);
    rec.request_bump(6);
    rec.record_send_error("already known", 7);
    rec.record_sent("H2", 8);
    rec.mark_encoding_corrupt(9);
    assert!(!rec.prepare_send("x".to_string(), "y".to_string(), 10 * GWEI, 10));
    assert_eq!(format!("{:?}", rec), before);
}

#[test]
fn reconcile_twice_is_a_no_op() {
    let mut rec = sent_record(1, GWEI, "H1");
    let receipt = ReceiptInfo { block_number: Some(10), status: Some(1), gas_used: Some(7) };
    let st = get_tx_on_chain_status(Some(receipt), true, None, 2, 11);
    rec.reconcile("H1", &st, 20);
    let once = format!("{:?}", rec);
    rec.reconcile("H1", &st, 30);
    assert_eq!(format!("{:?}", rec), once);
}

#[test]
fn history_only_grows_and_price_never_drops() {
    let mut rec = sent_record(1, 10 * GWEI, "H1");
    assert!(!rec.prepare_send("{}".to_string(), "s".to_string(), 9 * GWEI, 3));
    assert_eq!(rec.current_gas_price, Some(10 * GWEI));
    rec.request_bump(4);
    let p = rec.effective_gas_price(0, DYNAMIC).unwrap();
    assert!(p >= 11_100_000_000);
    assert!(rec.prepare_send("{}".to_string(), "s".to_string(), p, 5));
    rec.record_sent("H2", 6);
    rec.record_send_error("boom", 7);
    rec.request_bump(8);
    let h = rec.tmp_onchain_txs.clone().unwrap();
    assert!(h.starts_with("H1"));
    assert_eq!(h, "H1;H2");
    assert_eq!(rec.current_gas_price, Some(p));
}

#[test]
fn corrupt_encoding_fails_for_good() {
    let mut rec = record(1, GWEI, None);
    rec.mark_encoding_corrupt(2);
    assert_eq!(rec.status, TxStatus::Failed);
    assert_eq!(rec.last_error_msg.as_deref(), Some("Json parse failed, unrecoverable error"));
}

#[test]
fn pending_hash_moves_sent_to_pending() {
    let mut rec = sent_record(1, GWEI, "H1");
    let st = get_tx_on_chain_status(None, true, None, 3, 10);
    assert!(st.pending && st.exists_on_chain);
    rec.reconcile("H1", &st, 3);
    assert_eq!(rec.status, TxStatus::Pending);
}

#[test]
fn first_send_price_rules() {
    let capped = record(1, 10 * GWEI, Some(15 * GWEI));
    assert!(capped.needs_network_price());
    assert_eq!(capped.effective_gas_price(20 * GWEI, DYNAMIC), Ok(15 * GWEI));
    assert_eq!(capped.effective_gas_price(5 * GWEI, DYNAMIC), Ok(10 * GWEI));
    let mut none = record(1, 0, None);
    none.starting_gas_price = None;
    assert!(!none.needs_network_price());
    assert_eq!(none.effective_gas_price(5 * GWEI, DYNAMIC), Ok(10_010_000_000));
}

#[test]
fn send_errors_are_classified_by_phrase() {
    assert_eq!(classify_send_error("Error: nonce too low"), SendErrorKind::NonceTooLow);
    assert_eq!(classify_send_error("already known"), SendErrorKind::AlreadyKnown);
    assert_eq!(classify_send_error("Nonce Too Low"), SendErrorKind::Other);
    assert_eq!(classify_send_error(""), SendErrorKind::Other);
}

#[test]
fn plan_send_sets_price_and_guards_the_batch() {
    let raw = RawTransaction { nonce: 4, to: Some([1; 20]), value: 0, gas_price: 1, gas: 55_000, data: vec![1, 2] };
    let mut pass = SendPass::new();
    let first = record(4, 25 * GWEI, None);
    let t = first.plan_send(raw.clone(), 0, DYNAMIC, &mut pass).unwrap().unwrap();
    assert_eq!(t.gas_price, 25 * GWEI);
    assert_eq!(t.data, vec![1, 2]);
    assert_eq!(t.nonce, 4);
    let lower = record(5, 22 * GWEI, None);
    assert!(lower.plan_send(raw.clone(), 0, DYNAMIC, &mut pass).unwrap().is_none());
    assert_eq!(pass.current_max_gas_price, 25 * GWEI);
    let mut stalled = sent_record(6, u128::MAX, "H");
    stalled.request_bump(1);
    assert!(stalled.plan_send(raw, 0, DYNAMIC, &mut pass).is_err());
}

#[test]
fn prepared_price_is_the_broadcast_price() {
    let mut rec = record(1, GWEI, None);
    let mut pass = SendPass::new();
    let raw = RawTransaction { nonce: 1, to: None, value: 0, gas_price: 0, gas: 1, data: vec![] };
    let t = rec.plan_send(raw, 3 * GWEI, DYNAMIC, &mut pass).unwrap().unwrap();
    assert!(rec.prepare_send("enc".to_string(), "sig".to_string(), t.gas_price, 2));
    rec.record_sent("H1", 3);
    assert_eq!(rec.current_gas_price, Some(t.gas_price));
    assert_eq!(rec.current_gas_price, Some(3 * GWEI));
    assert_eq!(rec.encoded, "enc");
}

#[test]
fn empty_history_takes_the_hash_alone() {
    let mut rec = record(2, GWEI, None);
    rec.tmp_onchain_txs = Some(String::new());
    assert!(rec.prepare_send("{}".to_string(), "s".to_string(), GWEI, 1));
    rec.record_sent("0xabc", 2);
    assert_eq!(rec.tmp_onchain_txs.as_deref(), Some("0xabc"));
    rec.record_sent("0xdef", 3);
    assert_eq!(rec.tmp_onchain_txs.as_deref(), Some("0xabc;0xdef"));
}

#[test]
fn reconcile_ignores_hashes_outside_the_history() {
    let mut rec = sent_record(1, GWEI, "0xaa");
    rec.record_sent("0xbb", 3);
    assert!(rec.history_has_entry("0xaa"));
    assert!(rec.history_has_entry("0xbb"));
    assert!(!rec.history_has_entry("0xa"));
    assert!(!rec.history_has_entry("0xaa;0xbb"));
    assert!(!rec.history_has_entry(""));
    let receipt = ReceiptInfo { block_number: Some(1), status: Some(1), gas_used: Some(5) };
    let st = get_tx_on_chain_status(Some(receipt), true, None, 1, 9);
    let before = format!("{:?}", rec);
    rec.reconcile("0xcc", &st, 10);
    assert_eq!(format!("{:?}", rec), before);
    rec.reconcile("0xbb", &st, 11);
    assert_eq!(rec.status, TxStatus::Confirmed);
    assert_eq!(rec.final_tx.as_deref(), Some("0xbb"));
}

#[test]
fn plan_send_skips_settled_records_without_moving_the_mark() {
    let mut rec = sent_record(1, 50 * GWEI, "H1");
    let receipt = ReceiptInfo { block_number: Some(1), status: Some(1), gas_used: Some(5) };
    rec.reconcile("H1", &get_tx_on_chain_status(Some(receipt), true, None, 1, 1), 2);
    assert_eq!(rec.status, TxStatus::Confirmed);
    let raw = RawTransaction { nonce: 1, to: None, value: 0, gas_price: 0, gas: 1, data: vec![] };
    let mut pass = SendPass::new();
    assert_eq!(rec.plan_send(raw.clone(), 0, DYNAMIC, &mut pass).map(|o| o.is_none()), Ok(true));
    assert_eq!(pass.current_max_gas_price, 0);
    let next = record(2, 10 * GWEI, None);
    assert!(next.plan_send(raw, 0, DYNAMIC, &mut pass).unwrap().is_some());
}
