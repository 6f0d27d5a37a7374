use erc20_driver::builder::build_approve_tx;
use erc20_driver::chain::{block_timestamp_secs, get_tx_on_chain_status, is_confirmed, needs_transaction_lookup, ReceiptInfo};
use erc20_driver::text::{address_to_string, hash_to_string};
use erc20_driver::wallet::{
    allowance_sufficient, approval_poll_step, check_fund_allowed, check_init_balances,
    get_max_gas_costs, has_enough_eth_for_gas, topic_to_str_address, verify_tx, ApprovalPoll,
    FundError, GasCostError, InitError, LogEntry, VerifyError,
};
use erc20_driver::network::Network;

fn word(v: u128) -> [u8; 32] {
    let mut w = [0u8; 32];
    w[16..].copy_from_slice(&v.to_be_bytes());
    w
}

#[test]
fn init_with_missing_allowance() {
    assert_eq!(check_init_balances(&word(100), &word(1)), Ok(()));
    let zero = word(0);
    assert!(!allowance_sufficient(&zero));
    let approve = build_approve_tx([1; 20], [2; 20], 0, 1000);
    assert_eq!(approve.gas, 200_000);
    assert_eq!(approve_step(&zero, 40), ApprovalPoll::WaitAgain);
    assert_eq!(approve_step(&[0xff; 32], 50), ApprovalPoll::Approved);
}

fn approve_step(a: &[u8; 32], t: u64) -> ApprovalPoll {
    approval_poll_step(a, t)
}

#[test]
fn allowance_threshold_is_half_max() {
    let mut half = [0xff; 32];
    half[0] = 0x7f;
    assert!(allowance_sufficient(&half));
    let mut below = half;
    below[31] = 0xfe;
    assert!(!allowance_sufficient(&below));
    let mut top = [0u8; 32];
    top[0] = 0x80;
    assert!(allowance_sufficient(&top));
    assert_eq!(approval_poll_step(&below, 501), ApprovalPoll::GaveUp);
    assert_eq!(approval_poll_step(&below, 500), ApprovalPoll::WaitAgain);
}

#[test]
fn init_rejects_empty_balances() {
    assert_eq!(check_init_balances(&word(0), &word(0)), Err(InitError::InsufficientToken));
    assert_eq!(check_init_balances(&word(1), &word(0)), Err(InitError::InsufficientNative));
    let mut big = [0u8; 32];
    big[0] = 1;
    assert_eq!(check_init_balances(&big, &big), Ok(()));
}

#[test]
fn fund_refused_on_mainnet() {
    assert_eq!(check_fund_allowed(Network::Mainnet), Err(FundError::MainnetNotFundable));
    assert_eq!(check_fund_allowed(Network::Rinkeby), Ok(()));
}

#[test]
fn gas_cost_against_balance() {
    let tx = build_approve_tx([1; 20], [2; 20], 0, 10);
    assert_eq!(get_max_gas_costs(&tx), Some(15 * 200_000));
    assert_eq!(has_enough_eth_for_gas(&tx, &word(3_000_000)), Ok((0, 3_000_000)));
    assert_eq!(has_enough_eth_for_gas(&tx, &word(2_999_999)), Err(GasCostError::NotEnoughNative));
    let mut rich = [0u8; 32];
    rich[0] = 1;
    assert_eq!(has_enough_eth_for_gas(&tx, &rich), Ok((0, 3_000_000)));
    // a cost beyond u128: u128::MAX * 4 = 3 * 2^128 + (2^128 - 4)
    let mut huge = tx.clone();
    huge.gas_price = u128::MAX;
    huge.gas = 4;
    assert_eq!(get_max_gas_costs(&huge), None);
    assert_eq!(has_enough_eth_for_gas(&huge, &word(u128::MAX)), Err(GasCostError::NotEnoughNative));
    assert_eq!(has_enough_eth_for_gas(&huge, &rich), Ok((3, u128::MAX - 3)));
    let mut enough = [0u8; 32];
    enough[15] = 3;
    enough[16..].copy_from_slice(&(u128::MAX - 3).to_be_bytes());
    assert_eq!(has_enough_eth_for_gas(&huge, &enough), Ok((3, u128::MAX - 3)));
    enough[31] -= 1;
    assert_eq!(has_enough_eth_for_gas(&huge, &enough), Err(GasCostError::NotEnoughNative));
    let mut max_gas = tx.clone();
    max_gas.gas_price = u128::MAX;
    max_gas.gas = u64::MAX;
    assert_eq!(has_enough_eth_for_gas(&max_gas, &[0xff; 32]), Ok((u64::MAX as u128 - 1, (u128::MAX - u64::MAX as u128) + 1)));
}

#[test]
fn payment_log_is_decoded() {
    let mut t1 = [0u8; 32];
    t1[12..].copy_from_slice(&[0xAA; 20]);
    let mut t2 = [0u8; 32];
    t2[12..].copy_from_slice(&[0x0B; 20]);
    let mut data = vec![0u8; 32];
    data[30] = 0x01;
    data[31] = 0x00;
    let logs = vec![LogEntry { topics: vec![[0u8; 32], t1, t2], data }];
    let p = verify_tx(Some(&logs)).unwrap();
    assert_eq!(p.sender, format!("0x{}", "aa".repeat(20)));
    assert_eq!(p.recipient, format!("0x{}", "0b".repeat(20)));
    assert_eq!(p.amount, "256");
    let big = vec![LogEntry { topics: vec![[0u8; 32], t1, t2], data: vec![0xff; 32] }];
    assert_eq!(
        verify_tx(Some(&big)).unwrap().amount,
        "115792089237316195423570985008687907853269984665640564039457584007913129639935"
    );
}

#[test]
fn payment_log_errors() {
    assert_eq!(verify_tx(None).unwrap_err(), VerifyError::NotFound);
    assert_eq!(verify_tx(Some(&vec![])).unwrap_err(), VerifyError::NoLog);
    let two = vec![LogEntry { topics: vec![[0u8; 32], [1u8; 32]], data: vec![] }];
    assert_eq!(verify_tx(Some(&two)).unwrap_err(), VerifyError::BadTopics);
    let empty_amount = vec![LogEntry { topics: vec![[0u8; 32]; 3], data: vec![] }];
    assert_eq!(verify_tx(Some(&empty_amount)).unwrap().amount, "0");
}

#[test]
fn hex_forms() {
    let mut t = [0u8; 32];
    t[31] = 0xfe;
    assert_eq!(topic_to_str_address(&t), format!("0x{}fe", "00".repeat(19)));
    assert_eq!(address_to_string(&[0x1f; 20]), format!("0x{}", "1f".repeat(20)));
    assert_eq!(hash_to_string(&[0xa0; 32]), format!("0x{}", "a0".repeat(32)));
}

#[test]
fn confirmation_counting() {
    assert!(is_confirmed(10, 3, 12));
    assert!(!is_confirmed(10, 3, 11));
    assert!(is_confirmed(10, 1, 10));
    assert!(is_confirmed(0, 0, 0));
    assert!(is_confirmed(u64::MAX, 1, u64::MAX));
    let mined = ReceiptInfo { block_number: Some(5), status: Some(0), gas_used: Some(9) };
    assert!(needs_transaction_lookup(&Some(mined)));
    assert!(needs_transaction_lookup(&None));
    let unmined = ReceiptInfo { block_number: None, status: None, gas_used: None };
    assert!(!needs_transaction_lookup(&Some(unmined)));
    let st = get_tx_on_chain_status(Some(mined), true, Some(77), 1, 5);
    assert!(st.confirmed && !st.succeeded && st.exists_on_chain && !st.pending);
    assert_eq!(st.gas_price, Some(77));
    assert_eq!(st.gas_used, Some(9));
    let unknown = get_tx_on_chain_status(None, false, None, 1, 5);
    assert!(!unknown.exists_on_chain && !unknown.pending);
}

#[test]
fn block_timestamps() {
    assert_eq!(block_timestamp_secs(1_600_000_000), Some(1_600_000_000));
    assert_eq!(block_timestamp_secs(u64::MAX), None);
}
