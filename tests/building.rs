use erc20_driver::abi::{approve_max_call, faucet_create_call, transfer_call};
use erc20_driver::builder::{
    build_approve_tx, create_dao_entity, make_contract_call_record, make_multi_transfer, make_multi_transfer_record,
    make_transfer, make_transfer_record, multi_transfer_data, sign_faucet_tx, BuildError,
    TransferDetails,
};
use erc20_driver::gas::{PolygonGasPriceMethod, PolygonPriority, GWEI};
use erc20_driver::lifecycle::{GasPolicy, TxStatus, TxType};
use erc20_driver::network::Network;
use erc20_driver::packing::{pack_transfer, u128_word, unpack_transfer, PACKED_AMOUNT_LIMIT};

const STATIC_FAST: GasPolicy = GasPolicy {
    method: PolygonGasPriceMethod::PolygonGasPriceStatic,
    priority: PolygonPriority::PolygonPriorityFast,
};

fn pay(sender: u8, recipient: u8, amount: u128) -> TransferDetails {
    TransferDetails { sender: [sender; 20], recipient: [recipient; 20], amount }
}

#[test]
fn packed_word_round_trip() {
    let mut rcp = [0u8; 20];
    for (i, b) in rcp.iter_mut().enumerate() {
        *b = i as u8 + 1;
    }
    for amount in [0u128, 1, 255, 256, 123_456_789_000_000_000_000, PACKED_AMOUNT_LIMIT - 1] {
        let w = pack_transfer(rcp, amount);
        assert_eq!(&w[..20], &rcp[..]);
        assert_eq!(&w[20..], &amount.to_be_bytes()[4..]);
        assert_eq!(unpack_transfer(w), (rcp, amount));
    }
}

#[test]
fn uint_word_is_big_endian() {
    let w = u128_word(0x0102);
    assert_eq!(w[30], 1);
    assert_eq!(w[31], 2);
    assert!(w[..30].iter().all(|&b| b == 0));
}

#[test]
fn call_data_has_selector_and_words() {
    let d = transfer_call([0xab; 20], 5);
    assert_eq!(d.len(), 68);
    assert_eq!(&d[..4], &[0xa9, 0x05, 0x9c, 0xbb]);
    assert_eq!(&d[16..36], &[0xab; 20]);
    assert_eq!(d[67], 5);
    let a = approve_max_call([0xcd; 20]);
    assert_eq!(&a[..4], &[0x09, 0x5e, 0xa7, 0xb3]);
    assert!(a[36..68].iter().all(|&b| b == 0xff));
    assert_eq!(faucet_create_call(), vec![0xef, 0xc8, 0x1a, 0x8c]);
}

#[test]
fn transfer_gas_limits_and_caps() {
    let d = pay(1, 2, 10);
    let polygon = make_transfer(&d, [9; 20], 3, Network::Polygon, STATIC_FAST, 0, None, None, None, 0);
    assert_eq!(polygon.raw.gas, 100_000);
    assert_eq!(polygon.raw.gas_price, 30_010_000_000);
    assert_eq!(polygon.max_gas_price, Some(40_010_000_000));
    assert_eq!(polygon.raw.to, Some([9; 20]));
    assert_eq!(polygon.raw.value, 0);
    let capped = make_transfer(
        &d,
        [9; 20],
        3,
        Network::Mainnet,
        STATIC_FAST,
        0,
        Some(50 * GWEI),
        Some(40 * GWEI),
        Some(70_000),
        0,
    );
    assert_eq!(capped.raw.gas_price, 40 * GWEI);
    assert_eq!(capped.raw.gas, 70_000);
    let plain = make_transfer(&d, [9; 20], 3, Network::Goerli, STATIC_FAST, 0, None, None, None, 2 * GWEI);
    assert_eq!(plain.raw.gas, 55_000);
    assert_eq!(plain.max_gas_price, None);
    assert_eq!(plain.raw.data, transfer_call([2; 20], 10));
}

#[test]
fn multi_transfer_selects_method_by_parity() {
    let payments = vec![pay(1, 2, 10), pay(1, 3, 20)];
    let (even, sum) = multi_transfer_data(&payments, 4).unwrap();
    let (odd, sum2) = multi_transfer_data(&payments, 5).unwrap();
    assert_eq!(sum, 30);
    assert_eq!(sum2, 30);
    assert_ne!(even[..4], odd[..4]);
    // indirect call carries the extra sum argument
    assert_eq!(odd.len(), even.len() + 32);
    let w = pack_transfer([3; 20], 20);
    assert!(even.windows(32).any(|x| x == w));
    let built = make_multi_transfer([7; 20], even.clone(), sum, 4, Network::Mainnet, STATIC_FAST, 0, None, None, None, GWEI, 60_000);
    assert_eq!(built.raw.gas, 80_000);
    assert_eq!(built.raw.data, even);
    assert_eq!(built.amount, 30);
}

#[test]
fn multi_transfer_rejections() {
    assert_eq!(multi_transfer_data(&vec![], 0), Err(BuildError::NoPayments));
    assert_eq!(
        multi_transfer_data(&vec![pay(1, 2, 1), pay(1, 2, 1), pay(2, 2, 1)], 0),
        Err(BuildError::SendersDiffer(2))
    );
    assert_eq!(
        multi_transfer_data(&vec![pay(1, 2, 1), pay(1, 2, PACKED_AMOUNT_LIMIT)], 0),
        Err(BuildError::AmountTooLarge(1))
    );
}

#[test]
fn approve_and_faucet_pay_one_and_a_half() {
    let a = build_approve_tx([1; 20], [2; 20], 4, 10 * GWEI);
    assert_eq!(a.gas_price, 15 * GWEI);
    assert_eq!(a.gas, 200_000);
    assert_eq!(a.nonce, 4);
    let f = sign_faucet_tx(Some([3; 20]), 9, 3).unwrap();
    assert_eq!(f.gas_price, 4);
    assert_eq!(f.gas, 90_000);
    assert_eq!(sign_faucet_tx(None, 9, 3).unwrap_err(), BuildError::NoFaucet);
}

#[test]
fn new_record_is_created_with_fresh_id() {
    let mut sender = [0u8; 20];
    sender[0] = 0xAB;
    sender[19] = 0x01;
    let r = create_dao_entity(3, sender, 5, Some(9), 55_000, "{}".to_string(), Network::Goerli, 77, TxType::Approve, None);
    let r2 = create_dao_entity(3, sender, 5, Some(9), 55_000, "{}".to_string(), Network::Goerli, 77, TxType::Approve, None);
    assert_eq!(r.tx_id.len(), 36);
    assert_ne!(r.tx_id, r2.tx_id);
    assert_eq!(r.sender, "0xab00000000000000000000000000000000000001");
    assert_eq!(r.status, TxStatus::Created);
    assert_eq!(r.starting_gas_price, Some(5));
    assert_eq!(r.current_gas_price, None);
    assert_eq!(r.time_created, 77);
    assert_eq!(r.resent_times, 0);
}

#[test]
fn records_carry_their_transfer_type() {
    let payments = vec![pay(1, 2, 10), pay(1, 3, 20)];
    let (data, sum) = multi_transfer_data(&payments, 4).unwrap();
    let built = make_multi_transfer([7; 20], data, sum, 4, Network::Mainnet, STATIC_FAST, 0, None, Some(2 * GWEI), None, 3 * GWEI, 60_000);
    let rec = make_multi_transfer_record(&built, [1; 20], "{}".to_string(), Network::Mainnet, 5);
    assert_eq!(rec.tx_type, TxType::MultiTransfer);
    assert_eq!(rec.amount_erc20, Some(30));
    assert_eq!(rec.nonce, 4);
    assert_eq!(rec.status, TxStatus::Created);
    assert_eq!(rec.starting_gas_price, Some(2 * GWEI));
    assert_eq!(rec.max_gas_price, Some(2 * GWEI));
    let single = make_transfer(&pay(1, 2, 10), [9; 20], 3, Network::Goerli, STATIC_FAST, 0, None, None, None, GWEI);
    let rec = make_transfer_record(&single, [1; 20], "{}".to_string(), Network::Goerli, 5);
    assert_eq!(rec.tx_type, TxType::Transfer);
    assert_eq!(rec.amount_erc20, Some(10));
    assert_eq!(rec.gas_limit, Some(55_000));
}

#[test]
fn approval_record_is_priced_at_one_and_a_half() {
    let raw = build_approve_tx([1; 20], [2; 20], 6, 10 * GWEI);
    let rec = make_contract_call_record(&raw, [3; 20], "{}".to_string(), Network::Polygon, 9, TxType::Approve);
    assert_eq!(rec.tx_type, TxType::Approve);
    assert_eq!(rec.starting_gas_price, Some(15 * GWEI));
    assert_eq!(rec.max_gas_price, Some(15 * GWEI));
    assert_eq!(rec.gas_limit, Some(200_000));
    assert_eq!(rec.nonce, 6);
    assert_eq!(rec.amount_erc20, None);
}
