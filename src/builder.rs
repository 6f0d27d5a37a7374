//! Building raw transactions and the records that carry them.

use vstd::prelude::*;
use crate::abi::{
    approve_max_call, call_data, faucet_create_call, transfer_call, transfer_direct_packed_call,
    transfer_indirect_packed_call, transfer_params, uint256_max, AbiParam, AbiValue,
};
use crate::gas::{
    boosted_gas_price, get_polygon_maximum_price, get_polygon_starting_price, ladder,
    network_gas_price, network_price_spec, PolygonGasPriceMethod, MAX_GAS_PRICE,
};
use crate::lifecycle::{GasPolicy, TransactionRecord, TxStatus, TxType};
use crate::network::Network;
use crate::packing::{
    be_value, lemma_packed_word_round_trip, pack_transfer, packed_word, PACKED_AMOUNT_LIMIT,
};
use crate::text::{address_to_string, prefixed_hex};

verus! {

pub const GLM_TRANSFER_GAS: u64 = 55_000;
pub const GLM_POLYGON_GAS_LIMIT: u64 = 100_000;
pub const GLM_APPROVE_GAS: u64 = 200_000;
pub const GLM_FAUCET_GAS: u64 = 90_000;
/// Added to the node's gas estimate of a multi-transfer.
pub const CONTRACT_EXTRA_OVER_ESTIMATION: u64 = 20_000;

/// A legacy Ethereum transaction before signing.
#[derive(Clone, Debug)]
pub struct RawTransaction {
    pub nonce: u64,
    pub to: Option<[u8; 20]>,
    /// Native currency sent along, in wei.
    pub value: u128,
    /// Price per gas unit, in wei.
    pub gas_price: u128,
    /// Gas limit.
    pub gas: u64,
    /// Call data.
    pub data: Vec<u8>,
}

/// One payment: who pays whom how much (token base units).
#[derive(Clone, Copy, Debug)]
pub struct TransferDetails {
    pub sender: [u8; 20],
    pub recipient: [u8; 20],
    pub amount: u128,
}

/// Why a transaction cannot be built.
#[derive(Clone, Copy, Debug, PartialEq, Eq, Structural)]
pub enum BuildError {
    /// A multi-transfer needs at least one payment.
    NoPayments,
    /// Every payment of a multi-transfer must have the first one's sender;
    /// the index of the first that does not.
    SendersDiffer(usize),
    /// A multi-transfer amount must fit in 96 bits; the index of the
    /// first that does not.
    AmountTooLarge(usize),
    /// The amounts of a multi-transfer add up to more than `u128` holds.
    AmountSumOverflow,
    /// The network has no faucet contract.
    NoFaucet,
}

/// A transaction built for a payment, with the prices its record carries.
#[derive(Clone, Debug)]
pub struct BuiltTransaction {
    pub raw: RawTransaction,
    pub max_gas_price: Option<u128>,
    /// Token amount moved, in base units.
    pub amount: u128,
}

/// The gas price of a first build: the override, else the node's quote
/// adjusted for the network.
pub open spec fn initial_price_spec(price_override: Option<u128>, node_price: u128, network: Network) -> u128 {
    match price_override {
        Some(p) => p,
        None => network_price_spec(node_price as nat, network) as u128,
    }
}

pub fn initial_gas_price(price_override: Option<u128>, node_price: u128, network: Network) -> (r: u128)
    requires
        node_price <= MAX_GAS_PRICE,
    ensures
        r == initial_price_spec(price_override, node_price, network),
{
    match price_override {
        Some(p) => p,
        None => network_gas_price(node_price, network),
    }
}

pub open spec fn transfer_gas_limit(network: Network, limit_override: Option<u32>) -> u64 {
    match limit_override {
        Some(g) => g as u64,
        None => if network == Network::Polygon {
            GLM_POLYGON_GAS_LIMIT
        } else {
            GLM_TRANSFER_GAS
        },
    }
}

/// A token `transfer` to `recipient`, sent to the token contract.
pub fn prepare_erc20_transfer(
    token_contract: [u8; 20],
    recipient: [u8; 20],
    amount: u128,
    network: Network,
    nonce: u64,
    gas_price_override: Option<u128>,
    node_price: u128,
    gas_limit_override: Option<u32>,
) -> (r: RawTransaction)
    requires
        node_price <= MAX_GAS_PRICE,
    ensures
        r.nonce == nonce,
        r.to == Some(token_contract),
        r.value == 0,
        r.gas_price == initial_price_spec(gas_price_override, node_price, network),
        r.gas == transfer_gas_limit(network, gas_limit_override),
        r.data@ == call_data(
            "transfer"@,
            transfer_params(),
            seq![AbiValue::Address(recipient@), AbiValue::Uint(amount as nat)],
        ),
{
    let data = transfer_call(recipient, amount);
    let gas_price = initial_gas_price(gas_price_override, node_price, network);
    let gas: u64 = match gas_limit_override {
        Some(g) => g as u64,
        None => if network == Network::Polygon {
            GLM_POLYGON_GAS_LIMIT
        } else {
            GLM_TRANSFER_GAS
        },
    };
    RawTransaction { nonce, to: Some(token_contract), value: 0, gas_price, gas, data }
}

/// The starting and maximum price of a payment: the caller's, and on
/// Polygon the tier's starting price and the policy's ceiling where the
/// caller gave none.
pub open spec fn gas_settings_spec(
    network: Network,
    policy: GasPolicy,
    dynamic_max: u128,
    gas_price: Option<u128>,
    max_gas_price: Option<u128>,
) -> (Option<u128>, Option<u128>) {
    if network == Network::Polygon {
        (
            Some(
                match gas_price {
                    Some(v) => v,
                    None => ladder(policy.priority)[1],
                },
            ),
            Some(
                match max_gas_price {
                    Some(v) => v,
                    None => match policy.method {
                        PolygonGasPriceMethod::PolygonGasPriceStatic => ladder(policy.priority).last(),
                        PolygonGasPriceMethod::PolygonGasPriceDynamic => dynamic_max,
                    },
                },
            ),
        )
    } else {
        (gas_price, max_gas_price)
    }
}

pub fn gas_settings(
    network: Network,
    policy: GasPolicy,
    dynamic_max: u128,
    gas_price: Option<u128>,
    max_gas_price: Option<u128>,
) -> (r: (Option<u128>, Option<u128>))
    ensures
        r == gas_settings_spec(network, policy, dynamic_max, gas_price, max_gas_price),
{
    if network == Network::Polygon {
        let gp = match gas_price {
            Some(v) => v,
            None => get_polygon_starting_price(policy.priority),
        };
        let mp = match max_gas_price {
            Some(v) => v,
            None => get_polygon_maximum_price(policy.method, policy.priority, dynamic_max),
        };
        (Some(gp), Some(mp))
    } else {
        (gas_price, max_gas_price)
    }
}

/// `price`, lowered to `max` when that is set and lower.
pub open spec fn capped(price: u128, max: Option<u128>) -> u128 {
    match max {
        Some(m) => if price > m {
            m
        } else {
            price
        },
        None => price,
    }
}

pub fn cap_gas_price(price: u128, max: Option<u128>) -> (r: u128)
    ensures
        r == capped(price, max),
        r <= price,
{
    match max {
        Some(m) => if price > m {
            m
        } else {
            price
        },
        None => price,
    }
}

/// Builds a single token transfer: prices per the network's policy, the
/// transaction capped at the maximum price.
pub fn make_transfer(
    details: &TransferDetails,
    token_contract: [u8; 20],
    nonce: u64,
    network: Network,
    policy: GasPolicy,
    dynamic_max: u128,
    gas_price: Option<u128>,
    max_gas_price: Option<u128>,
    gas_limit: Option<u32>,
    node_price: u128,
) -> (r: BuiltTransaction)
    requires
        node_price <= MAX_GAS_PRICE,
    ensures
        ({
            let (gp, mp) = gas_settings_spec(network, policy, dynamic_max, gas_price, max_gas_price);
            &&& r.max_gas_price == mp
            &&& r.raw.gas_price == capped(initial_price_spec(gp, node_price, network), mp)
        }),
        r.amount == details.amount,
        r.raw.nonce == nonce,
        r.raw.to == Some(token_contract),
        r.raw.value == 0,
        r.raw.gas == transfer_gas_limit(network, gas_limit),
        r.raw.data@ == call_data(
            "transfer"@,
            transfer_params(),
            seq![AbiValue::Address(details.recipient@), AbiValue::Uint(details.amount as nat)],
        ),
{
    let (gp, mp) = gas_settings(network, policy, dynamic_max, gas_price, max_gas_price);
    let mut raw = prepare_erc20_transfer(
        token_contract,
        details.recipient,
        details.amount,
        network,
        nonce,
        gp,
        node_price,
        gas_limit,
    );
    raw.gas_price = cap_gas_price(raw.gas_price, mp);
    BuiltTransaction { raw, max_gas_price: mp, amount: details.amount }
}

/// The sum of the amounts of a list of payments.
pub open spec fn sum_amounts(s: Seq<TransferDetails>) -> nat
    decreases s.len(),
{
    if s.len() == 0 {
        0
    } else {
        (sum_amounts(s.drop_last()) + s.last().amount) as nat
    }
}

/// The packed words of a list of payments, in order.
pub open spec fn packed_words(s: Seq<TransferDetails>) -> Seq<Seq<u8>> {
    s.map_values(|d: TransferDetails| packed_word(d.recipient@, d.amount as nat))
}

/// Whether a multi-transfer with this nonce uses the direct contract
/// method: even nonces go direct, odd ones indirect, so that both contract
/// paths are exercised. This is not a performance choice.
pub open spec fn uses_direct_method(nonce: u64) -> bool {
    nonce % 2 == 0
}

/// The call data of a multi-transfer of these payments at this nonce.
pub open spec fn multi_transfer_data_spec(details: Seq<TransferDetails>, nonce: u64) -> Seq<u8> {
    if uses_direct_method(nonce) {
        call_data(
            "golemTransferDirectPacked"@,
            seq![AbiParam::Bytes32Array],
            seq![AbiValue::Bytes32Array(packed_words(details))],
        )
    } else {
        call_data(
            "golemTransferIndirectPacked"@,
            seq![AbiParam::Bytes32Array, AbiParam::Uint256],
            seq![AbiValue::Bytes32Array(packed_words(details)), AbiValue::Uint(sum_amounts(details))],
        )
    }
}

/// The checks a multi-transfer's payments must pass, first failure first.
pub open spec fn multi_transfer_check(details: Seq<TransferDetails>) -> Option<BuildError> {
    if details.len() == 0 {
        Some(BuildError::NoPayments)
    } else if exists|i: int| 0 <= i < details.len() && (#[trigger] details[i]).sender@ != details[0].sender@ {
        let i = choose|i: int|
            0 <= i < details.len() && (#[trigger] details[i]).sender@ != details[0].sender@ && forall|j: int|
                0 <= j < i ==> (#[trigger] details[j]).sender@ == details[0].sender@;
        Some(BuildError::SendersDiffer(i as usize))
    } else if exists|i: int| 0 <= i < details.len() && (#[trigger] details[i]).amount >= PACKED_AMOUNT_LIMIT {
        let i = choose|i: int|
            0 <= i < details.len() && (#[trigger] details[i]).amount >= PACKED_AMOUNT_LIMIT && forall|j: int|
                0 <= j < i ==> (#[trigger] details[j]).amount < PACKED_AMOUNT_LIMIT;
        Some(BuildError::AmountTooLarge(i as usize))
    } else if sum_amounts(details) > u128::MAX {
        Some(BuildError::AmountSumOverflow)
    } else {
        None
    }
}

proof fn lemma_sum_prefix_monotone(s: Seq<TransferDetails>, i: int)
    requires
        0 <= i <= s.len(),
    ensures
        sum_amounts(s.subrange(0, i)) <= sum_amounts(s),
    decreases s.len() - i,
{
    if i < s.len() {
        lemma_sum_prefix_monotone(s, i + 1);
        assert(s.subrange(0, i + 1).drop_last() =~= s.subrange(0, i));
    } else {
        assert(s.subrange(0, i) =~= s);
    }
}

/// Whether two addresses are the same.
pub fn same_address(a: &[u8; 20], b: &[u8; 20]) -> (r: bool)
    ensures
        r == (a@ == b@),
{
    let mut i: usize = 0;
    while i < 20
        invariant
            0 <= i <= 20,
            a@.len() == 20,
            b@.len() == 20,
            forall|j: int| 0 <= j < i ==> a@[j] == b@[j],
        decreases 20 - i,
    {
        if a[i] != b[i] {
            return false;
        }
        i = i + 1;
    }
    assert(a@ =~= b@);
    true
}

/// Checks the payments of a multi-transfer, then packs them and encodes the
/// contract call the nonce's parity selects. Returns the call data and the
/// total amount.
pub fn multi_transfer_data(details: &Vec<TransferDetails>, nonce: u64) -> (r: Result<
    (Vec<u8>, u128),
    BuildError,
>)
    ensures
        r is Err <==> multi_transfer_check(details@) is Some,
        r is Err ==> r->Err_0 == multi_transfer_check(details@)->Some_0,
        r is Ok ==> r->Ok_0.0@ == multi_transfer_data_spec(details@, nonce),
        r is Ok ==> r->Ok_0.1 as nat == sum_amounts(details@),
{
    if details.len() == 0 {
        return Err(BuildError::NoPayments);
    }
    let first = details[0].sender;
    let mut i: usize = 0;
    while i < details.len()
        invariant
            0 <= i <= details.len(),
            details@.len() > 0,
            first@ == details@[0].sender@,
            forall|j: int| 0 <= j < i ==> (#[trigger] details@[j]).sender@ == first@,
        decreases details.len() - i,
    {
        if !same_address(&details[i].sender, &first) {
            assert(exists|k: int| 0 <= k < details@.len() && (#[trigger] details@[k]).sender@ != details@[0].sender@);
            return Err(BuildError::SendersDiffer(i));
        }
        i = i + 1;
    }
    let mut k: usize = 0;
    while k < details.len()
        invariant
            0 <= k <= details.len(),
            forall|j: int| 0 <= j < details@.len() ==> (#[trigger] details@[j]).sender@ == details@[0].sender@,
            forall|j: int| 0 <= j < k ==> (#[trigger] details@[j]).amount < PACKED_AMOUNT_LIMIT,
        decreases details.len() - k,
    {
        if details[k].amount >= PACKED_AMOUNT_LIMIT {
            assert(exists|m: int| 0 <= m < details@.len() && (#[trigger] details@[m]).amount >= PACKED_AMOUNT_LIMIT);
            return Err(BuildError::AmountTooLarge(k));
        }
        k = k + 1;
    }
    let mut words: Vec<[u8; 32]> = Vec::new();
    let mut sum: u128 = 0;
    let mut n: usize = 0;
    while n < details.len()
        invariant
            0 <= n <= details.len(),
            forall|j: int| 0 <= j < details@.len() ==> (#[trigger] details@[j]).sender@ == details@[0].sender@,
            forall|j: int| 0 <= j < details@.len() ==> (#[trigger] details@[j]).amount < PACKED_AMOUNT_LIMIT,
            sum as nat == sum_amounts(details@.subrange(0, n as int)),
            words@.len() == n,
            words@.map_values(|w: [u8; 32]| w@) == packed_words(details@.subrange(0, n as int)),
        decreases details.len() - n,
    {
        let ghost pre = details@.subrange(0, n as int + 1);
        assert(pre.drop_last() =~= details@.subrange(0, n as int));
        let d = details[n];
        if sum > u128::MAX - d.amount {
            proof {
                lemma_sum_prefix_monotone(details@, n as int + 1);
            }
            return Err(BuildError::AmountSumOverflow);
        }
        sum = sum + d.amount;
        let w = pack_transfer(d.recipient, d.amount);
        let ghost before = words@;
        words.push(w);
        proof {
            let lhs = words@.map_values(|w: [u8; 32]| w@);
            let rhs = packed_words(details@.subrange(0, n as int + 1));
            let prev = packed_words(details@.subrange(0, n as int));
            assert(before.map_values(|w: [u8; 32]| w@) == prev);
            assert(lhs.len() == rhs.len());
            assert forall|j: int| 0 <= j < lhs.len() implies lhs[j] == rhs[j] by {
                if j < n {
                    assert(words@[j] == before[j]);
                    assert(prev[j] == before.map_values(|w: [u8; 32]| w@)[j]);
                    assert(details@.subrange(0, n as int + 1)[j] == details@.subrange(0, n as int)[j]);
                } else {
                    assert(words@[j] == w);
                    assert(details@.subrange(0, n as int + 1)[j] == d);
                }
            }
            assert(lhs =~= rhs);
        }
        n = n + 1;
    }
    assert(details@.subrange(0, details@.len() as int) =~= details@);
    let data = if nonce % 2 == 0 {
        transfer_direct_packed_call(words)
    } else {
        transfer_indirect_packed_call(words, sum)
    };
    Ok((data, sum))
}

/// Every payment of a multi-transfer that passes its checks can be read
/// back from its packed word: the recipient from the first 20 bytes, the
/// amount from the last 12.
pub proof fn lemma_multi_transfer_words_round_trip(details: Seq<TransferDetails>)
    requires
        multi_transfer_check(details) is None,
    ensures
        packed_words(details).len() == details.len(),
        forall|i: int|
            0 <= i < details.len() ==> (#[trigger] packed_words(details)[i]).subrange(0, 20)
                == details[i].recipient@ && be_value(packed_words(details)[i].subrange(20, 32))
                == details[i].amount as nat,
{
    assert forall|i: int| 0 <= i < details.len() implies (#[trigger] packed_words(
        details,
    )[i]).subrange(0, 20) == details[i].recipient@ && be_value(
        packed_words(details)[i].subrange(20, 32),
    ) == details[i].amount as nat by {
        if details[i].amount >= PACKED_AMOUNT_LIMIT {
            assert(exists|k: int|
                0 <= k < details.len() && (#[trigger] details[k]).amount >= PACKED_AMOUNT_LIMIT);
        }
        lemma_packed_word_round_trip(details[i].recipient@, details[i].amount as nat);
    }
}

/// The record of an approval or faucet call: its price is both the
/// starting and the maximum price, and it moves no token.
pub fn make_contract_call_record(
    raw: &RawTransaction,
    sender: [u8; 20],
    encoded: String,
    network: Network,
    now: i64,
    tx_type: TxType,
) -> (r: TransactionRecord)
    ensures
        fresh_record(
            r,
            raw.nonce,
            sender,
            raw.gas_price,
            Some(raw.gas_price),
            raw.gas,
            encoded,
            network,
            now,
            tx_type,
            None,
        ),
{
    create_dao_entity(
        raw.nonce,
        sender,
        raw.gas_price,
        Some(raw.gas_price),
        raw.gas,
        encoded,
        network,
        now,
        tx_type,
        None,
    )
}

/// A multi-transfer sent to the multi-transfer contract: the gas limit is
/// the override, else the node's estimate plus a safety margin.
pub fn prepare_erc20_multi_transfer(
    multi_contract: [u8; 20],
    data: Vec<u8>,
    network: Network,
    nonce: u64,
    gas_price_override: Option<u128>,
    node_price: u128,
    gas_estimation: u64,
    gas_limit_override: Option<u32>,
) -> (r: RawTransaction)
    requires
        node_price <= MAX_GAS_PRICE,
        gas_estimation <= u64::MAX - CONTRACT_EXTRA_OVER_ESTIMATION,
    ensures
        r.nonce == nonce,
        r.to == Some(multi_contract),
        r.value == 0,
        r.gas_price == initial_price_spec(gas_price_override, node_price, network),
        r.gas == match gas_limit_override {
            Some(g) => g as u64,
            None => (gas_estimation + CONTRACT_EXTRA_OVER_ESTIMATION) as u64,
        },
        r.data@ == data@,
{
    let gas_price = initial_gas_price(gas_price_override, node_price, network);
    let gas: u64 = match gas_limit_override {
        Some(g) => g as u64,
        None => gas_estimation + CONTRACT_EXTRA_OVER_ESTIMATION,
    };
    RawTransaction { nonce, to: Some(multi_contract), value: 0, gas_price, gas, data }
}

/// Builds a multi-transfer from call data made by `multi_transfer_data`:
/// prices per the network's policy, capped at the maximum price.
pub fn make_multi_transfer(
    multi_contract: [u8; 20],
    data: Vec<u8>,
    amount_sum: u128,
    nonce: u64,
    network: Network,
    policy: GasPolicy,
    dynamic_max: u128,
    gas_price: Option<u128>,
    max_gas_price: Option<u128>,
    gas_limit: Option<u32>,
    node_price: u128,
    gas_estimation: u64,
) -> (r: BuiltTransaction)
    requires
        node_price <= MAX_GAS_PRICE,
        gas_estimation <= u64::MAX - CONTRACT_EXTRA_OVER_ESTIMATION,
    ensures
        ({
            let (gp, mp) = gas_settings_spec(network, policy, dynamic_max, gas_price, max_gas_price);
            &&& r.max_gas_price == mp
            &&& r.raw.gas_price == capped(initial_price_spec(gp, node_price, network), mp)
        }),
        r.amount == amount_sum,
        r.raw.nonce == nonce,
        r.raw.to == Some(multi_contract),
        r.raw.value == 0,
        r.raw.gas == match gas_limit {
            Some(g) => g as u64,
            None => (gas_estimation + CONTRACT_EXTRA_OVER_ESTIMATION) as u64,
        },
        r.raw.data@ == data@,
{
    let (gp, mp) = gas_settings(network, policy, dynamic_max, gas_price, max_gas_price);
    let mut raw = prepare_erc20_multi_transfer(
        multi_contract,
        data,
        network,
        nonce,
        gp,
        node_price,
        gas_estimation,
        gas_limit,
    );
    raw.gas_price = cap_gas_price(raw.gas_price, mp);
    BuiltTransaction { raw, max_gas_price: mp, amount: amount_sum }
}

/// An unlimited approval of `spender` on the token contract, at 1.5 times
/// the node's price.
pub fn build_approve_tx(token_contract: [u8; 20], spender: [u8; 20], nonce: u64, node_price: u128) -> (r:
    RawTransaction)
    requires
        node_price <= MAX_GAS_PRICE,
    ensures
        r.nonce == nonce,
        r.to == Some(token_contract),
        r.value == 0,
        r.gas_price == node_price * 15 / 10,
        r.gas == GLM_APPROVE_GAS,
        r.data@ == call_data(
            "approve"@,
            transfer_params(),
            seq![AbiValue::Address(spender@), AbiValue::Uint(uint256_max())],
        ),
{
    let data = approve_max_call(spender);
    let gas_price = boosted_gas_price(node_price);
    RawTransaction { nonce, to: Some(token_contract), value: 0, gas_price, gas: GLM_APPROVE_GAS, data }
}

/// A faucet `create()` call at 1.5 times the node's price; an error on a
/// network without a faucet.
pub fn sign_faucet_tx(faucet_contract: Option<[u8; 20]>, nonce: u64, node_price: u128) -> (r: Result<
    RawTransaction,
    BuildError,
>)
    requires
        node_price <= MAX_GAS_PRICE,
    ensures
        faucet_contract is None <==> r is Err,
        r is Err ==> r->Err_0 == BuildError::NoFaucet,
        r is Ok ==> {
            let t = r->Ok_0;
            &&& t.nonce == nonce
            &&& t.to == faucet_contract
            &&& t.value == 0
            &&& t.gas_price == node_price * 15 / 10
            &&& t.gas == GLM_FAUCET_GAS
            &&& t.data@ == call_data("create"@, Seq::empty(), Seq::empty())
        },
{
    match faucet_contract {
        Some(addr) => {
            let data = faucet_create_call();
            let gas_price = boosted_gas_price(node_price);
            Ok(RawTransaction { nonce, to: Some(addr), value: 0, gas_price, gas: GLM_FAUCET_GAS, data })
        },
        None => Err(BuildError::NoFaucet),
    }
}

/// Relies on `uuid::Uuid::new_v4` and its hyphenated text form: a random
/// identifier, 36 characters long.
#[verifier::external_body]
fn new_tx_id() -> (r: String)
    ensures
        r@.len() == 36,
{
    uuid::Uuid::new_v4().to_string()
}

/// `r` is a fresh record: status `Created`, a 36-character random id, the
/// sender in lowercase `0x` hex, the given prices, limit, transaction,
/// type and amount, and no broadcast yet.
pub open spec fn fresh_record(
    r: TransactionRecord,
    nonce: u64,
    sender: [u8; 20],
    starting_gas_price: u128,
    max_gas_price: Option<u128>,
    gas_limit: u64,
    encoded: String,
    network: Network,
    now: i64,
    tx_type: TxType,
    amount: Option<u128>,
) -> bool {
    &&& r.tx_id@.len() == 36
    &&& r.sender@ == prefixed_hex(sender@)
    &&& r.nonce == nonce
    &&& r.time_created == now
    &&& r.time_last_action == now
    &&& r.time_sent is None
    &&& r.time_confirmed is None
    &&& r.starting_gas_price == Some(starting_gas_price)
    &&& r.current_gas_price is None
    &&& r.max_gas_price == max_gas_price
    &&& r.gas_limit == Some(gas_limit)
    &&& r.final_gas_used is None
    &&& r.amount_base == Some(0u128)
    &&& r.amount_erc20 == amount
    &&& r.encoded == encoded
    &&& r.signature is None
    &&& r.tmp_onchain_txs is None
    &&& r.final_tx is None
    &&& r.status == TxStatus::Created
    &&& r.tx_type == tx_type
    &&& r.network == network
    &&& r.last_error_msg is None
    &&& r.resent_times == 0
}

/// The record of a built single transfer, whose serialized form is
/// `encoded`: type `Transfer`, the built price as its starting price.
pub fn make_transfer_record(
    built: &BuiltTransaction,
    sender: [u8; 20],
    encoded: String,
    network: Network,
    now: i64,
) -> (r: TransactionRecord)
    ensures
        fresh_record(
            r,
            built.raw.nonce,
            sender,
            built.raw.gas_price,
            built.max_gas_price,
            built.raw.gas,
            encoded,
            network,
            now,
            TxType::Transfer,
            Some(built.amount),
        ),
{
    create_dao_entity(
        built.raw.nonce,
        sender,
        built.raw.gas_price,
        built.max_gas_price,
        built.raw.gas,
        encoded,
        network,
        now,
        TxType::Transfer,
        Some(built.amount),
    )
}

/// The record of a built multi-transfer, whose serialized form is
/// `encoded`: type `MultiTransfer`, the built price as its starting price,
/// the total of its payments as its amount.
pub fn make_multi_transfer_record(
    built: &BuiltTransaction,
    sender: [u8; 20],
    encoded: String,
    network: Network,
    now: i64,
) -> (r: TransactionRecord)
    ensures
        fresh_record(
            r,
            built.raw.nonce,
            sender,
            built.raw.gas_price,
            built.max_gas_price,
            built.raw.gas,
            encoded,
            network,
            now,
            TxType::MultiTransfer,
            Some(built.amount),
        ),
{
    create_dao_entity(
        built.raw.nonce,
        sender,
        built.raw.gas_price,
        built.max_gas_price,
        built.raw.gas,
        encoded,
        network,
        now,
        TxType::MultiTransfer,
        Some(built.amount),
    )
}

/// A fresh record for a built transaction: status `Created`, a new random
/// id, the sender in lowercase `0x` hex, and no broadcast yet.
pub fn create_dao_entity(
    nonce: u64,
    sender: [u8; 20],
    starting_gas_price: u128,
    max_gas_price: Option<u128>,
    gas_limit: u64,
    encoded: String,
    network: Network,
    now: i64,
    tx_type: TxType,
    amount: Option<u128>,
) -> (r: TransactionRecord)
    ensures
        fresh_record(
            r,
            nonce,
            sender,
            starting_gas_price,
            max_gas_price,
            gas_limit,
            encoded,
            network,
            now,
            tx_type,
            amount,
        ),
{
    TransactionRecord {
        tx_id: new_tx_id(),
        sender: address_to_string(&sender),
        nonce,
        time_created: now,
        time_last_action: now,
        time_sent: None,
        time_confirmed: None,
        starting_gas_price: Some(starting_gas_price),
        current_gas_price: None,
        max_gas_price,
        gas_limit: Some(gas_limit),
        final_gas_used: None,
        amount_base: Some(0),
        amount_erc20: amount,
        encoded,
        signature: None,
        tmp_onchain_txs: None,
        final_tx: None,
        status: TxStatus::Created,
        tx_type,
        network,
        last_error_msg: None,
        resent_times: 0,
    }
}

} // verus!
