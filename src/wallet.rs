//! The wallet facade's decisions: whether a wallet can send, when an
//! approval is needed and how long to wait for it, whether a sender can pay
//! for gas, and what a winning transaction's transfer log says.
//!
//! Balances and allowances are 256-bit numbers, handed over as 32-byte
//! big-endian words.

use vstd::prelude::*;
use crate::abi::uint256_max;
use crate::builder::RawTransaction;
use crate::network::Network;
use crate::packing::{be_value, pow256, word_halves};
use crate::text::{be_decimal, decimal_of, prefixed_hex, to_prefixed_hex};

verus! {

/// Seconds to wait after submitting an approval before the first poll.
pub const APPROVE_GRACE_SECS: u64 = 30;
/// Seconds between two allowance polls.
pub const APPROVE_POLL_SECS: u64 = 10;
/// After this many seconds of polling the wait gives up.
pub const APPROVE_TIMEOUT_SECS: u64 = 500;

/// The least allowance that counts as unlimited: half the largest uint256.
pub open spec fn min_allowance() -> nat {
    uint256_max() / 2
}

/// Whether an allowance is at least half the largest uint256, which the
/// driver treats as unlimited.
pub fn allowance_sufficient(allowance: &[u8; 32]) -> (r: bool)
    ensures
        r == (be_value(allowance@) >= min_allowance()),
{
    let (hi, lo) = word_halves(allowance);
    proof {
        reveal_with_fuel(pow256, 33);
        assert(pow256(16) == 0x1_0000_0000_0000_0000_0000_0000_0000_0000);
        assert(min_allowance() == 0x7fff_ffff_ffff_ffff_ffff_ffff_ffff_ffff * pow256(16)
            + 0xffff_ffff_ffff_ffff_ffff_ffff_ffff_ffff);
        let p = pow256(16);
        let m: nat = 0x7fff_ffff_ffff_ffff_ffff_ffff_ffff_ffff;
        let f: nat = 0xffff_ffff_ffff_ffff_ffff_ffff_ffff_ffff;
        assert((hi as nat * p + lo as nat >= m * p + f) == (hi as nat > m || (hi as nat == m
            && lo as nat == f))) by (nonlinear_arith)
            requires
                p == f + 1,
                lo as nat <= f,
        ;
    }
    hi > 0x7fff_ffff_ffff_ffff_ffff_ffff_ffff_ffff || (hi == 0x7fff_ffff_ffff_ffff_ffff_ffff_ffff_ffff
        && lo == 0xffff_ffff_ffff_ffff_ffff_ffff_ffff_ffff)
}

/// Whether a 32-byte big-endian number is zero.
pub fn word_is_zero(w: &[u8; 32]) -> (r: bool)
    ensures
        r == (be_value(w@) == 0),
{
    let (hi, lo) = word_halves(w);
    proof {
        assert(pow256(16) > 0) by {
            reveal_with_fuel(pow256, 17);
        }
        assert((hi as nat * pow256(16) + lo as nat == 0) == (hi == 0 && lo == 0)) by (nonlinear_arith)
            requires
                pow256(16) > 0,
        ;
    }
    hi == 0 && lo == 0
}

/// Why a wallet cannot be set up for sending.
#[derive(Clone, Copy, Debug, PartialEq, Eq, Structural)]
pub enum InitError {
    InsufficientToken,
    InsufficientNative,
}

/// A wallet that sends must hold some token and some native currency (to
/// pay for gas); the token is checked first.
pub fn check_init_balances(token_balance: &[u8; 32], native_balance: &[u8; 32]) -> (r: Result<
    (),
    InitError,
>)
    ensures
        be_value(token_balance@) == 0 ==> r == Err::<(), InitError>(InitError::InsufficientToken),
        be_value(token_balance@) != 0 && be_value(native_balance@) == 0 ==> r == Err::<
            (),
            InitError,
        >(InitError::InsufficientNative),
        be_value(token_balance@) != 0 && be_value(native_balance@) != 0 ==> r is Ok,
{
    if word_is_zero(token_balance) {
        return Err(InitError::InsufficientToken);
    }
    if word_is_zero(native_balance) {
        return Err(InitError::InsufficientNative);
    }
    Ok(())
}

/// The faucet cannot be asked on mainnet.
#[derive(Clone, Copy, Debug, PartialEq, Eq, Structural)]
pub enum FundError {
    MainnetNotFundable,
}

pub fn check_fund_allowed(network: Network) -> (r: Result<(), FundError>)
    ensures
        r is Err <==> network == Network::Mainnet,
{
    if network == Network::Mainnet {
        Err(FundError::MainnetNotFundable)
    } else {
        Ok(())
    }
}

/// What the approval wait does next.
#[derive(Clone, Copy, Debug, PartialEq, Eq, Structural)]
pub enum ApprovalPoll {
    /// The allowance is there: go on.
    Approved,
    /// Waited too long: warn and go on anyway.
    GaveUp,
    /// Sleep `APPROVE_POLL_SECS` and poll again.
    WaitAgain,
}

/// One step of the approval wait, after a poll that found `allowance`,
/// `elapsed` seconds after the approval was submitted.
pub fn approval_poll_step(allowance: &[u8; 32], elapsed: u64) -> (r: ApprovalPoll)
    ensures
        be_value(allowance@) >= min_allowance() ==> r == ApprovalPoll::Approved,
        be_value(allowance@) < min_allowance() && elapsed > APPROVE_TIMEOUT_SECS ==> r
            == ApprovalPoll::GaveUp,
        be_value(allowance@) < min_allowance() && elapsed <= APPROVE_TIMEOUT_SECS ==> r
            == ApprovalPoll::WaitAgain,
{
    if allowance_sufficient(allowance) {
        ApprovalPoll::Approved
    } else if elapsed > APPROVE_TIMEOUT_SECS {
        ApprovalPoll::GaveUp
    } else {
        ApprovalPoll::WaitAgain
    }
}

/// Why a sender cannot pay for a transaction's gas.
#[derive(Clone, Copy, Debug, PartialEq, Eq, Structural)]
pub enum GasCostError {
    /// The balance is below the most the transaction may cost.
    NotEnoughNative,
}

/// The most a transaction may cost: its gas price times its gas limit.
pub open spec fn gas_cost(raw: RawTransaction) -> nat {
    raw.gas_price as nat * raw.gas as nat
}

/// The most a transaction may cost in gas, when that fits in `u128`.
pub fn get_max_gas_costs(raw: &RawTransaction) -> (r: Option<u128>)
    ensures
        r is Some <==> gas_cost(*raw) <= u128::MAX,
        r is Some ==> r->Some_0 == gas_cost(*raw),
{
    raw.gas_price.checked_mul(raw.gas as u128)
}

/// `hi * 2^128 + lo` against `bh * 2^128 + bl`, halves below `2^128`.
proof fn lemma_halves_le(hi: nat, lo: nat, bh: nat, bl: nat, w: nat)
    requires
        lo < w,
        bl < w,
    ensures
        (hi * w + lo <= bh * w + bl) == (hi < bh || (hi == bh && lo <= bl)),
{
    if hi < bh {
        assert(hi * w + lo <= bh * w + bl) by (nonlinear_arith)
            requires
                hi < bh,
                lo < w,
        ;
    } else if hi > bh {
        assert(hi * w + lo > bh * w + bl) by (nonlinear_arith)
            requires
                hi > bh,
                bl < w,
        ;
    }
}

/// The most the transaction may cost, as the two 128-bit halves
/// `(hi, lo)` of `hi * 2^128 + lo`, when the balance covers it.
pub fn has_enough_eth_for_gas(raw: &RawTransaction, balance: &[u8; 32]) -> (r: Result<
    (u128, u128),
    GasCostError,
>)
    ensures
        r is Ok <==> gas_cost(*raw) <= be_value(balance@),
        r is Ok ==> r->Ok_0.0 as nat * pow256(16) + r->Ok_0.1 as nat == gas_cost(*raw),
        r is Err ==> r->Err_0 == GasCostError::NotEnoughNative,
{
    let (bh, bl) = word_halves(balance);
    let m: u128 = 0x1_0000_0000_0000_0000;
    let p = raw.gas_price;
    let g = raw.gas as u128;
    let a = p / m;
    let b = p % m;
    proof {
        assert(pow256(16) == 0x1_0000_0000_0000_0000_0000_0000_0000_0000) by {
            reveal_with_fuel(pow256, 17);
        }
        assert(a < m) by (nonlinear_arith)
            requires
                a == p / m,
                m == 0x1_0000_0000_0000_0000u128,
                p <= 0xffff_ffff_ffff_ffff_ffff_ffff_ffff_ffffu128,
        ;
        assert(a * g < m * m) by (nonlinear_arith)
            requires
                a < m,
                g < m,
        ;
        assert(b * g < m * m) by (nonlinear_arith)
            requires
                b < m,
                g < m,
        ;
    }
    let t = a * g;
    let u = b * g;
    let th = t / m;
    let tl = t % m;
    proof {
        assert(tl * m < m * m) by (nonlinear_arith)
            requires
                tl < m,
        ;
        assert(th < m) by (nonlinear_arith)
            requires
                th == t / m,
                t < m * m,
                m > 0,
        ;
        assert(p as nat * g as nat == (th as nat * (m as nat * m as nat)) + tl as nat * m as nat
            + u as nat) by (nonlinear_arith)
            requires
                p == a * m + b,
                t == a * g,
                u == b * g,
                t == th * m + tl,
        ;
    }
    let ts = tl * m;
    let (ch, cl) = if u > u128::MAX - ts {
        (th + 1, u - (u128::MAX - ts) - 1)
    } else {
        (th, ts + u)
    };
    proof {
        assert(ch as nat * pow256(16) + cl as nat == gas_cost(*raw));
        lemma_halves_le(ch as nat, cl as nat, bh as nat, bl as nat, pow256(16));
    }
    if ch < bh || (ch == bh && cl <= bl) {
        Ok((ch, cl))
    } else {
        Err(GasCostError::NotEnoughNative)
    }
}

/// One log entry of a receipt.
#[derive(Clone, Debug)]
pub struct LogEntry {
    pub topics: Vec<[u8; 32]>,
    pub data: Vec<u8>,
}

/// What a transfer's log says was paid.
#[derive(Clone, Debug)]
pub struct PaymentLog {
    /// Payer, lowercase `0x` hex.
    pub sender: String,
    /// Payee, lowercase `0x` hex.
    pub recipient: String,
    /// Amount in token base units, decimal.
    pub amount: String,
}

#[derive(Clone, Copy, Debug, PartialEq, Eq, Structural)]
pub enum VerifyError {
    /// The chain has no receipt for the hash.
    NotFound,
    /// The receipt has no log.
    NoLog,
    /// The first log does not have exactly three topics.
    BadTopics,
}

/// The address held in the low 20 bytes of a log topic.
pub fn topic_to_str_address(topic: &[u8; 32]) -> (r: String)
    ensures
        r@ == prefixed_hex(topic@.subrange(12, 32)),
{
    let mut a: Vec<u8> = Vec::new();
    let mut i: usize = 12;
    while i < 32
        invariant
            12 <= i <= 32,
            topic@.len() == 32,
            a@ == topic@.subrange(12, i as int),
        decreases 32 - i,
    {
        a.push(topic[i]);
        i = i + 1;
        assert(a@ =~= topic@.subrange(12, i as int));
    }
    to_prefixed_hex(a.as_slice())
}

/// Reads the payment from a winning transaction's receipt logs (`None`
/// when the chain has no receipt): the first log's second and third topics
/// are payer and payee, its data the big-endian amount.
pub fn verify_tx(logs: Option<&Vec<LogEntry>>) -> (r: Result<PaymentLog, VerifyError>)
    ensures
        logs is None ==> r == Err::<PaymentLog, VerifyError>(VerifyError::NotFound),
        logs is Some && logs->Some_0@.len() == 0 ==> r == Err::<PaymentLog, VerifyError>(
            VerifyError::NoLog,
        ),
        logs is Some && logs->Some_0@.len() > 0 && logs->Some_0@[0].topics@.len() != 3 ==> r
            == Err::<PaymentLog, VerifyError>(VerifyError::BadTopics),
        logs is Some && logs->Some_0@.len() > 0 && logs->Some_0@[0].topics@.len() == 3 ==> {
            let e = logs->Some_0@[0];
            &&& r is Ok
            &&& r->Ok_0.sender@ == prefixed_hex(e.topics@[1]@.subrange(12, 32))
            &&& r->Ok_0.recipient@ == prefixed_hex(e.topics@[2]@.subrange(12, 32))
            &&& r->Ok_0.amount@ == decimal_of(be_value(e.data@))
        },
{
    match logs {
        None => Err(VerifyError::NotFound),
        Some(ls) => {
            if ls.len() == 0 {
                return Err(VerifyError::NoLog);
            }
            let e = &ls[0];
            if e.topics.len() != 3 {
                return Err(VerifyError::BadTopics);
            }
            let sender = topic_to_str_address(&e.topics[1]);
            let recipient = topic_to_str_address(&e.topics[2]);
            let amount = be_decimal(e.data.as_slice());
            Ok(PaymentLog { sender, recipient, amount })
        },
    }
}

} // verus!
