//! The transaction record and its state machine: gas decisions for a send,
//! what each broadcast outcome does to the record, and reconciliation with
//! what the chain reports.

use vstd::prelude::*;
use crate::builder::RawTransaction;
use crate::chain::TransactionChainStatus;
use crate::gas::{
    bump_gas_price, bumped_price, get_polygon_starting_price, ladder, min_bump,
    PolygonGasPriceMethod, PolygonPriority, MAX_GAS_PRICE,
};
use crate::network::Network;

verus! {

/// How many times a "nonce too low" record with an earlier broadcast is
/// given back to the reconciler before it is written off.
pub const NONCE_TOO_LOW_RETRIES: u32 = 5;

/// The error text stored on a record whose serialized transaction cannot
/// be read back.
pub const CORRUPT_ENCODING_MSG: &'static str = "Json parse failed, unrecoverable error";

#[derive(Clone, Copy, Debug, PartialEq, Eq, Structural)]
pub enum TxStatus {
    Created,
    Sent,
    Pending,
    ResendAndBumpGas,
    Confirmed,
    Failed,
    NonceTooLow,
    ErrorSent,
}

#[derive(Clone, Copy, Debug, PartialEq, Eq, Structural)]
pub enum TxType {
    Transfer,
    MultiTransfer,
    Approve,
    Faucet,
}

impl TxStatus {
    /// `Confirmed`, `Failed` and `NonceTooLow` are sinks.
    pub open spec fn spec_is_terminal(self) -> bool {
        self == TxStatus::Confirmed || self == TxStatus::Failed || self == TxStatus::NonceTooLow
    }

    pub fn is_terminal(self) -> (r: bool)
        ensures
            r == self.spec_is_terminal(),
    {
        match self {
            TxStatus::Confirmed | TxStatus::Failed | TxStatus::NonceTooLow => true,
            _ => false,
        }
    }
}

/// The durable record of one payment intent: the audit log entry that the
/// lifecycle mutates. Prices are in wei, times in seconds since the epoch.
#[derive(Clone, Debug)]
pub struct TransactionRecord {
    pub tx_id: String,
    /// Lowercase hex address with a `0x` prefix.
    pub sender: String,
    pub nonce: u64,
    pub time_created: i64,
    pub time_last_action: i64,
    pub time_sent: Option<i64>,
    pub time_confirmed: Option<i64>,
    pub starting_gas_price: Option<u128>,
    pub current_gas_price: Option<u128>,
    pub max_gas_price: Option<u128>,
    pub gas_limit: Option<u64>,
    pub final_gas_used: Option<u128>,
    /// Native currency moved, in wei (always zero for token operations).
    pub amount_base: Option<u128>,
    /// Token amount moved, in base units.
    pub amount_erc20: Option<u128>,
    /// The serialized raw transaction.
    pub encoded: String,
    /// Hex of the detached signature of `encoded`.
    pub signature: Option<String>,
    /// Every hash this record was published under, joined by `;`.
    pub tmp_onchain_txs: Option<String>,
    pub final_tx: Option<String>,
    pub status: TxStatus,
    pub tx_type: TxType,
    pub network: Network,
    pub last_error_msg: Option<String>,
    pub resent_times: u32,
}

/// The kinds of broadcast failure the engine tells apart.
#[derive(Clone, Copy, Debug, PartialEq, Eq, Structural)]
pub enum SendErrorKind {
    NonceTooLow,
    AlreadyKnown,
    Other,
}

/// A gas price that the policy cannot compute with.
#[derive(Clone, Copy, Debug, PartialEq, Eq, Structural)]
pub enum GasError {
    PriceOutOfRange,
}

/// The Polygon settings that the gas decisions read.
#[derive(Clone, Copy, Debug, PartialEq, Eq, Structural)]
pub struct GasPolicy {
    pub method: PolygonGasPriceMethod,
    pub priority: PolygonPriority,
}

/// `s` occurs in `text` as a contiguous run.
pub open spec fn occurs_in(text: Seq<char>, s: Seq<char>) -> bool {
    exists|i: int| 0 <= i && i + s.len() <= text.len() && #[trigger] text.subrange(i, i + s.len()) == s
}

/// Relies on `str::contains` with a `&str` pattern: true exactly when the
/// pattern occurs in the text.
#[verifier::external_body]
fn text_contains(text: &str, pat: &str) -> (r: bool)
    ensures
        r == occurs_in(text@, pat@),
{
    text.contains(pat)
}

pub open spec fn error_kind_of(msg: Seq<char>) -> SendErrorKind {
    if occurs_in(msg, "nonce too low"@) {
        SendErrorKind::NonceTooLow
    } else if occurs_in(msg, "already known"@) {
        SendErrorKind::AlreadyKnown
    } else {
        SendErrorKind::Other
    }
}

/// Classifies a node's error text by the phrases it contains.
pub fn classify_send_error(msg: &str) -> (r: SendErrorKind)
    ensures
        r == error_kind_of(msg@),
{
    if text_contains(msg, "nonce too low") {
        SendErrorKind::NonceTooLow
    } else if text_contains(msg, "already known") {
        SendErrorKind::AlreadyKnown
    } else {
        SendErrorKind::Other
    }
}

/// The publication history of a record, empty when there is none.
pub open spec fn history(h: Option<String>) -> Seq<char> {
    match h {
        Some(s) => s@,
        None => Seq::empty(),
    }
}

/// `a` is a prefix of `b`.
pub open spec fn is_prefix(a: Seq<char>, b: Seq<char>) -> bool {
    a.len() <= b.len() && b.subrange(0, a.len() as int) == a
}

/// The history after publishing under `hash`: the hash alone when there
/// was none, else joined to it by `;`.
pub open spec fn appended_history(h: Option<String>, hash: Seq<char>) -> Seq<char> {
    if history(h).len() == 0 {
        hash
    } else {
        history(h) + ";"@ + hash
    }
}

/// `hash` is one of the `;`-separated entries of the history `h`.
pub open spec fn is_entry(h: Seq<char>, hash: Seq<char>) -> bool {
    &&& hash.len() > 0
    &&& !occurs_in(hash, ";"@)
    &&& occurs_in(";"@ + h + ";"@, ";"@ + hash + ";"@)
}

/// The gas price never goes down: once set, it stays set and does not drop.
pub open spec fn gas_not_lowered(before: Option<u128>, after: Option<u128>) -> bool {
    match before {
        Some(p) => after is Some && after->Some_0 >= p,
        None => true,
    }
}

/// What every transition keeps: sinks stay as they are, the publication
/// history only grows, and the gas price does not drop.
pub open spec fn step_ok(before: TransactionRecord, after: TransactionRecord) -> bool {
    &&& before.status.spec_is_terminal() ==> after == before
    &&& is_prefix(history(before.tmp_onchain_txs), history(after.tmp_onchain_txs))
    &&& gas_not_lowered(before.current_gas_price, after.current_gas_price)
}

pub open spec fn sat_inc(n: u32) -> u32 {
    if n < u32::MAX {
        (n + 1) as u32
    } else {
        n
    }
}

/// The price a send uses, given the node's current quote.
pub open spec fn effective_price_spec(
    r: TransactionRecord,
    network_price: u128,
    policy: GasPolicy,
) -> u128 {
    match r.current_gas_price {
        Some(c) => if r.status == TxStatus::ResendAndBumpGas {
            bumped_price(c as nat, policy.method, policy.priority) as u128
        } else {
            c
        },
        None => match r.starting_gas_price {
            Some(s) => {
                let p = if network_price > s {
                    network_price
                } else {
                    s
                };
                match r.max_gas_price {
                    Some(m) => if m < p {
                        m
                    } else {
                        p
                    },
                    None => p,
                }
            },
            None => ladder(policy.priority)[1],
        },
    }
}

/// The record once a send at `price` is stored, before its broadcast.
pub open spec fn prepared_spec(
    r: TransactionRecord,
    encoded: String,
    signature: String,
    price: u128,
    now: i64,
) -> TransactionRecord {
    TransactionRecord {
        encoded,
        signature: Some(signature),
        current_gas_price: Some(price),
        time_last_action: now,
        ..r
    }
}

/// `after` is `before` once a broadcast under `hash` succeeded: the hash
/// joins the history and the status is `Sent`; a sink stays as it is.
pub open spec fn sent_from(
    before: TransactionRecord,
    after: TransactionRecord,
    hash: Seq<char>,
    now: i64,
) -> bool {
    if before.status.spec_is_terminal() {
        after == before
    } else {
        &&& after.tmp_onchain_txs is Some
        &&& history(after.tmp_onchain_txs) == appended_history(before.tmp_onchain_txs, hash)
        &&& after == (TransactionRecord {
            tmp_onchain_txs: after.tmp_onchain_txs,
            status: TxStatus::Sent,
            time_sent: Some(now),
            time_last_action: now,
            ..before
        })
    }
}

/// A broadcast goes out at the price stored before it: a record prepared
/// at `price`, then marked sent, carries `price` together with the stored
/// transaction and signature.
pub proof fn lemma_broadcast_price_persisted(
    a: TransactionRecord,
    c: TransactionRecord,
    encoded: String,
    signature: String,
    price: u128,
    prepared_at: i64,
    hash: Seq<char>,
    sent_at: i64,
)
    requires
        sent_from(prepared_spec(a, encoded, signature, price, prepared_at), c, hash, sent_at),
    ensures
        c.current_gas_price == Some(price),
        c.encoded == encoded,
        c.signature == Some(signature),
{
}

/// `after` is `before` once the chain's report `chain` on `hash` is
/// applied: enough confirmations settle the record (`Confirmed`, or
/// `Failed` on a revert) with `hash` as its final transaction; a hash the
/// node holds unmined moves `Sent` to `Pending`; otherwise, for a settled
/// record, and for a hash that is not one of the record's published
/// hashes, nothing changes.
pub open spec fn reconciled_from(
    before: TransactionRecord,
    after: TransactionRecord,
    hash: Seq<char>,
    chain: TransactionChainStatus,
    now: i64,
) -> bool {
    if before.status.spec_is_terminal() || !is_entry(history(before.tmp_onchain_txs), hash) {
        after == before
    } else if chain.confirmed {
        &&& after.final_tx is Some
        &&& after.final_tx->Some_0@ == hash
        &&& after == (TransactionRecord {
            status: if chain.succeeded {
                TxStatus::Confirmed
            } else {
                TxStatus::Failed
            },
            final_tx: after.final_tx,
            final_gas_used: chain.gas_used,
            time_confirmed: Some(now),
            time_last_action: now,
            ..before
        })
    } else if chain.pending && before.status == TxStatus::Sent {
        after == (TransactionRecord { status: TxStatus::Pending, ..before })
    } else {
        after == before
    }
}

/// Reconciling is idempotent: applying the same report a second time
/// changes nothing, whenever it is run; in particular a `Confirmed` record
/// stays exactly as it is.
pub proof fn lemma_reconcile_idempotent(
    a: TransactionRecord,
    b: TransactionRecord,
    c: TransactionRecord,
    hash: Seq<char>,
    chain: TransactionChainStatus,
    first: i64,
    second: i64,
)
    requires
        reconciled_from(a, b, hash, chain, first),
        reconciled_from(b, c, hash, chain, second),
    ensures
        c == b,
        a.status == TxStatus::Confirmed ==> b == a,
{
}

/// What `step_ok` asks holds across any sequence of transitions: a sink
/// reached stays as it is, the publication history only grows, and the gas
/// price never drops.
pub proof fn lemma_step_ok_transitive(a: TransactionRecord, b: TransactionRecord, c: TransactionRecord)
    requires
        step_ok(a, b),
        step_ok(b, c),
    ensures
        step_ok(a, c),
{
    let ha = history(a.tmp_onchain_txs);
    let hb = history(b.tmp_onchain_txs);
    let hc = history(c.tmp_onchain_txs);
    assert(hc.subrange(0, ha.len() as int) =~= hc.subrange(0, hb.len() as int).subrange(
        0,
        ha.len() as int,
    ));
}

/// Leaving a record as it is keeps everything `step_ok` asks for.
pub proof fn lemma_unchanged_ok(r: TransactionRecord)
    ensures
        step_ok(r, r),
{
    let h = history(r.tmp_onchain_txs);
    assert(h.subrange(0, h.len() as int) =~= h);
}

impl TransactionRecord {
    pub open spec fn spec_has_history(&self) -> bool {
        history(self.tmp_onchain_txs).len() > 0
    }

    /// Whether the send needs the node's current price: a first send with
    /// a recorded starting price.
    pub fn needs_network_price(&self) -> (r: bool)
        ensures
            r == (self.current_gas_price is None && self.starting_gas_price is Some),
    {
        self.current_gas_price.is_none() && self.starting_gas_price.is_some()
    }

    /// Decides the price of the next broadcast. A record marked for a bump
    /// gets at least 11% over its current price (a configured maximum does
    /// not hold it back); a record already priced keeps its price; a first
    /// send takes the larger of the node's quote and the starting price,
    /// capped by the maximum; a record with neither takes the tier's
    /// starting price.
    pub fn effective_gas_price(&self, network_price: u128, policy: GasPolicy) -> (r: Result<
        u128,
        GasError,
    >)
        ensures
            r is Err <==> (self.current_gas_price is Some && self.status == TxStatus::ResendAndBumpGas
                && self.current_gas_price->Some_0 > MAX_GAS_PRICE),
            r is Ok ==> r->Ok_0 == effective_price_spec(*self, network_price, policy),
            r is Ok ==> gas_not_lowered(self.current_gas_price, Some(r->Ok_0)),
            r is Ok && self.status == TxStatus::ResendAndBumpGas && self.current_gas_price is Some
                ==> r->Ok_0 >= min_bump(self.current_gas_price->Some_0 as nat),
    {
        match self.current_gas_price {
            Some(c) => {
                if self.status == TxStatus::ResendAndBumpGas {
                    if c > MAX_GAS_PRICE {
                        Err(GasError::PriceOutOfRange)
                    } else {
                        Ok(bump_gas_price(c, policy.method, policy.priority))
                    }
                } else {
                    Ok(c)
                }
            },
            None => match self.starting_gas_price {
                Some(s) => {
                    let p = if network_price > s {
                        network_price
                    } else {
                        s
                    };
                    match self.max_gas_price {
                        Some(m) => if m < p {
                            Ok(m)
                        } else {
                            Ok(p)
                        },
                        None => Ok(p),
                    }
                },
                None => Ok(get_polygon_starting_price(policy.priority)),
            },
        }
    }

    /// The send-pass decision for this record, whose stored transaction
    /// reads back as `raw`: the price per `effective_gas_price`, then the
    /// batch guard of `pass`. `Ok(None)`: skipped in this pass; a settled
    /// record is always skipped and leaves the pass as it was.
    /// `Ok(Some(t))`: `raw` at the new price, to be stored with
    /// `prepare_send` and then broadcast.
    pub fn plan_send(
        &self,
        raw: RawTransaction,
        network_price: u128,
        policy: GasPolicy,
        pass: &mut SendPass,
    ) -> (r: Result<Option<RawTransaction>, GasError>)
        ensures
            self.status.spec_is_terminal() ==> r == Ok::<Option<RawTransaction>, GasError>(None)
                && final(pass).current_max_gas_price == old(pass).current_max_gas_price,
            r is Err <==> (!self.status.spec_is_terminal() && self.current_gas_price is Some
                && self.status == TxStatus::ResendAndBumpGas && self.current_gas_price->Some_0
                > MAX_GAS_PRICE),
            r is Err ==> final(pass).current_max_gas_price == old(pass).current_max_gas_price,
            r is Ok && !self.status.spec_is_terminal() ==> {
                let p = effective_price_spec(*self, network_price, policy);
                &&& (r->Ok_0 is Some <==> p >= old(pass).current_max_gas_price)
                &&& r->Ok_0 is None ==> final(pass).current_max_gas_price
                    == old(pass).current_max_gas_price
                &&& r->Ok_0 is Some ==> {
                    let t = r->Ok_0->Some_0;
                    &&& t.gas_price == p
                    &&& final(pass).current_max_gas_price == p
                    &&& t.nonce == raw.nonce
                    &&& t.to == raw.to
                    &&& t.value == raw.value
                    &&& t.gas == raw.gas
                    &&& t.data@ == raw.data@
                }
            },
    {
        if self.status.is_terminal() {
            return Ok(None);
        }
        let price = match self.effective_gas_price(network_price, policy) {
            Ok(p) => p,
            Err(e) => {
                return Err(e);
            },
        };
        if !pass.allows(price) {
            return Ok(None);
        }
        let mut t = raw;
        t.gas_price = price;
        Ok(Some(t))
    }

    /// Stores what is about to be broadcast (serialized transaction, its
    /// signature and its price) before the broadcast happens. A sink, or a
    /// price below the one already recorded, leaves the record as it is and
    /// gives `false`.
    pub fn prepare_send(&mut self, encoded: String, signature: String, price: u128, now: i64) -> (r:
        bool)
        ensures
            r == (!old(self).status.spec_is_terminal() && gas_not_lowered(
                old(self).current_gas_price,
                Some(price),
            )),
            !r ==> *final(self) == *old(self),
            r ==> *final(self) == prepared_spec(*old(self), encoded, signature, price, now),
            step_ok(*old(self), *final(self)),
    {
        proof {
            lemma_unchanged_ok(*self);
        }
        if self.status.is_terminal() {
            return false;
        }
        match self.current_gas_price {
            Some(c) => {
                if price < c {
                    return false;
                }
            },
            None => {},
        }
        self.encoded = encoded;
        self.signature = Some(signature);
        self.current_gas_price = Some(price);
        self.time_last_action = now;
        proof {
            let h = history(self.tmp_onchain_txs);
            assert(h.subrange(0, h.len() as int) =~= h);
        }
        true
    }

    /// A broadcast succeeded under `hash`: the hash joins the history and
    /// the record is `Sent` at the price stored before the broadcast.
    pub fn record_sent(&mut self, hash: &str, now: i64)
        ensures
            sent_from(*old(self), *final(self), hash@, now),
            step_ok(*old(self), *final(self)),
    {
        proof {
            lemma_unchanged_ok(*self);
        }
        if self.status.is_terminal() {
            return;
        }
        let ghost before = history(self.tmp_onchain_txs);
        let joined = match &self.tmp_onchain_txs {
            Some(h) => {
                if h.as_str().is_empty() {
                    String::from_str(hash)
                } else {
                    let mut s = h.clone();
                    s.append(";");
                    s.append(hash);
                    s
                }
            },
            None => String::from_str(hash),
        };
        self.tmp_onchain_txs = Some(joined);
        self.status = TxStatus::Sent;
        self.time_sent = Some(now);
        self.time_last_action = now;
        proof {
            let after = history(self.tmp_onchain_txs);
            assert(after.subrange(0, before.len() as int) =~= before);
        }
    }

    /// A broadcast failed with the node's message `msg`.
    /// - "nonce too low": with an earlier broadcast and fewer than five
    ///   resends the record goes back to `ErrorSent` for the reconciler to
    ///   find the landed hash; otherwise it ends in `NonceTooLow`.
    /// - "already known": the record must be bumped (`ResendAndBumpGas`).
    /// - anything else: `ErrorSent`, one more resend counted.
    pub fn record_send_error(&mut self, msg: &str, now: i64)
        ensures
            old(self).status.spec_is_terminal() ==> *final(self) == *old(self),
            !old(self).status.spec_is_terminal() ==> *final(self) == match error_kind_of(msg@) {
                SendErrorKind::NonceTooLow => if old(self).spec_has_history()
                    && old(self).resent_times < NONCE_TOO_LOW_RETRIES {
                    TransactionRecord {
                        status: TxStatus::ErrorSent,
                        resent_times: (old(self).resent_times + 1) as u32,
                        last_error_msg: final(self).last_error_msg,
                        time_last_action: now,
                        ..*old(self)
                    }
                } else {
                    TransactionRecord {
                        status: TxStatus::NonceTooLow,
                        last_error_msg: final(self).last_error_msg,
                        time_last_action: now,
                        ..*old(self)
                    }
                },
                SendErrorKind::AlreadyKnown => TransactionRecord {
                    status: TxStatus::ResendAndBumpGas,
                    time_last_action: now,
                    ..*old(self)
                },
                SendErrorKind::Other => TransactionRecord {
                    status: TxStatus::ErrorSent,
                    resent_times: sat_inc(old(self).resent_times),
                    last_error_msg: final(self).last_error_msg,
                    time_last_action: now,
                    ..*old(self)
                },
            },
            !old(self).status.spec_is_terminal() && error_kind_of(msg@) != SendErrorKind::AlreadyKnown
                ==> final(self).last_error_msg is Some && final(self).last_error_msg->Some_0@
                == msg@,
            step_ok(*old(self), *final(self)),
    {
        proof {
            lemma_unchanged_ok(*self);
        }
        if self.status.is_terminal() {
            return;
        }
        let kind = classify_send_error(msg);
        let has_history = match &self.tmp_onchain_txs {
            Some(h) => !h.as_str().is_empty(),
            None => false,
        };
        match kind {
            SendErrorKind::NonceTooLow => {
                if has_history && self.resent_times < NONCE_TOO_LOW_RETRIES {
                    self.status = TxStatus::ErrorSent;
                    self.resent_times = self.resent_times + 1;
                } else {
                    self.status = TxStatus::NonceTooLow;
                }
                self.last_error_msg = Some(String::from_str(msg));
            },
            SendErrorKind::AlreadyKnown => {
                self.status = TxStatus::ResendAndBumpGas;
            },
            SendErrorKind::Other => {
                if self.resent_times < u32::MAX {
                    self.resent_times = self.resent_times + 1;
                }
                self.status = TxStatus::ErrorSent;
                self.last_error_msg = Some(String::from_str(msg));
            },
        }
        self.time_last_action = now;
        proof {
            let h = history(self.tmp_onchain_txs);
            assert(h.subrange(0, h.len() as int) =~= h);
        }
    }

    /// The record is stalled (too slow, or a user asked): its next send
    /// must bump the gas price.
    pub fn request_bump(&mut self, now: i64)
        ensures
            old(self).status.spec_is_terminal() ==> *final(self) == *old(self),
            !old(self).status.spec_is_terminal() ==> *final(self) == (TransactionRecord {
                status: TxStatus::ResendAndBumpGas,
                time_last_action: now,
                ..*old(self)
            }),
            step_ok(*old(self), *final(self)),
    {
        proof {
            lemma_unchanged_ok(*self);
        }
        if self.status.is_terminal() {
            return;
        }
        self.status = TxStatus::ResendAndBumpGas;
        self.time_last_action = now;
        proof {
            let h = history(self.tmp_onchain_txs);
            assert(h.subrange(0, h.len() as int) =~= h);
        }
    }

    /// The serialized transaction cannot be read back: the record fails for
    /// good with a fixed message.
    pub fn mark_encoding_corrupt(&mut self, now: i64)
        ensures
            old(self).status.spec_is_terminal() ==> *final(self) == *old(self),
            !old(self).status.spec_is_terminal() ==> {
                &&& final(self).last_error_msg is Some
                &&& final(self).last_error_msg->Some_0@ == CORRUPT_ENCODING_MSG@
                &&& *final(self) == (TransactionRecord {
                    status: TxStatus::Failed,
                    last_error_msg: final(self).last_error_msg,
                    time_last_action: now,
                    ..*old(self)
                })
            },
            step_ok(*old(self), *final(self)),
    {
        proof {
            lemma_unchanged_ok(*self);
        }
        if self.status.is_terminal() {
            return;
        }
        self.status = TxStatus::Failed;
        self.last_error_msg = Some(String::from_str(CORRUPT_ENCODING_MSG));
        self.time_last_action = now;
        proof {
            let h = history(self.tmp_onchain_txs);
            assert(h.subrange(0, h.len() as int) =~= h);
        }
    }

    /// Whether `hash` is one of the hashes the record was published under.
    pub fn history_has_entry(&self, hash: &str) -> (r: bool)
        ensures
            r == is_entry(history(self.tmp_onchain_txs), hash@),
    {
        if hash.is_empty() || text_contains(hash, ";") {
            return false;
        }
        let mut padded = String::from_str(";");
        match &self.tmp_onchain_txs {
            Some(h) => padded.append(h.as_str()),
            None => {},
        }
        padded.append(";");
        let mut needle = String::from_str(";");
        needle.append(hash);
        needle.append(";");
        proof {
            assert(padded@ =~= ";"@ + history(self.tmp_onchain_txs) + ";"@);
            assert(needle@ =~= ";"@ + hash@ + ";"@);
        }
        text_contains(padded.as_str(), needle.as_str())
    }

    /// Applies what the chain reports of one of the record's hashes. Enough
    /// confirmations settle the record: `Confirmed` when the receipt
    /// succeeded, `Failed` when it reverted, with that hash as the final one
    /// and the gas it used. A hash the node holds unmined moves a `Sent`
    /// record to `Pending`. A settled record is left as it is, so running
    /// this again changes nothing. A hash the record was never published
    /// under changes nothing either, so the final hash is always one of the
    /// history's entries.
    pub fn reconcile(&mut self, hash: &str, chain: &TransactionChainStatus, now: i64)
        ensures
            reconciled_from(*old(self), *final(self), hash@, *chain, now),
            step_ok(*old(self), *final(self)),
    {
        proof {
            lemma_unchanged_ok(*self);
        }
        if self.status.is_terminal() || !self.history_has_entry(hash) {
            return;
        }
        if chain.confirmed {
            self.status = if chain.succeeded {
                TxStatus::Confirmed
            } else {
                TxStatus::Failed
            };
            self.final_tx = Some(String::from_str(hash));
            self.final_gas_used = chain.gas_used;
            self.time_confirmed = Some(now);
            self.time_last_action = now;
        } else if chain.pending && self.status == TxStatus::Sent {
            self.status = TxStatus::Pending;
        }
        proof {
            let h = history(self.tmp_onchain_txs);
            assert(h.subrange(0, h.len() as int) =~= h);
        }
    }
}

/// The nonce of the record at `idx`.
pub open spec fn nonce_at(records: Seq<TransactionRecord>, idx: usize) -> u64 {
    records[idx as int].nonce
}

/// `order` lists record indices by non-decreasing nonce.
pub open spec fn sorted_by_nonce(records: Seq<TransactionRecord>, order: Seq<usize>) -> bool {
    forall|a: int, b: int|
        0 <= a < b < order.len() ==> #[trigger] nonce_at(records, order[a]) <= #[trigger] nonce_at(
            records,
            order[b],
        )
}

/// The order in which a send pass takes the records: by ascending nonce,
/// equal nonces in their given order. Every index appears exactly once.
pub fn send_order(records: &Vec<TransactionRecord>) -> (r: Vec<usize>)
    ensures
        r@.len() == records@.len(),
        forall|k: int| 0 <= k < r@.len() ==> r@[k] < records@.len(),
        forall|j: usize| j < records@.len() ==> #[trigger] r@.contains(j),
        sorted_by_nonce(records@, r@),
{
    let mut order: Vec<usize> = Vec::new();
    let mut i: usize = 0;
    while i < records.len()
        invariant
            0 <= i <= records.len(),
            order@.len() == i,
            forall|k: int| 0 <= k < order@.len() ==> order@[k] < i,
            forall|j: usize| j < i ==> #[trigger] order@.contains(j),
            sorted_by_nonce(records@, order@),
        decreases records.len() - i,
    {
        let x = records[i].nonce;
        let mut p: usize = 0;
        while p < order.len() && records[order[p]].nonce <= x
            invariant
                0 <= p <= order@.len(),
                i < records@.len(),
                x == records@[i as int].nonce,
                forall|k: int| 0 <= k < order@.len() ==> order@[k] < i,
                forall|k: int| 0 <= k < p ==> #[trigger] nonce_at(records@, order@[k]) <= x,
            decreases order@.len() - p,
        {
            p = p + 1;
        }
        let ghost old_order = order@;
        proof {
            if p < old_order.len() {
                assert(nonce_at(records@, old_order[p as int]) > x);
                assert forall|k: int| p <= k < old_order.len() implies #[trigger] nonce_at(
                    records@,
                    old_order[k],
                ) > x by {
                    if k > p {
                        assert(nonce_at(records@, old_order[p as int]) <= nonce_at(
                            records@,
                            old_order[k],
                        ));
                    }
                }
            }
        }
        order.insert(p, i);
        proof {
            let n = order@;
            assert(n == old_order.insert(p as int, i));
            assert(nonce_at(records@, i) == x);
            assert forall|a: int, b: int| 0 <= a < b < n.len() implies #[trigger] nonce_at(
                records@,
                n[a],
            ) <= #[trigger] nonce_at(records@, n[b]) by {
                if b < p {
                    assert(n[a] == old_order[a] && n[b] == old_order[b]);
                } else if b == p {
                    assert(n[a] == old_order[a]);
                } else if a < p {
                    assert(n[a] == old_order[a] && n[b] == old_order[b - 1]);
                    assert(nonce_at(records@, old_order[b - 1]) > x);
                } else if a == p {
                    assert(n[b] == old_order[b - 1]);
                    assert(nonce_at(records@, old_order[b - 1]) > x);
                } else {
                    assert(n[a] == old_order[a - 1] && n[b] == old_order[b - 1]);
                }
            }
            assert forall|k: int| 0 <= k < n.len() implies n[k] < i + 1 by {
                if k < p {
                    assert(n[k] == old_order[k]);
                } else if k > p {
                    assert(n[k] == old_order[k - 1]);
                }
            }
            assert forall|j: usize| j < i + 1 implies #[trigger] n.contains(j) by {
                if j < i {
                    assert(old_order.contains(j));
                    let k = choose|k: int| 0 <= k < old_order.len() && old_order[k] == j;
                    if k < p {
                        assert(n[k] == j);
                    } else {
                        assert(n[k + 1] == j);
                    }
                } else {
                    assert(n[p as int] == i);
                }
            }
        }
        i = i + 1;
    }
    order
}

/// The state of one send pass over a batch: the price of the last
/// transaction it let through.
pub struct SendPass {
    pub current_max_gas_price: u128,
}

impl SendPass {
    pub fn new() -> (r: SendPass)
        ensures
            r.current_max_gas_price == 0,
    {
        SendPass { current_max_gas_price: 0 }
    }

    /// Whether a transaction at `price` may go out in this pass: never
    /// below one already sent in it, so that a later nonce cannot overtake
    /// an earlier one. An admitted price becomes the new mark.
    pub fn allows(&mut self, price: u128) -> (r: bool)
        ensures
            r == (price >= old(self).current_max_gas_price),
            r ==> final(self).current_max_gas_price == price,
            !r ==> final(self).current_max_gas_price == old(self).current_max_gas_price,
            final(self).current_max_gas_price >= old(self).current_max_gas_price,
    {
        if price < self.current_max_gas_price {
            false
        } else {
            self.current_max_gas_price = price;
            true
        }
    }
}

} // verus!
