//! Choosing the nonce of the next transaction of a sender.

use vstd::prelude::*;

verus! {

/// What the node and the local store say of a sender's nonces.
#[derive(Clone, Copy, Debug, PartialEq, Eq, Structural)]
pub struct NextNonceInfo {
    /// Transactions the node knows, mined or pending.
    pub network_nonce_pending: u64,
    /// Transactions the node has mined.
    pub network_nonce_latest: u64,
    /// One past the highest nonce claimed locally, if any is.
    pub db_nonce_pending: Option<u64>,
}

/// The largest element of `s`, if there is one.
pub open spec fn seq_max(s: Seq<u64>) -> Option<u64>
    decreases s.len(),
{
    if s.len() == 0 {
        None
    } else {
        match seq_max(s.drop_last()) {
            Some(m) => if m >= s.last() {
                Some(m)
            } else {
                Some(s.last())
            },
            None => Some(s.last()),
        }
    }
}

pub proof fn lemma_seq_max_bounds(s: Seq<u64>)
    ensures
        seq_max(s) is None <==> s.len() == 0,
        seq_max(s) is Some ==> s.contains(seq_max(s)->Some_0),
        seq_max(s) is Some ==> forall|i: int| 0 <= i < s.len() ==> s[i] <= seq_max(s)->Some_0,
    decreases s.len(),
{
    if s.len() > 0 {
        let t = s.drop_last();
        lemma_seq_max_bounds(t);
        assert forall|i: int| 0 <= i < s.len() implies s[i] <= seq_max(s)->Some_0 by {
            if i < s.len() - 1 {
                assert(s[i] == t[i]);
            }
        }
        if let Some(m) = seq_max(t) {
            if m >= s.last() {
                let j = choose|j: int| 0 <= j < t.len() && t[j] == m;
                assert(s[j] == m);
            } else {
                assert(s[s.len() - 1] == s.last());
            }
        } else {
            assert(s[s.len() - 1] == s.last());
        }
    }
}

/// The highest nonce among the sender's local claims.
pub fn highest_claimed_nonce(claimed: &Vec<u64>) -> (r: Option<u64>)
    ensures
        r == seq_max(claimed@),
{
    let mut best: Option<u64> = None;
    let mut i: usize = 0;
    while i < claimed.len()
        invariant
            0 <= i <= claimed.len(),
            best == seq_max(claimed@.subrange(0, i as int)),
        decreases claimed.len() - i,
    {
        let ghost prefix = claimed@.subrange(0, i as int + 1);
        assert(prefix.drop_last() =~= claimed@.subrange(0, i as int));
        let x = claimed[i];
        best = match best {
            Some(m) => if m >= x {
                Some(m)
            } else {
                Some(x)
            },
            None => Some(x),
        };
        i = i + 1;
    }
    assert(claimed@.subrange(0, claimed@.len() as int) =~= claimed@);
    best
}

pub open spec fn next_nonce_info_spec(pending: u64, latest: u64, last_claimed: Option<u64>) -> NextNonceInfo {
    NextNonceInfo {
        network_nonce_pending: pending,
        network_nonce_latest: latest,
        db_nonce_pending: match last_claimed {
            Some(n) => Some((n + 1) as u64),
            None => None,
        },
    }
}

/// Collects the node's two counts and the highest local claim.
pub fn get_next_nonce_info(pending: u64, latest: u64, last_claimed: Option<u64>) -> (r: NextNonceInfo)
    requires
        last_claimed != Some(u64::MAX),
    ensures
        r == next_nonce_info_spec(pending, latest, last_claimed),
{
    NextNonceInfo {
        network_nonce_pending: pending,
        network_nonce_latest: latest,
        db_nonce_pending: match last_claimed {
            Some(n) => Some(n + 1),
            None => None,
        },
    }
}

pub open spec fn next_nonce_spec(info: NextNonceInfo) -> u64 {
    match info.db_nonce_pending {
        Some(d) => d,
        None => info.network_nonce_pending,
    }
}

/// The nonce for the next transaction: the local claim when there is one
/// (it knows of transactions not yet broadcast), else the node's pending
/// count.
pub fn get_next_nonce(info: &NextNonceInfo) -> (r: u64)
    ensures
        r == next_nonce_spec(*info),
{
    match info.db_nonce_pending {
        Some(d) => d,
        None => info.network_nonce_pending,
    }
}

/// The node has seen more transactions than were claimed locally: someone
/// else used the account, and a warning is due.
pub fn network_nonce_ahead(info: &NextNonceInfo) -> (r: bool)
    ensures
        r == match info.db_nonce_pending {
            Some(d) => info.network_nonce_pending > d,
            None => false,
        },
{
    match info.db_nonce_pending {
        Some(d) => info.network_nonce_pending > d,
        None => false,
    }
}

/// A nonce chosen against the local claims is above each of them, so no
/// two intents of one sender on one network share a nonce; adding it to the
/// claims and choosing again gives yet another.
pub proof fn lemma_next_nonce_unclaimed(claimed: Seq<u64>, pending: u64, latest: u64)
    requires
        seq_max(claimed) != Some(u64::MAX),
    ensures
        forall|i: int|
            0 <= i < claimed.len() ==> claimed[i] < next_nonce_spec(
                next_nonce_info_spec(pending, latest, seq_max(claimed)),
            ),
        !claimed.contains(next_nonce_spec(next_nonce_info_spec(pending, latest, seq_max(claimed)))),
{
    lemma_seq_max_bounds(claimed);
}

} // verus!
