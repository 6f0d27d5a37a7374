//! Big-endian integers and the packed transfer word of the multi-transfer
//! contract: recipient in the high 20 bytes, amount in the low 12.

use vstd::prelude::*;

verus! {

/// Amounts in a packed word stay below this bound (96 bits).
pub const PACKED_AMOUNT_LIMIT: u128 = 0x1_0000_0000_0000_0000_0000_0000;

/// The number that a big-endian byte string denotes.
pub open spec fn be_value(s: Seq<u8>) -> nat
    decreases s.len(),
{
    if s.len() == 0 {
        0
    } else {
        be_value(s.drop_last()) * 256 + s.last() as nat
    }
}

/// The low `n` bytes of `v`, big-endian.
pub open spec fn be_bytes(v: nat, n: nat) -> Seq<u8>
    decreases n,
{
    if n == 0 {
        Seq::empty()
    } else {
        be_bytes(v / 256, (n - 1) as nat).push((v % 256) as u8)
    }
}

/// `256^n`.
pub open spec fn pow256(n: nat) -> nat
    decreases n,
{
    if n == 0 {
        1
    } else {
        256 * pow256((n - 1) as nat)
    }
}

/// The packed word of one transfer.
pub open spec fn packed_word(recipient: Seq<u8>, amount: nat) -> Seq<u8> {
    recipient + be_bytes(amount, 12)
}

pub proof fn lemma_be_bytes_len(v: nat, n: nat)
    ensures
        be_bytes(v, n).len() == n,
    decreases n,
{
    if n > 0 {
        lemma_be_bytes_len(v / 256, (n - 1) as nat);
    }
}

pub proof fn lemma_pow256_positive(n: nat)
    ensures
        pow256(n) > 0,
    decreases n,
{
    if n > 0 {
        lemma_pow256_positive((n - 1) as nat);
    }
}

/// Writing `v` in `n` bytes and reading them back gives `v`, when it fits.
pub proof fn lemma_be_round_trip(v: nat, n: nat)
    requires
        v < pow256(n),
    ensures
        be_value(be_bytes(v, n)) == v,
    decreases n,
{
    if n > 0 {
        let m = (n - 1) as nat;
        lemma_pow256_positive(m);
        assert(v / 256 < pow256(m)) by (nonlinear_arith)
            requires
                v < 256 * pow256(m),
                pow256(m) > 0,
        ;
        lemma_be_round_trip(v / 256, m);
        let s = be_bytes(v, n);
        assert(s.drop_last() =~= be_bytes(v / 256, m));
        assert((v % 256) as u8 as nat == v % 256);
        assert(v == (v / 256) * 256 + v % 256) by (nonlinear_arith);
    } else {
        assert(pow256(0) == 1);
    }
}

pub proof fn lemma_be_value_append(a: Seq<u8>, b: u8)
    ensures
        be_value(a.push(b)) == be_value(a) * 256 + b as nat,
{
    assert(a.push(b).drop_last() =~= a);
}

/// A packed word holds the recipient in its first 20 bytes and the amount
/// in its last 12: reading them back gives the pair that was packed.
pub proof fn lemma_packed_word_round_trip(recipient: Seq<u8>, amount: nat)
    requires
        recipient.len() == 20,
        amount < PACKED_AMOUNT_LIMIT,
    ensures
        packed_word(recipient, amount).len() == 32,
        packed_word(recipient, amount).subrange(0, 20) == recipient,
        be_value(packed_word(recipient, amount).subrange(20, 32)) == amount,
{
    lemma_be_bytes_len(amount, 12);
    let w = packed_word(recipient, amount);
    assert(w.subrange(0, 20) =~= recipient);
    assert(w.subrange(20, 32) =~= be_bytes(amount, 12));
    lemma_pow256_values();
    lemma_be_round_trip(amount, 12);
}

/// Packs one transfer into a contract word: `word[0..20]` is the recipient,
/// `word[20..32]` the amount, big-endian.
pub fn pack_transfer(recipient: [u8; 20], amount: u128) -> (r: [u8; 32])
    requires
        amount < PACKED_AMOUNT_LIMIT,
    ensures
        r@ == packed_word(recipient@, amount as nat),
{
    let mut w: [u8; 32] = [0u8; 32];
    let mut i: usize = 0;
    while i < 20
        invariant
            0 <= i <= 20,
            w@.len() == 32,
            forall|j: int| 0 <= j < i ==> w@[j] == recipient@[j],
        decreases 20 - i,
    {
        w[i] = recipient[i];
        i = i + 1;
    }
    let mut v: u128 = amount;
    let mut k: usize = 32;
    while k > 20
        invariant
            20 <= k <= 32,
            w@.len() == 32,
            forall|j: int| 0 <= j < 20 ==> w@[j] == recipient@[j],
            be_bytes(amount as nat, 12) == be_bytes(v as nat, (k - 20) as nat) + w@.subrange(
                k as int,
                32,
            ),
        decreases k,
    {
        let ghost old_w = w@;
        let ghost n = (k - 20) as nat;
        w[k - 1] = (v % 256) as u8;
        proof {
            assert(be_bytes(v as nat, n) == be_bytes((v / 256) as nat, (n - 1) as nat).push(
                (v % 256) as u8,
            ));
            assert(w@.subrange(k - 1, 32) =~= seq![(v % 256) as u8] + old_w.subrange(
                k as int,
                32,
            ));
            assert(be_bytes(v as nat, n) + old_w.subrange(k as int, 32) =~= be_bytes(
                (v / 256) as nat,
                (n - 1) as nat,
            ) + w@.subrange(k - 1, 32));
        }
        v = v / 256;
        k = k - 1;
    }
    proof {
        assert(be_bytes(v as nat, 0) =~= Seq::<u8>::empty());
        lemma_be_bytes_len(amount as nat, 12);
        assert(w@ =~= packed_word(recipient@, amount as nat));
    }
    w
}

/// Reads a packed word back into its recipient and amount.
pub fn unpack_transfer(word: [u8; 32]) -> (r: ([u8; 20], u128))
    ensures
        r.0@ == word@.subrange(0, 20),
        r.1 as nat == be_value(word@.subrange(20, 32)),
{
    let mut rcp: [u8; 20] = [0u8; 20];
    let mut i: usize = 0;
    while i < 20
        invariant
            0 <= i <= 20,
            rcp@.len() == 20,
            word@.len() == 32,
            forall|j: int| 0 <= j < i ==> rcp@[j] == word@[j],
        decreases 20 - i,
    {
        rcp[i] = word[i];
        i = i + 1;
    }
    let mut v: u128 = 0;
    let mut k: usize = 20;
    while k < 32
        invariant
            20 <= k <= 32,
            word@.len() == 32,
            v as nat == be_value(word@.subrange(20, k as int)),
            v < pow256((k - 20) as nat),
        decreases 32 - k,
    {
        proof {
            lemma_be_value_append(word@.subrange(20, k as int), word@[k as int]);
            assert(word@.subrange(20, k as int).push(word@[k as int]) =~= word@.subrange(
                20,
                k as int + 1,
            ));
            assert(pow256((k - 20) as nat) <= pow256(11)) by {
                lemma_pow256_monotone((k - 20) as nat, 11);
            }
            lemma_pow256_values();
            assert(v * 256 + word@[k as int] < 256 * pow256((k - 20) as nat)) by (nonlinear_arith)
                requires
                    v < pow256((k - 20) as nat),
                    word@[k as int] < 256,
            ;
        }
        v = v * 256 + word[k] as u128;
        k = k + 1;
    }
    assert(rcp@ =~= word@.subrange(0, 20));
    (rcp, v)
}

proof fn lemma_pow256_values()
    ensures
        pow256(11) == 0x100_0000_0000_0000_0000_0000,
        pow256(12) == PACKED_AMOUNT_LIMIT,
        pow256(15) == 0x1_0000_0000_0000_0000_0000_0000_0000_00,
        pow256(16) == 0x1_0000_0000_0000_0000_0000_0000_0000_0000,
{
    reveal_with_fuel(pow256, 17);
}

pub proof fn lemma_pow256_monotone(a: nat, b: nat)
    requires
        a <= b,
    ensures
        pow256(a) <= pow256(b),
    decreases b,
{
    if a < b {
        lemma_pow256_monotone(a, (b - 1) as nat);
        lemma_pow256_positive((b - 1) as nat);
    }
}

/// Reading a concatenation: the first part shifted by the second's length.
pub proof fn lemma_be_value_concat(a: Seq<u8>, b: Seq<u8>)
    ensures
        be_value(a + b) == be_value(a) * pow256(b.len()) + be_value(b),
    decreases b.len(),
{
    if b.len() == 0 {
        assert(a + b =~= a);
        assert(pow256(0) == 1);
    } else {
        let c = b.drop_last();
        lemma_be_value_concat(a, c);
        assert((a + b).drop_last() =~= a + c);
        assert((a + b).last() == b.last());
        assert(be_value(a + b) == be_value(a + c) * 256 + b.last() as nat);
        assert(be_value(b) == be_value(c) * 256 + b.last() as nat);
        assert(pow256(b.len()) == 256 * pow256(c.len()));
        assert((be_value(a) * pow256(c.len()) + be_value(c)) * 256 + b.last() as nat
            == be_value(a) * (256 * pow256(c.len())) + (be_value(c) * 256 + b.last() as nat))
            by (nonlinear_arith);
    }
}

/// Reads `bytes[from..to]`, at most 16 bytes, as a big-endian number.
pub fn be_read_u128(bytes: &[u8], from: usize, to: usize) -> (r: u128)
    requires
        from <= to <= bytes@.len(),
        to - from <= 16,
    ensures
        r as nat == be_value(bytes@.subrange(from as int, to as int)),
{
    let mut v: u128 = 0;
    let mut k: usize = from;
    while k < to
        invariant
            from <= k <= to,
            to <= bytes@.len(),
            to - from <= 16,
            v as nat == be_value(bytes@.subrange(from as int, k as int)),
            v < pow256((k - from) as nat),
        decreases to - k,
    {
        proof {
            lemma_be_value_append(bytes@.subrange(from as int, k as int), bytes@[k as int]);
            assert(bytes@.subrange(from as int, k as int).push(bytes@[k as int]) =~= bytes@.subrange(
                from as int,
                k as int + 1,
            ));
            lemma_pow256_monotone((k - from) as nat, 15);
            lemma_pow256_values();
            assert(v * 256 + bytes@[k as int] < 256 * pow256((k - from) as nat)) by (nonlinear_arith)
                requires
                    v < pow256((k - from) as nat),
                    bytes@[k as int] < 256,
            ;
        }
        v = v * 256 + bytes[k] as u128;
        k = k + 1;
    }
    v
}

/// The two halves of a 32-byte big-endian word: its value is
/// `hi * 2^128 + lo`.
pub fn word_halves(w: &[u8; 32]) -> (r: (u128, u128))
    ensures
        r.0 as nat == be_value(w@.subrange(0, 16)),
        r.1 as nat == be_value(w@.subrange(16, 32)),
        be_value(w@) == r.0 as nat * pow256(16) + r.1 as nat,
{
    let s = w.as_slice();
    let hi = be_read_u128(s, 0, 16);
    let lo = be_read_u128(s, 16, 32);
    proof {
        assert(w@ =~= w@.subrange(0, 16) + w@.subrange(16, 32));
        lemma_be_value_concat(w@.subrange(0, 16), w@.subrange(16, 32));
    }
    (hi, lo)
}

/// The 32-byte big-endian word of a `u128` (an ABI `uint256`).
pub fn u128_word(v: u128) -> (r: [u8; 32])
    ensures
        r@ == be_bytes(v as nat, 32),
        be_value(r@) == v as nat,
{
    let mut w: [u8; 32] = [0u8; 32];
    let mut x: u128 = v;
    let mut k: usize = 32;
    while k > 0
        invariant
            0 <= k <= 32,
            w@.len() == 32,
            be_bytes(v as nat, 32) == be_bytes(x as nat, k as nat) + w@.subrange(k as int, 32),
        decreases k,
    {
        let ghost old_w = w@;
        let ghost n = k as nat;
        w[k - 1] = (x % 256) as u8;
        proof {
            assert(w@.subrange(k - 1, 32) =~= seq![(x % 256) as u8] + old_w.subrange(
                k as int,
                32,
            ));
            assert(be_bytes(x as nat, n) + old_w.subrange(k as int, 32) =~= be_bytes(
                (x / 256) as nat,
                (n - 1) as nat,
            ) + w@.subrange(k - 1, 32));
        }
        x = x / 256;
        k = k - 1;
    }
    proof {
        assert(w@.subrange(0, 32) =~= w@);
        assert(be_bytes(x as nat, 0) + w@ =~= w@);
        lemma_pow256_values();
        lemma_pow256_monotone(16, 32);
        lemma_be_round_trip(v as nat, 32);
    }
    w
}

} // verus!
