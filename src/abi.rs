//! Contract calls as bytes: a method selector followed by the ABI encoding
//! of the arguments. The codec itself is ethabi's.

use vstd::prelude::*;
use crate::packing::pow256;

verus! {

/// The argument types of the token, multi-transfer and faucet methods.
#[derive(Clone, Copy, Debug, PartialEq, Eq, Structural)]
pub enum AbiParam {
    Address,
    Uint256,
    Bytes32Array,
}

/// An argument value.
#[derive(Clone, Debug)]
pub enum AbiToken {
    Address([u8; 20]),
    Uint(u128),
    /// The largest `uint256`, `2^256 - 1`.
    UintMax,
    Bytes32Array(Vec<[u8; 32]>),
}

/// What an argument value denotes.
pub enum AbiValue {
    Address(Seq<u8>),
    Uint(nat),
    Bytes32Array(Seq<Seq<u8>>),
}

/// `2^256 - 1`.
pub open spec fn uint256_max() -> nat {
    (pow256(32) - 1) as nat
}

impl AbiToken {
    pub open spec fn view(&self) -> AbiValue {
        match self {
            AbiToken::Address(a) => AbiValue::Address(a@),
            AbiToken::Uint(v) => AbiValue::Uint(*v as nat),
            AbiToken::UintMax => AbiValue::Uint(uint256_max()),
            AbiToken::Bytes32Array(ws) => AbiValue::Bytes32Array(ws@.map_values(|w: [u8; 32]| w@)),
        }
    }
}

pub open spec fn token_values(ts: Seq<AbiToken>) -> Seq<AbiValue> {
    ts.map_values(|t: AbiToken| t.view())
}

/// What `ethabi::short_signature` returns for a method name and its
/// parameter types.
pub uninterp spec fn selector_of(name: Seq<char>, params: Seq<AbiParam>) -> Seq<u8>;

/// What `ethabi::encode` returns for a list of argument values.
pub uninterp spec fn abi_encoding(values: Seq<AbiValue>) -> Seq<u8>;

/// Relies on `ethabi::short_signature`: the first four bytes of the
/// Keccak-256 hash of the method's canonical signature.
#[verifier::external_body]
fn method_selector(name: &str, params: &Vec<AbiParam>) -> (r: [u8; 4])
    ensures
        r@ == selector_of(name@, params@),
{
    let p: Vec<ethabi::ParamType> = params.iter().map(|k| match k {
        AbiParam::Address => ethabi::ParamType::Address,
        AbiParam::Uint256 => ethabi::ParamType::Uint(256),
        AbiParam::Bytes32Array => ethabi::ParamType::Array(
            Box::new(ethabi::ParamType::FixedBytes(32)),
        ),
    }).collect();
    ethabi::short_signature(name, &p)
}

/// Relies on `ethabi::encode`: the ABI encoding of the argument values.
#[verifier::external_body]
fn abi_encode(tokens: &Vec<AbiToken>) -> (r: Vec<u8>)
    ensures
        r@ == abi_encoding(token_values(tokens@)),
{
    let t: Vec<ethabi::Token> = tokens.iter().map(|x| match x {
        AbiToken::Address(a) => ethabi::Token::Address(ethabi::Address::from(*a)),
        AbiToken::Uint(v) => ethabi::Token::Uint(ethabi::Uint::from(*v)),
        AbiToken::UintMax => ethabi::Token::Uint(ethabi::Uint::MAX),
        AbiToken::Bytes32Array(ws) => ethabi::Token::Array(
            ws.iter().map(|w| ethabi::Token::FixedBytes(w.to_vec())).collect(),
        ),
    }).collect();
    ethabi::encode(&t)
}

/// The call data of a method: its selector, then its encoded arguments.
pub open spec fn call_data(name: Seq<char>, params: Seq<AbiParam>, args: Seq<AbiValue>) -> Seq<u8> {
    selector_of(name, params) + abi_encoding(args)
}

/// Encodes a call of `name` with the given parameter types and arguments.
pub fn encode_call(name: &str, params: &Vec<AbiParam>, args: &Vec<AbiToken>) -> (r: Vec<u8>)
    ensures
        r@ == call_data(name@, params@, token_values(args@)),
{
    let sel = method_selector(name, params);
    let mut out: Vec<u8> = Vec::new();
    let mut i: usize = 0;
    while i < 4
        invariant
            0 <= i <= 4,
            sel@.len() == 4,
            out@ == sel@.subrange(0, i as int),
        decreases 4 - i,
    {
        out.push(sel[i]);
        i = i + 1;
        assert(out@ =~= sel@.subrange(0, i as int));
    }
    let enc = abi_encode(args);
    let mut j: usize = 0;
    while j < enc.len()
        invariant
            0 <= j <= enc.len(),
            sel@.len() == 4,
            out@ == sel@ + enc@.subrange(0, j as int),
        decreases enc.len() - j,
    {
        out.push(enc[j]);
        j = j + 1;
        assert(out@ =~= sel@ + enc@.subrange(0, j as int));
    }
    assert(sel@.subrange(0, 4) =~= sel@);
    assert(enc@.subrange(0, enc@.len() as int) =~= enc@);
    out
}

pub open spec fn transfer_params() -> Seq<AbiParam> {
    seq![AbiParam::Address, AbiParam::Uint256]
}

/// `transfer(recipient, amount)` of the token contract.
pub fn transfer_call(recipient: [u8; 20], amount: u128) -> (r: Vec<u8>)
    ensures
        r@ == call_data(
            "transfer"@,
            transfer_params(),
            seq![AbiValue::Address(recipient@), AbiValue::Uint(amount as nat)],
        ),
{
    let params = vec![AbiParam::Address, AbiParam::Uint256];
    let args = vec![AbiToken::Address(recipient), AbiToken::Uint(amount)];
    assert(params@ =~= transfer_params());
    assert(token_values(args@) =~= seq![
        AbiValue::Address(recipient@),
        AbiValue::Uint(amount as nat),
    ]);
    encode_call("transfer", &params, &args)
}

/// `approve(spender, 2^256 - 1)` of the token contract: an unlimited
/// allowance.
pub fn approve_max_call(spender: [u8; 20]) -> (r: Vec<u8>)
    ensures
        r@ == call_data(
            "approve"@,
            transfer_params(),
            seq![AbiValue::Address(spender@), AbiValue::Uint(uint256_max())],
        ),
{
    let params = vec![AbiParam::Address, AbiParam::Uint256];
    let args = vec![AbiToken::Address(spender), AbiToken::UintMax];
    assert(params@ =~= transfer_params());
    assert(token_values(args@) =~= seq![
        AbiValue::Address(spender@),
        AbiValue::Uint(uint256_max()),
    ]);
    encode_call("approve", &params, &args)
}

/// `create()` of the faucet contract.
pub fn faucet_create_call() -> (r: Vec<u8>)
    ensures
        r@ == call_data("create"@, Seq::empty(), Seq::empty()),
{
    let params: Vec<AbiParam> = Vec::new();
    let args: Vec<AbiToken> = Vec::new();
    assert(params@ =~= Seq::<AbiParam>::empty());
    assert(token_values(args@) =~= Seq::<AbiValue>::empty());
    encode_call("create", &params, &args)
}

/// `golemTransferDirectPacked(words)` of the multi-transfer contract.
pub fn transfer_direct_packed_call(words: Vec<[u8; 32]>) -> (r: Vec<u8>)
    ensures
        r@ == call_data(
            "golemTransferDirectPacked"@,
            seq![AbiParam::Bytes32Array],
            seq![AbiValue::Bytes32Array(words@.map_values(|w: [u8; 32]| w@))],
        ),
{
    let ghost wv = words@.map_values(|w: [u8; 32]| w@);
    let params = vec![AbiParam::Bytes32Array];
    let args = vec![AbiToken::Bytes32Array(words)];
    assert(params@ =~= seq![AbiParam::Bytes32Array]);
    assert(token_values(args@) =~= seq![AbiValue::Bytes32Array(wv)]);
    encode_call("golemTransferDirectPacked", &params, &args)
}

/// `golemTransferIndirectPacked(words, sum)` of the multi-transfer contract.
pub fn transfer_indirect_packed_call(words: Vec<[u8; 32]>, sum: u128) -> (r: Vec<u8>)
    ensures
        r@ == call_data(
            "golemTransferIndirectPacked"@,
            seq![AbiParam::Bytes32Array, AbiParam::Uint256],
            seq![
                AbiValue::Bytes32Array(words@.map_values(|w: [u8; 32]| w@)),
                AbiValue::Uint(sum as nat),
            ],
        ),
{
    let ghost wv = words@.map_values(|w: [u8; 32]| w@);
    let params = vec![AbiParam::Bytes32Array, AbiParam::Uint256];
    let args = vec![AbiToken::Bytes32Array(words), AbiToken::Uint(sum)];
    assert(params@ =~= seq![AbiParam::Bytes32Array, AbiParam::Uint256]);
    assert(token_values(args@) =~= seq![AbiValue::Bytes32Array(wv), AbiValue::Uint(sum as nat)]);
    encode_call("golemTransferIndirectPacked", &params, &args)
}

} // verus!
