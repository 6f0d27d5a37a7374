//! Gas-price policy: the price of a first broadcast and of a resend.
//!
//! All prices are in wei.

use vstd::prelude::*;
use crate::network::Network;

verus! {

/// One gwei in wei.
pub const GWEI: u128 = 1_000_000_000;

/// The largest gas price, in wei, that the policy computes with. Every
/// price derived from one at or below it fits in `u128`.
pub const MAX_GAS_PRICE: u128 = 1_000_000_000_000_000_000_000_000_000_000_000_000;

/// The flat amount added to a node's price to move ahead in the queue.
pub const QUEUE_JUMP_BUMP: u128 = 1000;

/// Default ceiling of the dynamic Polygon mode: 1000 gwei.
pub const POLYGON_DEFAULT_DYNAMIC_MAX: u128 = 1_000_000_000_000;

/// Priority tier on the Polygon sidechain, read from `POLYGON_PRIORITY`.
#[derive(Clone, Copy, Debug, PartialEq, Eq, Structural)]
pub enum PolygonPriority {
    PolygonPrioritySlow,
    PolygonPriorityFast,
    PolygonPriorityExpress,
}

/// How prices are chosen on the Polygon sidechain, read from
/// `POLYGON_GAS_PRICE_METHOD`.
#[derive(Clone, Copy, Debug, PartialEq, Eq, Structural)]
pub enum PolygonGasPriceMethod {
    PolygonGasPriceStatic,
    PolygonGasPriceDynamic,
}

/// The preferred price ladder of a priority tier, lowest rung first.
pub open spec fn ladder(p: PolygonPriority) -> Seq<u128> {
    match p {
        PolygonPriority::PolygonPrioritySlow => seq![
            0,
            10_010_000_000,
            15_010_000_000,
            20_010_000_000,
            25_010_000_000,
            30_010_000_000,
        ],
        PolygonPriority::PolygonPriorityFast => seq![0, 30_010_000_000, 40_010_000_000],
        PolygonPriority::PolygonPriorityExpress => seq![0, 60_010_000_000, 100_010_000_000],
    }
}

/// The preferred prices of a priority tier, in wei, lowest rung first.
pub fn polygon_ladder(p: PolygonPriority) -> (r: Vec<u128>)
    ensures
        r@ == ladder(p),
{
    let r: Vec<u128> = match p {
        PolygonPriority::PolygonPrioritySlow => vec![
            0,
            10_010_000_000,
            15_010_000_000,
            20_010_000_000,
            25_010_000_000,
            30_010_000_000,
        ],
        PolygonPriority::PolygonPriorityFast => vec![0, 30_010_000_000, 40_010_000_000],
        PolygonPriority::PolygonPriorityExpress => vec![0, 60_010_000_000, 100_010_000_000],
    };
    assert(r@ =~= ladder(p));
    r
}

/// The starting price of a tier: the first non-zero rung.
pub fn get_polygon_starting_price(p: PolygonPriority) -> (r: u128)
    ensures
        r == ladder(p)[1],
{
    let l = polygon_ladder(p);
    l[1]
}

/// The ceiling: the top rung in static mode, the configured dynamic
/// ceiling otherwise.
pub fn get_polygon_maximum_price(
    method: PolygonGasPriceMethod,
    p: PolygonPriority,
    dynamic_max: u128,
) -> (r: u128)
    ensures
        method == PolygonGasPriceMethod::PolygonGasPriceStatic ==> r == ladder(p).last(),
        method == PolygonGasPriceMethod::PolygonGasPriceDynamic ==> r == dynamic_max,
{
    match method {
        PolygonGasPriceMethod::PolygonGasPriceStatic => {
            let l = polygon_ladder(p);
            l[l.len() - 1]
        },
        PolygonGasPriceMethod::PolygonGasPriceDynamic => dynamic_max,
    }
}

/// The dynamic ceiling: the configured one, else 1000 gwei.
pub fn get_polygon_max_gas_price_dynamic(configured: Option<u128>) -> (r: u128)
    ensures
        r == match configured {
            Some(v) => v,
            None => POLYGON_DEFAULT_DYNAMIC_MAX,
        },
{
    match configured {
        Some(v) => v,
        None => POLYGON_DEFAULT_DYNAMIC_MAX,
    }
}

/// What `str::to_lowercase` returns for a string.
pub uninterp spec fn lower_of(s: Seq<char>) -> Seq<char>;

/// Relies on `str::to_lowercase`: the result depends on the characters alone.
#[verifier::external_body]
fn lowercase(s: &str) -> (r: String)
    ensures
        r@ == lower_of(s@),
{
    s.to_lowercase()
}

pub open spec fn method_of_lowercase(s: Seq<char>) -> PolygonGasPriceMethod {
    if s == "static"@ {
        PolygonGasPriceMethod::PolygonGasPriceStatic
    } else {
        PolygonGasPriceMethod::PolygonGasPriceDynamic
    }
}

pub open spec fn priority_of_lowercase(s: Seq<char>) -> PolygonPriority {
    if s == "fast"@ {
        PolygonPriority::PolygonPriorityFast
    } else if s == "express"@ {
        PolygonPriority::PolygonPriorityExpress
    } else {
        PolygonPriority::PolygonPrioritySlow
    }
}

/// The method named by an already lowercased setting: `static`, else dynamic.
pub fn gas_price_method_from_lowercase(s: &String) -> (r: PolygonGasPriceMethod)
    ensures
        r == method_of_lowercase(s@),
{
    let st = String::from_str("static");
    if *s == st {
        PolygonGasPriceMethod::PolygonGasPriceStatic
    } else {
        PolygonGasPriceMethod::PolygonGasPriceDynamic
    }
}

/// The tier named by an already lowercased setting: `fast`, `express`,
/// else slow.
pub fn priority_from_lowercase(s: &String) -> (r: PolygonPriority)
    ensures
        r == priority_of_lowercase(s@),
{
    let fast = String::from_str("fast");
    let express = String::from_str("express");
    if *s == fast {
        PolygonPriority::PolygonPriorityFast
    } else if *s == express {
        PolygonPriority::PolygonPriorityExpress
    } else {
        PolygonPriority::PolygonPrioritySlow
    }
}

/// The method given by the value of `POLYGON_GAS_PRICE_METHOD`, if set;
/// matching ignores case, and the default is dynamic.
pub fn get_polygon_gas_price_method(setting: Option<&str>) -> (r: PolygonGasPriceMethod)
    ensures
        r == match setting {
            Some(s) => method_of_lowercase(lower_of(s@)),
            None => PolygonGasPriceMethod::PolygonGasPriceDynamic,
        },
{
    match setting {
        Some(s) => {
            let l = lowercase(s);
            gas_price_method_from_lowercase(&l)
        },
        None => PolygonGasPriceMethod::PolygonGasPriceDynamic,
    }
}

/// The tier given by the value of `POLYGON_PRIORITY`, if set; matching
/// ignores case, and the default is slow.
pub fn get_polygon_priority(setting: Option<&str>) -> (r: PolygonPriority)
    ensures
        r == match setting {
            Some(s) => priority_of_lowercase(lower_of(s@)),
            None => PolygonPriority::PolygonPrioritySlow,
        },
{
    match setting {
        Some(s) => {
            let l = lowercase(s);
            priority_from_lowercase(&l)
        },
        None => PolygonPriority::PolygonPrioritySlow,
    }
}

/// The least price a resend may use: `ceil(previous * 1.11)`.
pub open spec fn min_bump(previous: nat) -> nat {
    ((previous * 111 + 99) / 100) as nat
}

/// The first rung of `l` strictly above `floor`, or `floor` when none is.
pub open spec fn rung_above(l: Seq<u128>, floor: nat) -> nat
    decreases l.len(),
{
    if l.len() == 0 {
        floor
    } else if l[0] > floor {
        l[0] as nat
    } else {
        rung_above(l.drop_first(), floor)
    }
}

/// The price of a resend that follows one at `previous`.
pub open spec fn bumped_price(
    previous: nat,
    method: PolygonGasPriceMethod,
    p: PolygonPriority,
) -> nat {
    match method {
        PolygonGasPriceMethod::PolygonGasPriceDynamic => min_bump(previous),
        PolygonGasPriceMethod::PolygonGasPriceStatic => rung_above(ladder(p), min_bump(previous)),
    }
}

proof fn lemma_rung_above_at_least(l: Seq<u128>, floor: nat)
    ensures
        rung_above(l, floor) >= floor,
    decreases l.len(),
{
    if l.len() > 0 && l[0] <= floor {
        lemma_rung_above_at_least(l.drop_first(), floor);
    }
}

/// The price of a resend: at least 11% above the previous one so that
/// nodes accept the replacement; in static mode rounded up to the next
/// rung of the tier's ladder when there is one. A configured maximum does
/// not lower it.
pub fn bump_gas_price(
    previous: u128,
    method: PolygonGasPriceMethod,
    p: PolygonPriority,
) -> (r: u128)
    requires
        previous <= MAX_GAS_PRICE,
    ensures
        r == bumped_price(previous as nat, method, p),
        r >= min_bump(previous as nat),
        r > previous || previous == 0,
{
    let min_gas: u128 = (previous * 111 + 99) / 100;
    assert(min_gas as nat == min_bump(previous as nat));
    assert(min_gas > previous || previous == 0) by (nonlinear_arith)
        requires min_gas == (previous * 111 + 99) / 100;
    proof {
        lemma_rung_above_at_least(ladder(p), min_gas as nat);
    }
    match method {
        PolygonGasPriceMethod::PolygonGasPriceDynamic => min_gas,
        PolygonGasPriceMethod::PolygonGasPriceStatic => {
            let l = polygon_ladder(p);
            let mut i: usize = 0;
            assert(l@.subrange(0, l@.len() as int) =~= l@);
            while i < l.len()
                invariant
                    0 <= i <= l.len(),
                    l@ == ladder(p),
                    method == PolygonGasPriceMethod::PolygonGasPriceStatic,
                    min_gas as nat == min_bump(previous as nat),
                    min_gas > previous || previous == 0,
                    rung_above(l@.subrange(i as int, l@.len() as int), min_gas as nat)
                        == rung_above(ladder(p), min_gas as nat),
                decreases l.len() - i,
            {
                assert(l@.subrange(i as int + 1, l@.len() as int) =~= l@.subrange(
                    i as int,
                    l@.len() as int,
                ).drop_first());
                if l[i] > min_gas {
                    assert(l@.subrange(i as int, l@.len() as int)[0] == l[i as int]);
                    return l[i];
                }
                i = i + 1;
            }
            min_gas
        },
    }
}

/// A node's quote with the queue-jumping amount added when the quote
/// exceeds a million wei.
pub open spec fn queue_jump_spec(node_price: nat) -> nat {
    if node_price / 1000 > 1000 {
        (node_price + QUEUE_JUMP_BUMP) as nat
    } else {
        node_price
    }
}

pub fn get_network_gas_price_eth(node_price: u128) -> (r: u128)
    requires
        node_price <= MAX_GAS_PRICE,
    ensures
        r == queue_jump_spec(node_price as nat),
{
    if node_price / 1000 > 1000 {
        node_price + QUEUE_JUMP_BUMP
    } else {
        node_price
    }
}

/// The price a node's quote becomes on a non-sidechain network: 1000 wei
/// more when the quote exceeds a million wei, then 20% more on Rinkeby.
pub open spec fn network_price_spec(node_price: nat, network: Network) -> nat {
    let p = queue_jump_spec(node_price);
    if network == Network::Rinkeby {
        (p * 1200 / 1000) as nat
    } else {
        p
    }
}

/// Adjusts a node's `eth_gasPrice` quote for a first broadcast.
pub fn network_gas_price(node_price: u128, network: Network) -> (r: u128)
    requires
        node_price <= MAX_GAS_PRICE,
    ensures
        r == network_price_spec(node_price as nat, network),
        r >= node_price,
{
    let mut p = get_network_gas_price_eth(node_price);
    if network == Network::Rinkeby {
        // p * 1200 / 1000 without the intermediate product
        assert(p * 1200 / 1000 == p + p / 5) by (nonlinear_arith);
        p = p + p / 5;
    }
    p
}

/// The price of an approval or faucet call: the node's quote times 1.5.
pub fn boosted_gas_price(node_price: u128) -> (r: u128)
    requires
        node_price <= MAX_GAS_PRICE,
    ensures
        r == node_price * 15 / 10,
{
    node_price * 15 / 10
}

} // verus!
