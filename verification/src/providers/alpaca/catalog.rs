//! The asset catalog: which assets become instruments, and what they allow.

use vstd::prelude::*;

use crate::event::{Instrument, Price, Quantity};

use super::config::{provider_instrument, stock};

verus! {

#[derive(Clone, Copy, Debug, PartialEq, Eq, Structural)]
pub enum OrderType {
    Market,
    Limit,
    Stop,
    StopLimit,
}

#[derive(Clone, Copy, Debug, PartialEq, Eq, Structural)]
pub enum TimeInForce {
    Day,
}

/// What orders an instrument allows; `None` where that is not known.
#[derive(Debug, PartialEq, Eq)]
pub struct InstrumentCapabilities {
    pub fractionable: Option<bool>,
    pub supports_notional_orders: Option<bool>,
    pub allowed_order_types: Option<Vec<OrderType>>,
    pub allowed_tif: Option<Vec<TimeInForce>>,
    pub min_qty: Option<Quantity>,
    pub qty_increment: Option<Quantity>,
    pub price_increment: Option<Price>,
    pub min_notional: Option<Price>,
}

/// An instrument of a provider's catalog.
#[derive(Debug, PartialEq, Eq)]
pub struct InstrumentEntry {
    pub instrument: Instrument,
    pub capabilities: Option<InstrumentCapabilities>,
}

/// Asset classes of the catalog. Options, perpetuals and plain crypto are
/// not part of this provider's taxonomy.
#[derive(Clone, Copy, Debug, PartialEq, Eq, Structural)]
pub enum AlpacaAssetClass {
    UsEquity,
    Other,
}

/// One row of the catalog.
#[derive(Debug, PartialEq, Eq)]
pub struct Asset {
    pub class: AlpacaAssetClass,
    pub symbol: String,
    pub tradable: bool,
    pub fractionable: bool,
}

/// Whether the capabilities are those of an equity: fractional orders only
/// where the asset allows them, notional orders always, the order types and
/// the time in force of fractional orders, and no known increments.
pub open spec fn are_equity_capabilities(c: InstrumentCapabilities, fractionable: bool) -> bool {
    &&& c.fractionable == Some(fractionable)
    &&& c.supports_notional_orders == Some(true)
    &&& c.allowed_order_types is Some
    &&& c.allowed_order_types->0@ == seq![
        OrderType::Market,
        OrderType::Limit,
        OrderType::Stop,
        OrderType::StopLimit,
    ]
    &&& c.allowed_tif is Some
    &&& c.allowed_tif->0@ == seq![TimeInForce::Day]
    &&& c.min_qty is None
    &&& c.qty_increment is None
    &&& c.price_increment is None
    &&& c.min_notional is None
}

/// The capabilities of one equity.
pub fn equity_capabilities(asset: &Asset) -> (r: InstrumentCapabilities)
    ensures
        are_equity_capabilities(r, asset.fractionable),
{
    let order_types = vec![OrderType::Market, OrderType::Limit, OrderType::Stop, OrderType::StopLimit];
    let tif = vec![TimeInForce::Day];
    proof {
        assert(order_types@ =~= seq![
            OrderType::Market,
            OrderType::Limit,
            OrderType::Stop,
            OrderType::StopLimit,
        ]);
        assert(tif@ =~= seq![TimeInForce::Day]);
    }
    InstrumentCapabilities {
        fractionable: Some(asset.fractionable),
        supports_notional_orders: Some(true),
        allowed_order_types: Some(order_types),
        allowed_tif: Some(tif),
        min_qty: None,
        qty_increment: None,
        price_increment: None,
        min_notional: None,
    }
}

/// Whether an asset becomes an instrument.
pub open spec fn is_listed(a: Asset) -> bool {
    a.tradable && a.class is UsEquity
}

/// The assets that become instruments, in order.
pub open spec fn listed_assets(assets: Seq<Asset>) -> Seq<Asset>
    decreases assets.len(),
{
    if assets.len() == 0 {
        seq![]
    } else if is_listed(assets.last()) {
        listed_assets(assets.drop_last()).push(assets.last())
    } else {
        listed_assets(assets.drop_last())
    }
}

pub open spec fn is_entry_of(e: InstrumentEntry, a: Asset) -> bool {
    &&& e.instrument@ == stock(a.symbol@)
    &&& e.capabilities is Some
    &&& are_equity_capabilities(e.capabilities->0, a.fractionable)
}

/// The instruments of the catalog: tradable equities, in order.
pub fn assets_to_entries(assets: &[Asset]) -> (r: Vec<InstrumentEntry>)
    ensures
        r@.len() == listed_assets(assets@).len(),
        forall|i: int|
            0 <= i < r@.len() ==> is_entry_of(#[trigger] r@[i], listed_assets(assets@)[i]),
{
    let mut out: Vec<InstrumentEntry> = Vec::new();
    let mut k: usize = 0;
    proof {
        assert(assets@.take(0) =~= seq![]);
    }
    while k < assets.len()
        invariant
            0 <= k <= assets@.len(),
            out@.len() == listed_assets(assets@.take(k as int)).len(),
            forall|i: int|
                0 <= i < out@.len() ==> is_entry_of(
                    #[trigger] out@[i],
                    listed_assets(assets@.take(k as int))[i],
                ),
        decreases assets@.len() - k,
    {
        let a = &assets[k];
        proof {
            assert(assets@.take(k as int + 1).drop_last() =~= assets@.take(k as int));
            assert(assets@.take(k as int + 1).last() == assets@[k as int]);
        }
        let equity = match a.class {
            AlpacaAssetClass::UsEquity => true,
            AlpacaAssetClass::Other => false,
        };
        if a.tradable && equity {
            out.push(
                InstrumentEntry {
                    instrument: provider_instrument(a.symbol.as_str()),
                    capabilities: Some(equity_capabilities(a)),
                },
            );
        }
        k += 1;
    }
    proof {
        assert(assets@.take(k as int) =~= assets@);
    }
    out
}

/// The catalog holds exactly the tradable equities, each as the provider's
/// instrument of its own symbol, and fractional orders only where the asset
/// allows them.
pub proof fn law_catalog_holds_the_tradable_equities(assets: Seq<Asset>, a: Asset, e: InstrumentEntry)
    ensures
        listed_assets(assets).contains(a) <==> assets.contains(a) && a.tradable && a.class
            is UsEquity,
        is_entry_of(e, a) ==> {
            &&& e.instrument@.symbol == a.symbol@
            &&& e.instrument@.asset_class is Equity
            &&& e.capabilities->0.fractionable == Some(a.fractionable)
            &&& e.capabilities->0.supports_notional_orders == Some(true)
            &&& e.capabilities->0.allowed_order_types->0@.contains(OrderType::Market)
            &&& e.capabilities->0.allowed_order_types->0@.contains(OrderType::Limit)
            &&& e.capabilities->0.allowed_order_types->0@.contains(OrderType::Stop)
            &&& e.capabilities->0.allowed_order_types->0@.contains(OrderType::StopLimit)
            &&& e.capabilities->0.allowed_tif->0@.contains(TimeInForce::Day)
        },
    decreases assets.len(),
{
    if is_entry_of(e, a) {
        let types = e.capabilities->0.allowed_order_types->0@;
        assert(types[0] == OrderType::Market && types[1] == OrderType::Limit);
        assert(types[2] == OrderType::Stop && types[3] == OrderType::StopLimit);
        assert(e.capabilities->0.allowed_tif->0@[0] == TimeInForce::Day);
    }
    if assets.len() > 0 {
        let d = assets.drop_last();
        law_catalog_holds_the_tradable_equities(d, a, e);
        assert(assets =~= d.push(assets.last()));
        lemma_pushed(d, assets.last(), a);
        lemma_pushed(listed_assets(d), assets.last(), a);
    }
}

proof fn lemma_pushed(list: Seq<Asset>, x: Asset, a: Asset)
    ensures
        list.push(x).contains(a) <==> (list.contains(a) || a == x),
{
    let p = list.push(x);
    if list.contains(a) {
        let i = choose|i: int| 0 <= i < list.len() && list[i] == a;
        assert(p[i] == a);
    }
    if a == x {
        assert(p[list.len() as int] == a);
    }
    if p.contains(a) {
        let i = choose|i: int| 0 <= i < p.len() && p[i] == a;
        if i < list.len() {
            assert(list[i] == a);
        }
    }
}

} // verus!
