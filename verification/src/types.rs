//! Price quotations as the source reports them, price records as the
//! warehouse stores them, and the progress document kept between runs.

use crate::time::Timestamp;
use vstd::prelude::*;

verus! {

/// One price component. The amount is an IEEE 754 double, held by its bit
/// pattern: the library moves amounts and never computes with them.
#[derive(Clone, Copy, Debug, PartialEq, Eq, Structural)]
pub struct Price {
    pub bits: u64,
}

impl Price {
    /// The amount `0.0`.
    pub open spec fn zero() -> Price {
        Price { bits: 0 }
    }

    pub fn from_bits(bits: u64) -> (p: Price)
        ensures
            p.bits == bits,
    {
        Price { bits }
    }

    pub fn to_bits(&self) -> (bits: u64)
        ensures
            bits == self.bits,
    {
        self.bits
    }

    /// The amount `0.0`, for a component that a later step fills in.
    pub fn unset() -> (p: Price)
        ensures
            p == Price::zero(),
    {
        Price { bits: 0 }
    }
}

/// What an optional text holds.
pub open spec fn text_of(text: Option<String>) -> Option<Seq<char>> {
    match text {
        Some(s) => Some(s@),
        None => None,
    }
}

/// One hourly quotation with its validity window `[from, till)`.
#[derive(Debug, PartialEq, Eq)]
pub struct SpotPrice {
    pub id: Option<String>,
    pub source: Option<String>,
    pub from: Timestamp,
    pub till: Timestamp,
    pub market_price: Price,
    pub market_price_tax: Price,
    pub sourcing_markup_price: Price,
    pub energy_tax_price: Price,
}

/// The value of a [`SpotPrice`].
pub ghost struct SpotPriceView {
    pub id: Option<Seq<char>>,
    pub source: Option<Seq<char>>,
    pub from: Timestamp,
    pub till: Timestamp,
    pub market_price: Price,
    pub market_price_tax: Price,
    pub sourcing_markup_price: Price,
    pub energy_tax_price: Price,
}

impl View for SpotPrice {
    type V = SpotPriceView;

    open spec fn view(&self) -> SpotPriceView {
        SpotPriceView {
            id: text_of(self.id),
            source: text_of(self.source),
            from: self.from,
            till: self.till,
            market_price: self.market_price,
            market_price_tax: self.market_price_tax,
            sourcing_markup_price: self.sourcing_markup_price,
            energy_tax_price: self.energy_tax_price,
        }
    }
}

impl SpotPriceView {
    /// The window lasts one hour.
    pub open spec fn is_hourly(self) -> bool {
        self.from.has_window_end() && self.till == self.from.window_end()
    }
}

impl Clone for SpotPrice {
    fn clone(&self) -> (copy: SpotPrice)
        ensures
            copy == *self,
    {
        let id = match &self.id {
            Some(s) => Some(s.clone()),
            None => None,
        };
        let source = match &self.source {
            Some(s) => Some(s.clone()),
            None => None,
        };
        SpotPrice {
            id,
            source,
            from: self.from,
            till: self.till,
            market_price: self.market_price,
            market_price_tax: self.market_price_tax,
            sourcing_markup_price: self.sourcing_markup_price,
            energy_tax_price: self.energy_tax_price,
        }
    }
}

/// The values of a list of records, in order.
pub open spec fn views_of(records: Seq<SpotPrice>) -> Seq<SpotPriceView> {
    records.map_values(|r: SpotPrice| r@)
}

/// Copies a list of records.
pub fn copy_records(records: &Vec<SpotPrice>) -> (copy: Vec<SpotPrice>)
    ensures
        copy@ == records@,
{
    let mut copy: Vec<SpotPrice> = Vec::new();
    let mut i: usize = 0;
    while i < records.len()
        invariant
            i <= records.len(),
            copy@ == records@.take(i as int),
        decreases records.len() - i,
    {
        copy.push(records[i].clone());
        assert(records@.take(i as int).push(records@[i as int]) == records@.take(i + 1));
        i += 1;
    }
    assert(records@.take(records.len() as int) == records@);
    copy
}

/// The progress document: where the last successful run stopped, and the
/// records that were still in the future then.
#[derive(Debug, PartialEq, Eq)]
pub struct State {
    pub future_spot_prices: Vec<SpotPrice>,
    pub last_from: Timestamp,
}

/// The value of a [`State`].
pub ghost struct StateView {
    pub future_spot_prices: Seq<SpotPriceView>,
    pub last_from: Timestamp,
}

impl View for State {
    type V = StateView;

    open spec fn view(&self) -> StateView {
        StateView {
            future_spot_prices: views_of(self.future_spot_prices@),
            last_from: self.last_from,
        }
    }
}

impl Clone for State {
    fn clone(&self) -> (copy: State)
        ensures
            copy@ == self@,
            copy.future_spot_prices@ == self.future_spot_prices@,
    {
        State { future_spot_prices: copy_records(&self.future_spot_prices), last_from: self.last_from }
    }
}

/// One quotation as the price source reports it.
#[derive(Debug, PartialEq, Eq)]
pub struct SpotPricePrice {
    pub energy: Price,
    pub tax: Price,
    pub currency: String,
    pub starts_at: Timestamp,
}

/// The quotations of today and of tomorrow, each list in the order of the source.
#[derive(Debug, PartialEq, Eq)]
pub struct SpotPriceInfo {
    pub today: Vec<SpotPricePrice>,
    pub tomorrow: Vec<SpotPricePrice>,
}

#[derive(Debug, PartialEq, Eq)]
pub struct SpotPriceSubscription {
    pub price_info: SpotPriceInfo,
}

#[derive(Debug, PartialEq, Eq)]
pub struct SpotPriceHome {
    pub current_subscription: SpotPriceSubscription,
}

#[derive(Debug, PartialEq, Eq)]
pub struct SpotPriceViewer {
    pub homes: Vec<SpotPriceHome>,
}

#[derive(Debug, PartialEq, Eq)]
pub struct SpotPriceData {
    pub viewer: SpotPriceViewer,
}

/// The answer of the price source to one request.
#[derive(Debug, PartialEq, Eq)]
pub struct SpotPriceResponse {
    pub data: SpotPriceData,
}

} // verus!
