//! The interface a price source offers to the price service.

use crate::domain::{CurrencyPair, PriceData, PriceProviderError};
use vstd::prelude::*;

verus! {

/// A source of prices for some of the currency pairs.
pub trait PriceProvider {
    /// How this provider represents a price.
    type Price;

    /// Whether the provider quotes `pair`. The answer never changes: the
    /// same pair always gets the same one.
    spec fn supports(&self, pair: CurrencyPair) -> bool;

    /// The name of the provider.
    fn name(&self) -> &str;

    /// Asks the source for the price of `pair`. Nothing is promised of the
    /// outcome: it is whatever the source answered.
    fn fetch_price(&self, pair: &CurrencyPair) -> Result<
        PriceData<Self::Price>,
        PriceProviderError,
    >;

    /// Whether the provider quotes `pair`.
    fn supports_currency_pair(&self, pair: &CurrencyPair) -> (b: bool)
        ensures
            b == self.supports(*pair),
    ;
}

} // verus!
