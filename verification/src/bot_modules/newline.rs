//! The module that quotes the NewLine price of the stablecoin.

use crate::bot_modules::price::{answer, reply_to_lookup, PriceReply};
use crate::bot_modules::Module;
use crate::domain::{CurrencyPair, PriceData, PriceProviderError};
use crate::price_service::provider::PriceProvider;
use crate::price_service::PriceService;
use std::sync::Arc;
use vstd::prelude::*;

verus! {

/// NewLine module for handling NewLine-specific commands.
pub struct NewLineModule<P: PriceProvider> {
    price_service: Arc<PriceService<P>>,
}

impl<P: PriceProvider> NewLineModule<P> {
    /// The price service that the module asks.
    pub closed spec fn service(&self) -> PriceService<P> {
        *self.price_service
    }

    /// Create a new NewLineModule instance.
    pub fn new(price_service: Arc<PriceService<P>>) -> (module: Self)
        ensures
            module.service() == *price_service,
    {
        NewLineModule { price_service }
    }

    /// The reply to a message, whatever it says: the price service is asked
    /// for USDT to RUB, and the reply quotes its price or, where the lookup
    /// failed, is the text for the kind of the error.
    pub fn handle(&self) -> (reply: PriceReply<P::Price>)
        ensures
            exists|result: Result<PriceData<P::Price>, PriceProviderError>|
                #[trigger] self.service().may_answer(CurrencyPair::USDTe2RUB, result) && reply@
                    == answer(CurrencyPair::USDTe2RUB, result),
    {
        let pair = CurrencyPair::USDTe2RUB;
        let result = self.price_service.get_price(&pair);
        let ghost outcome = result;
        let reply = reply_to_lookup(pair, result);
        assert(self.service().may_answer(pair, outcome));
        reply
    }
}

impl<P: PriceProvider> Module for NewLineModule<P> {
    fn name(&self) -> (name: &str)
        ensures
            name@ == "NewLineModule"@,
    {
        "NewLineModule"
    }

    fn commands(&self) -> (commands: Vec<&str>)
        ensures
            commands@.len() == 1,
            commands@[0]@ == "/newLine"@,
    {
        let mut commands: Vec<&str> = Vec::new();
        commands.push("/newLine");
        commands
    }
}

} // verus!
