use currency_bot::bot_modules::newline::NewLineModule;
use currency_bot::bot_modules::price::{
    command_from_words, format_error, format_quote, invalid_pair_reply, parse_command,
    reply_to_lookup, usage_reply, PriceCommand, PriceModule, PriceReply,
};
use currency_bot::bot_modules::Module;
use currency_bot::domain::{get_all_currency_pairs, CurrencyPair, PriceData, PriceProviderError};
use currency_bot::price_service::provider::PriceProvider;
use currency_bot::price_service::PriceService;
use std::cell::Cell;
use std::rc::Rc;
use std::sync::Arc;

struct Scripted {
    name: &'static str,
    pairs: Vec<CurrencyPair>,
    answer: Result<f64, PriceProviderError>,
    asked: Rc<Cell<usize>>,
}

impl Scripted {
    fn new(
        name: &'static str,
        pairs: &[CurrencyPair],
        answer: Result<f64, PriceProviderError>,
    ) -> (Scripted, Rc<Cell<usize>>) {
        let asked = Rc::new(Cell::new(0));
        let provider = Scripted {
            name,
            pairs: pairs.to_vec(),
            answer,
            asked: Rc::clone(&asked),
        };
        (provider, asked)
    }
}

impl PriceProvider for Scripted {
    type Price = f64;

    fn supports(&self, pair: CurrencyPair) -> bool {
        self.pairs.contains(&pair)
    }

    fn name(&self) -> &str {
        self.name
    }

    fn fetch_price(&self, pair: &CurrencyPair) -> Result<PriceData<f64>, PriceProviderError> {
        self.asked.set(self.asked.get() + 1);
        match &self.answer {
            Ok(price) => Ok(PriceData {
                pair: *pair,
                price: *price,
            }),
            Err(error) => Err(error.clone()),
        }
    }

    fn supports_currency_pair(&self, pair: &CurrencyPair) -> bool {
        self.pairs.contains(pair)
    }
}

fn network(detail: &str) -> PriceProviderError {
    PriceProviderError::Network(detail.to_string())
}

fn ok(price: f64) -> Result<PriceData<f64>, PriceProviderError> {
    Ok(PriceData {
        pair: CurrencyPair::USD2RUB,
        price,
    })
}

fn text_of(reply: Option<PriceReply<f64>>) -> String {
    match reply {
        Some(PriceReply::Text(text)) => text,
        Some(PriceReply::Failed { text, .. }) => text,
        Some(PriceReply::Quote { requested, data }) => {
            format_quote(&requested, &data.pair, &format!("{:.2}", data.price))
        }
        None => panic!("no reply"),
    }
}

#[test]
fn service_skips_a_provider_that_does_not_quote_the_pair() {
    let (first, first_asked) = Scripted::new("first", &[CurrencyPair::USDCe2RUB], Ok(1.0));
    let (second, second_asked) = Scripted::new("second", &[CurrencyPair::USD2RUB], Ok(95.5));
    let mut service = PriceService::new();
    service.add_provider(first);
    service.add_provider(second);
    assert_eq!(service.provider_count(), 2);
    let result = service.get_price(&CurrencyPair::USD2RUB);
    assert_eq!(
        result,
        Ok(PriceData {
            pair: CurrencyPair::USD2RUB,
            price: 95.5
        })
    );
    assert_eq!(first_asked.get(), 0);
    assert_eq!(second_asked.get(), 1);
}

#[test]
fn service_stops_at_the_first_price() {
    let all = get_all_currency_pairs();
    let (first, first_asked) = Scripted::new("first", &all, Err(network("down")));
    let (second, second_asked) = Scripted::new("second", &all, Ok(2.0));
    let (third, third_asked) = Scripted::new("third", &all, Ok(3.0));
    let mut service = PriceService::new();
    service.add_provider(first);
    service.add_provider(second);
    service.add_provider(third);
    let result = service.get_price(&CurrencyPair::USDTe2RUB);
    assert_eq!(
        result,
        Ok(PriceData {
            pair: CurrencyPair::USDTe2RUB,
            price: 2.0
        })
    );
    assert_eq!(first_asked.get(), 1);
    assert_eq!(second_asked.get(), 1);
    assert_eq!(third_asked.get(), 0);
}

#[test]
fn service_reports_every_failure_when_all_providers_fail() {
    let all = get_all_currency_pairs();
    let (first, _) = Scripted::new("first", &all, Err(network("timed out")));
    let (second, _) = Scripted::new(
        "second",
        &all,
        Err(PriceProviderError::Api("status 500".to_string())),
    );
    let (third, third_asked) = Scripted::new(
        "third",
        &[CurrencyPair::USDCe2RUB],
        Err(PriceProviderError::Parsing("never asked".to_string())),
    );
    let mut service = PriceService::new();
    service.add_provider(first);
    service.add_provider(second);
    service.add_provider(third);
    let result = service.get_price(&CurrencyPair::USD2RUB);
    assert_eq!(
        result,
        Err(PriceProviderError::Provider(
            "All providers failed to fetch price for USD/RUB: [Network(\"timed out\"), Api(\"status 500\")]"
                .to_string()
        ))
    );
    assert_eq!(third_asked.get(), 0);
    match result {
        Err(PriceProviderError::Provider(detail)) => {
            assert!(detail.contains("timed out"));
            assert!(detail.contains("status 500"));
        }
        _ => unreachable!(),
    }
}

#[test]
fn service_without_a_provider_for_the_pair_fails_with_an_empty_list() {
    let service: PriceService<Scripted> = PriceService::new();
    assert_eq!(
        service.get_price(&CurrencyPair::USDCe2RUB),
        Err(PriceProviderError::Provider(
            "All providers failed to fetch price for USDCe/RUB: []".to_string()
        ))
    );
    let (only, asked) = Scripted::new("only", &[CurrencyPair::USD2RUB], Ok(1.0));
    let mut service = PriceService::new();
    service.add_provider(only);
    assert_eq!(
        service.get_price(&CurrencyPair::USDTe2RUB),
        Err(PriceProviderError::Provider(
            "All providers failed to fetch price for USDTe/RUB: []".to_string()
        ))
    );
    assert_eq!(asked.get(), 0);
}

#[test]
fn settle_takes_the_first_price() {
    let attempts = vec![Err(network("a")), ok(2.0), Err(network("b")), ok(4.0)];
    assert_eq!(
        PriceService::<Scripted>::settle(&CurrencyPair::USD2RUB, attempts),
        ok(2.0)
    );
}

#[test]
fn settle_lists_the_errors_in_order() {
    let attempts: Vec<Result<PriceData<f64>, PriceProviderError>> = vec![
        Err(PriceProviderError::Provider("p".to_string())),
        Err(PriceProviderError::Parsing("say \"x\"".to_string())),
        Err(network("n")),
        Err(PriceProviderError::Api("a".to_string())),
    ];
    let errors: Vec<PriceProviderError> = attempts
        .iter()
        .map(|attempt| attempt.clone().unwrap_err())
        .collect();
    let expected = format!(
        "All providers failed to fetch price for {}: {:?}",
        CurrencyPair::USDCe2RUB.to_string(),
        errors
    );
    assert_eq!(
        PriceService::<Scripted>::settle(&CurrencyPair::USDCe2RUB, attempts),
        Err(PriceProviderError::Provider(expected))
    );
}

#[test]
fn settle_of_nothing_fails() {
    assert_eq!(
        PriceService::<Scripted>::settle(&CurrencyPair::USD2RUB, Vec::new()),
        Err(PriceProviderError::Provider(
            "All providers failed to fetch price for USD/RUB: []".to_string()
        ))
    );
}

#[test]
fn price_command_parsing() {
    assert_eq!(
        parse_command("/price USD/RUB"),
        PriceCommand::Lookup(CurrencyPair::USD2RUB)
    );
    assert_eq!(
        parse_command("  /price \t USDCe/RUB \n"),
        PriceCommand::Lookup(CurrencyPair::USDCe2RUB)
    );
    assert_eq!(
        parse_command("/price\u{a0}USDTe/RUB"),
        PriceCommand::Lookup(CurrencyPair::USDTe2RUB)
    );
    assert_eq!(parse_command("/price XYZ"), PriceCommand::InvalidPair);
    assert_eq!(parse_command("/price usd/rub"), PriceCommand::InvalidPair);
    assert_eq!(parse_command("/price"), PriceCommand::Usage);
    assert_eq!(parse_command("/price USD/RUB now"), PriceCommand::Usage);
    assert_eq!(parse_command("/priceX USD/RUB"), PriceCommand::Usage);
    assert_eq!(parse_command("/priceUSD/RUB"), PriceCommand::Usage);
    assert_eq!(parse_command(""), PriceCommand::Usage);
    assert_eq!(parse_command("   "), PriceCommand::Usage);
}

#[test]
fn price_replies() {
    assert_eq!(
        invalid_pair_reply(),
        "❌ Invalid currency pair format. Available pairs: USD/RUB, USDCe/RUB, USDTe/RUB"
    );
    assert_eq!(
        usage_reply(),
        "Usage: /price CURRENCY_PAIR\nAvailable pairs: USDCe/RUB, USDTe/RUB, USD/RUB\nExample: /price USD/RUB"
    );
    assert_eq!(
        format_quote(&CurrencyPair::USD2RUB, &CurrencyPair::USD2RUB, "95.50"),
        "💰 USD/RUB Price\n\nCurrency Pair: USD/RUB\nPrice: 95.50"
    );
    for pair in get_all_currency_pairs() {
        assert!(invalid_pair_reply().contains(pair.as_str()));
        assert!(usage_reply().contains(pair.as_str()));
    }
}

#[test]
fn reply_to_a_lookup() {
    match reply_to_lookup(CurrencyPair::USDCe2RUB, ok(1.5)) {
        PriceReply::Quote { requested, data } => {
            assert_eq!(requested, CurrencyPair::USDCe2RUB);
            assert_eq!(data.pair, CurrencyPair::USD2RUB);
            assert_eq!(data.price, 1.5);
        }
        other => panic!("unexpected {:?}", other),
    }
    match reply_to_lookup::<f64>(CurrencyPair::USDCe2RUB, Err(network("x"))) {
        PriceReply::Failed { text, error } => {
            assert_eq!(
                text,
                "🌐 Network error: the price source could not be reached. Please try again later."
            );
            assert_eq!(error, network("x"));
        }
        other => panic!("unexpected {:?}", other),
    }
}

#[test]
fn error_replies_have_one_text_for_each_kind() {
    assert_eq!(
        format_error(&network("timeout")),
        "🌐 Network error: the price source could not be reached. Please try again later."
    );
    assert_eq!(
        format_error(&PriceProviderError::Api("500".to_string())),
        "🔌 API error: the price source turned the request down. Please try again later."
    );
    assert_eq!(
        format_error(&PriceProviderError::Parsing("eof".to_string())),
        "📜 Parsing error: the answer of the price source could not be read."
    );
    assert_eq!(
        format_error(&PriceProviderError::Provider("none".to_string())),
        "❌ Provider error: no price is available for this pair right now."
    );
}

#[test]
fn error_replies_do_not_show_the_detail() {
    let details = ["", "connection reset by peer", "status 503", "[Network(\"x\")]"];
    let kinds: [fn(String) -> PriceProviderError; 4] = [
        PriceProviderError::Network,
        PriceProviderError::Api,
        PriceProviderError::Parsing,
        PriceProviderError::Provider,
    ];
    let mut texts = Vec::new();
    for kind in kinds {
        let text = format_error(&kind("secret detail".to_string()));
        assert!(!text.contains("secret detail"));
        for detail in details {
            assert_eq!(format_error(&kind(detail.to_string())), text);
        }
        texts.push(text);
    }
    for i in 0..texts.len() {
        for j in 0..texts.len() {
            assert_eq!(texts[i] == texts[j], i == j);
        }
    }
}

#[test]
fn price_command_from_words() {
    let words = |parts: &[&str]| -> Vec<String> { parts.iter().map(|p| p.to_string()).collect() };
    assert_eq!(
        command_from_words(&words(&["/price", "USD/RUB"])),
        PriceCommand::Lookup(CurrencyPair::USD2RUB)
    );
    assert_eq!(
        command_from_words(&words(&["/price", "XYZ"])),
        PriceCommand::InvalidPair
    );
    assert_eq!(command_from_words(&words(&["/price"])), PriceCommand::Usage);
    assert_eq!(
        command_from_words(&words(&["/price", "USD/RUB", "x"])),
        PriceCommand::Usage
    );
    assert_eq!(
        command_from_words(&words(&["/prices", "USD/RUB"])),
        PriceCommand::Usage
    );
    assert_eq!(command_from_words(&words(&[])), PriceCommand::Usage);
}

#[test]
fn price_module_quotes_the_price_end_to_end() {
    let (provider, _) = Scripted::new("p", &get_all_currency_pairs(), Ok(95.5));
    let mut service = PriceService::new();
    service.add_provider(provider);
    let module = PriceModule::new(Arc::new(service));
    let reply = text_of(module.handle(Some("/price USD/RUB")));
    assert!(reply.contains("USD/RUB"));
    assert!(reply.contains("95.50"));
    assert_eq!(
        reply,
        "💰 USD/RUB Price\n\nCurrency Pair: USD/RUB\nPrice: 95.50"
    );
}

#[test]
fn price_module_rejects_what_is_no_pair() {
    let (provider, asked) = Scripted::new("p", &get_all_currency_pairs(), Ok(95.5));
    let mut service = PriceService::new();
    service.add_provider(provider);
    let module = PriceModule::new(Arc::new(service));
    let reply = text_of(module.handle(Some("/price XYZ")));
    assert_eq!(
        reply,
        "❌ Invalid currency pair format. Available pairs: USD/RUB, USDCe/RUB, USDTe/RUB"
    );
    assert!(reply.contains("USD/RUB"));
    assert!(reply.contains("USDCe/RUB"));
    assert!(reply.contains("USDTe/RUB"));
    assert_eq!(asked.get(), 0);
}

#[test]
fn price_module_explains_the_command() {
    let service: PriceService<Scripted> = PriceService::new();
    let module = PriceModule::new(Arc::new(service));
    let usage = usage_reply();
    assert_eq!(text_of(module.handle(Some("/price"))), usage);
    assert_eq!(text_of(module.handle(Some("/price a b"))), usage);
    assert_eq!(text_of(module.handle(Some("/pricefoo USD/RUB"))), usage);
    assert!(module.handle(None).is_none());
}

#[test]
fn price_module_reports_a_failed_lookup() {
    let (provider, _) = Scripted::new("p", &get_all_currency_pairs(), Err(network("down")));
    let mut service = PriceService::new();
    service.add_provider(provider);
    let module = PriceModule::new(Arc::new(service));
    match module.handle(Some("/price USDCe/RUB")) {
        Some(PriceReply::Failed { text, error }) => {
            assert_eq!(
                text,
                "❌ Provider error: no price is available for this pair right now."
            );
            assert_eq!(
                error,
                PriceProviderError::Provider(
                    "All providers failed to fetch price for USDCe/RUB: [Network(\"down\")]"
                        .to_string()
                )
            );
        }
        other => panic!("unexpected {:?}", other),
    }
}

#[test]
fn price_module_name_and_commands() {
    let service: PriceService<Scripted> = PriceService::new();
    let module = PriceModule::new(Arc::new(service));
    assert_eq!(module.name(), "PriceModule");
    assert_eq!(module.commands(), vec!["/price"]);
}

#[test]
fn newline_module_quotes_the_stablecoin() {
    let (provider, asked) = Scripted::new("p", &[CurrencyPair::USDTe2RUB], Ok(80.126));
    let mut service = PriceService::new();
    service.add_provider(provider);
    let module = NewLineModule::new(Arc::new(service));
    assert_eq!(module.name(), "NewLineModule");
    assert_eq!(module.commands(), vec!["/newLine"]);
    assert_eq!(
        text_of(Some(module.handle())),
        "💰 USDTe/RUB Price\n\nCurrency Pair: USDTe/RUB\nPrice: 80.13"
    );
    assert_eq!(asked.get(), 1);
}

#[test]
fn newline_module_reports_a_failed_lookup() {
    let service: PriceService<Scripted> = PriceService::new();
    let module = NewLineModule::new(Arc::new(service));
    match module.handle() {
        PriceReply::Failed { text, error } => {
            assert_eq!(
                text,
                "❌ Provider error: no price is available for this pair right now."
            );
            assert_eq!(
                error,
                PriceProviderError::Provider(
                    "All providers failed to fetch price for USDTe/RUB: []".to_string()
                )
            );
        }
        other => panic!("unexpected {:?}", other),
    }
}
