use currency_bot::domain::{
    get_all_currency_pairs, CurrencyPair, ErrorKind, PriceData, PriceProviderError,
};
use currency_bot::price_service::providers::newline_provider::{NewLineConfig, NewLineProvider};

fn provider() -> NewLineProvider {
    let config = NewLineConfig {
        base_url: "https://test.com".to_string(),
        cookie: "test_cookie".to_string(),
        preferred_city: "spb".to_string(),
    };
    NewLineProvider::new(config)
}

#[test]
fn test_currency_pair_parsing() {
    assert_eq!(
        CurrencyPair::from_str("USD/RUB"),
        Some(CurrencyPair::USD2RUB)
    );
    assert_eq!(
        CurrencyPair::from_str("USDCe/RUB"),
        Some(CurrencyPair::USDCe2RUB)
    );
    assert_eq!(
        CurrencyPair::from_str("USDTe/RUB"),
        Some(CurrencyPair::USDTe2RUB)
    );
    assert_eq!(CurrencyPair::from_str("INVALID"), None);
}

#[test]
fn test_currency_pair_mapping() {
    let provider = provider();

    // Test mapping indirectly through supports_currency_pair
    assert!(provider.supports_currency_pair(&CurrencyPair::USDCe2RUB));
    assert!(provider.supports_currency_pair(&CurrencyPair::USDTe2RUB));
    assert!(provider.supports_currency_pair(&CurrencyPair::USD2RUB));
}

#[test]
fn test_currency_pair_support() {
    let provider = provider();

    assert!(provider.supports_currency_pair(&CurrencyPair::USDCe2RUB));
    assert!(provider.supports_currency_pair(&CurrencyPair::USDTe2RUB));
    assert!(provider.supports_currency_pair(&CurrencyPair::USD2RUB));
}

#[test]
fn test_get_all_currency_pairs() {
    let pairs = get_all_currency_pairs();
    assert_eq!(pairs.len(), 3);
    assert!(pairs.contains(&CurrencyPair::USD2RUB));
    assert!(pairs.contains(&CurrencyPair::USDCe2RUB));
    assert!(pairs.contains(&CurrencyPair::USDTe2RUB));
}

#[test]
fn all_pairs_come_in_a_fixed_order() {
    assert_eq!(
        get_all_currency_pairs(),
        vec![
            CurrencyPair::USDCe2RUB,
            CurrencyPair::USDTe2RUB,
            CurrencyPair::USD2RUB
        ]
    );
}

#[test]
fn parsing_the_text_of_a_pair_gives_the_pair() {
    for pair in get_all_currency_pairs() {
        assert_eq!(CurrencyPair::from_str(&pair.to_string()), Some(pair));
        assert_eq!(CurrencyPair::from_str(pair.as_str()), Some(pair));
    }
}

#[test]
fn pair_texts() {
    assert_eq!(CurrencyPair::USDCe2RUB.to_string(), "USDCe/RUB");
    assert_eq!(CurrencyPair::USDTe2RUB.to_string(), "USDTe/RUB");
    assert_eq!(CurrencyPair::USD2RUB.to_string(), "USD/RUB");
}

#[test]
fn parsing_is_exact() {
    assert_eq!(CurrencyPair::from_str(""), None);
    assert_eq!(CurrencyPair::from_str("usd/rub"), None);
    assert_eq!(CurrencyPair::from_str("USD/RUB "), None);
    assert_eq!(CurrencyPair::from_str(" USD/RUB"), None);
    assert_eq!(CurrencyPair::from_str("USD/RUBX"), None);
    assert_eq!(CurrencyPair::from_str("USDCe/RU"), None);
}

#[test]
fn error_messages() {
    assert_eq!(
        PriceProviderError::Network("timeout".to_string()).to_string(),
        "Network error: timeout"
    );
    assert_eq!(
        PriceProviderError::Api("bad status".to_string()).to_string(),
        "API error: bad status"
    );
    assert_eq!(
        PriceProviderError::Parsing("eof".to_string()).to_string(),
        "Parsing error: eof"
    );
    assert_eq!(
        PriceProviderError::Provider("no data".to_string()).to_string(),
        "Provider-specific error: no data"
    );
}

#[test]
fn error_kinds_and_details() {
    let errors = vec![
        (PriceProviderError::Network("a".to_string()), ErrorKind::Network),
        (PriceProviderError::Api("b".to_string()), ErrorKind::Api),
        (PriceProviderError::Parsing("c".to_string()), ErrorKind::Parsing),
        (PriceProviderError::Provider("d".to_string()), ErrorKind::Provider),
    ];
    let details = ["a", "b", "c", "d"];
    for (i, (error, kind)) in errors.iter().enumerate() {
        assert_eq!(error.kind(), *kind);
        assert_eq!(error.detail(), details[i]);
    }
}

#[test]
fn debug_string_is_what_the_debug_format_writes() {
    let errors = vec![
        PriceProviderError::Network("plain".to_string()),
        PriceProviderError::Api("with \"quotes\" and \\ backslash".to_string()),
        PriceProviderError::Parsing("line\nbreak\ttab".to_string()),
        PriceProviderError::Provider("кириллица".to_string()),
        PriceProviderError::Provider(String::new()),
    ];
    for error in &errors {
        assert_eq!(error.debug_string(), format!("{:?}", error));
    }
    assert_eq!(
        PriceProviderError::Network("a\"b".to_string()).debug_string(),
        "Network(\"a\\\"b\")"
    );
}

#[test]
fn price_data_keeps_what_it_was_given() {
    let data = PriceData {
        pair: CurrencyPair::USD2RUB,
        price: 95.5,
    };
    assert_eq!(data.pair, CurrencyPair::USD2RUB);
    assert_eq!(data.price, 95.5);
    assert_eq!(data.clone(), data);
}
