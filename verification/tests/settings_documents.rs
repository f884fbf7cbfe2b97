use ticker_alerts::price::Price;
use ticker_alerts::registry::Registry;
use ticker_alerts::settings::AppSettings;
use ticker_alerts::sounds::resolve_sound;
use ticker_alerts::symbol::Symbol;
use ticker_alerts::ticker::TickerState;

fn price(value: f64) -> Price {
    Price::from_bits(value.to_bits())
}

fn values(prices: &Vec<Price>) -> Vec<f64> {
    prices.iter().map(|p| f64::from_bits(p.to_bits())).collect()
}

fn names(symbols: &Vec<Symbol>) -> Vec<String> {
    symbols.iter().map(|s| s.as_str().to_string()).collect()
}

fn record(symbol: &str, alerts: Vec<f64>, last: f64) -> TickerState {
    TickerState::from_parts(
        Symbol::new(symbol),
        alerts.into_iter().map(price).collect(),
        price(last),
    )
}

fn describe(registry: &Registry) -> Vec<(String, Vec<u64>, u64)> {
    registry
        .tickers()
        .iter()
        .map(|t| {
            (
                t.symbol().as_str().to_string(),
                t.alerts().iter().map(|p| p.to_bits()).collect(),
                t.last_price().to_bits(),
            )
        })
        .collect()
}

#[test]
fn default_document_is_empty_with_the_default_sound() {
    let document = AppSettings::default_document();
    assert!(document.tickers.is_empty());
    assert!(document.ticker_order.is_empty());
    assert_eq!(document.selected_sound, "beep.mp3");
}

#[test]
fn missing_document_loads_as_the_default() {
    let document = AppSettings::load(None);
    assert!(document.tickers.is_empty());
    assert!(document.ticker_order.is_empty());
    assert_eq!(document.selected_sound, "beep.mp3");
}

#[test]
fn order_of_another_length_is_rebuilt_from_the_tickers() {
    let document = AppSettings {
        tickers: vec![record("ethusdt", vec![], 0.0), record("btcusdt", vec![], 0.0), record("bnbusdt", vec![], 0.0)],
        selected_sound: "beep2_loud.mp3".to_string(),
        ticker_order: vec![Symbol::new("btcusdt")],
    };
    let loaded = AppSettings::load(Some(document));
    assert_eq!(names(&loaded.ticker_order), vec!["ETHUSDT", "BTCUSDT", "BNBUSDT"]);
    assert_eq!(loaded.selected_sound, "beep2_loud.mp3");
    assert_eq!(loaded.tickers.len(), 3);

    let empty_order = AppSettings {
        tickers: vec![record("ethusdt", vec![], 0.0)],
        selected_sound: "beep.mp3".to_string(),
        ticker_order: Vec::new(),
    };
    assert_eq!(names(&empty_order.normalize().ticker_order), vec!["ETHUSDT"]);

    let too_long = AppSettings {
        tickers: Vec::new(),
        selected_sound: "beep.mp3".to_string(),
        ticker_order: vec![Symbol::new("btcusdt")],
    };
    assert!(too_long.normalize().ticker_order.is_empty());
}

#[test]
fn order_that_permutes_the_tickers_is_kept() {
    let document = AppSettings {
        tickers: vec![record("ethusdt", vec![], 0.0), record("btcusdt", vec![], 0.0), record("bnbusdt", vec![], 0.0)],
        selected_sound: "beep.mp3".to_string(),
        ticker_order: vec![Symbol::new("bnbusdt"), Symbol::new("ethusdt"), Symbol::new("btcusdt")],
    };
    let loaded = AppSettings::load(Some(document));
    assert_eq!(names(&loaded.ticker_order), vec!["BNBUSDT", "ETHUSDT", "BTCUSDT"]);
}

#[test]
fn order_of_the_right_length_that_is_no_permutation_is_rebuilt() {
    let document = AppSettings {
        tickers: vec![record("ethusdt", vec![], 0.0), record("btcusdt", vec![], 0.0)],
        selected_sound: "beep.mp3".to_string(),
        ticker_order: vec![Symbol::new("btcusdt"), Symbol::new("btcusdt")],
    };
    assert_eq!(names(&document.normalize().ticker_order), vec!["ETHUSDT", "BTCUSDT"]);
    let stranger = AppSettings {
        tickers: vec![record("ethusdt", vec![], 0.0), record("btcusdt", vec![], 0.0)],
        selected_sound: "beep.mp3".to_string(),
        ticker_order: vec![Symbol::new("btcusdt"), Symbol::new("xrpusdt")],
    };
    assert_eq!(names(&stranger.normalize().ticker_order), vec!["ETHUSDT", "BTCUSDT"]);
}

#[test]
fn snapshot_holds_the_registry() {
    let mut registry = Registry::new();
    registry.set_alerts(&Symbol::new("btcusdt"), vec![price(100.0), price(200.0)]);
    registry.set_alerts(&Symbol::new("ethusdt"), vec![price(3.5)]);
    assert!(registry.set_last_price(&Symbol::new("btcusdt"), price(150.0)).is_ok());
    registry.set_selected_sound("beep3_vibish.mp3".to_string());
    registry.update_ticker_order(vec![Symbol::new("ethusdt"), Symbol::new("btcusdt")]);
    let document = registry.snapshot();
    assert_eq!(document.selected_sound, "beep3_vibish.mp3");
    assert_eq!(names(&document.ticker_order), vec!["ETHUSDT", "BTCUSDT"]);
    assert_eq!(document.tickers.len(), 2);
    assert_eq!(document.tickers[0].symbol().as_str(), "BTCUSDT");
    assert_eq!(values(document.tickers[0].alerts()), vec![100.0, 200.0]);
    assert_eq!(document.tickers[0].last_price().to_bits(), 150.0f64.to_bits());
    assert_eq!(document.tickers[1].symbol().as_str(), "ETHUSDT");
    assert_eq!(values(document.tickers[1].alerts()), vec![3.5]);
    assert_eq!(document.tickers[1].last_price().to_bits(), 0.0f64.to_bits());
}

#[test]
fn restore_subscribes_and_fills_every_record() {
    let document = AppSettings {
        tickers: vec![record("btcusdt", vec![100.0, 200.0], 150.0), record("ethusdt", vec![], 9.0)],
        selected_sound: "beep6_dingding.mp3".to_string(),
        ticker_order: vec![Symbol::new("ethusdt"), Symbol::new("btcusdt")],
    };
    let registry = Registry::restore(Some(document));
    assert_eq!(registry.selected_sound(), "beep6_dingding.mp3");
    assert_eq!(names(registry.ticker_order()), vec!["ETHUSDT", "BTCUSDT"]);
    assert_eq!(names(registry.subscriptions()), vec!["BTCUSDT", "ETHUSDT"]);
    assert_eq!(values(&registry.get_alerts(&Symbol::new("btcusdt"))), vec![100.0, 200.0]);
    assert_eq!(
        registry.last_price(&Symbol::new("btcusdt")).map(|p| p.to_bits()),
        Some(150.0f64.to_bits())
    );
    assert!(registry.get_alerts(&Symbol::new("ethusdt")).is_empty());
    assert_eq!(
        registry.last_price(&Symbol::new("ethusdt")).map(|p| p.to_bits()),
        Some(9.0f64.to_bits())
    );
}

#[test]
fn restored_last_price_decides_the_next_crossing() {
    let document = AppSettings {
        tickers: vec![record("btcusdt", vec![100.0], 150.0)],
        selected_sound: "beep.mp3".to_string(),
        ticker_order: vec![Symbol::new("btcusdt")],
    };
    let mut registry = Registry::from_document(document);
    assert_eq!(registry.process_tick(&Symbol::new("btcusdt"), price(120.0)).len(), 1);
    assert_eq!(registry.process_tick(&Symbol::new("btcusdt"), price(90.0)).len(), 2);
    assert!(registry.get_alerts(&Symbol::new("btcusdt")).is_empty());
}

#[test]
fn later_record_of_a_symbol_overrides_the_earlier_one() {
    let document = AppSettings {
        tickers: vec![record("btcusdt", vec![100.0], 1.0), record("BTCUSDT", vec![7.0], 2.0)],
        selected_sound: "beep.mp3".to_string(),
        ticker_order: Vec::new(),
    };
    let registry = Registry::from_document(document);
    assert_eq!(registry.tickers().len(), 1);
    assert_eq!(names(registry.subscriptions()), vec!["BTCUSDT"]);
    assert_eq!(values(&registry.get_alerts(&Symbol::new("btcusdt"))), vec![7.0]);
    assert_eq!(
        registry.last_price(&Symbol::new("btcusdt")).map(|p| p.to_bits()),
        Some(2.0f64.to_bits())
    );
}

#[test]
fn save_then_restore_gives_the_registry_back() {
    let mut registry = Registry::new();
    assert!(registry.add_alert(&Symbol::new("btcusdt"), price(100.0)).is_ok());
    assert!(registry.add_alert(&Symbol::new("btcusdt"), price(-0.0)).is_ok());
    assert!(registry.add_alert(&Symbol::new("ethusdt"), price(f64::NAN)).is_ok());
    assert!(registry.add_alert(&Symbol::new("bnbusdt"), price(0.001)).is_ok());
    assert!(registry.set_last_price(&Symbol::new("ethusdt"), price(1234.5)).is_ok());
    registry.set_selected_sound("beep5_reporter.mp3".to_string());
    registry.update_ticker_order(vec![
        Symbol::new("bnbusdt"),
        Symbol::new("btcusdt"),
        Symbol::new("ethusdt"),
    ]);

    let back = Registry::restore(Some(registry.snapshot()));
    assert_eq!(describe(&back), describe(&registry));
    assert_eq!(back.selected_sound(), registry.selected_sound());
    assert_eq!(names(back.ticker_order()), names(registry.ticker_order()));
    assert_eq!(names(back.ticker_order()), vec!["BNBUSDT", "BTCUSDT", "ETHUSDT"]);
}

#[test]
fn restore_without_a_stored_document_starts_empty() {
    let registry = Registry::restore(None);
    assert!(registry.tickers().is_empty());
    assert!(registry.subscriptions().is_empty());
    assert!(registry.ticker_order().is_empty());
    assert_eq!(registry.selected_sound(), "beep.mp3");
}

#[test]
fn restore_repairs_the_order_of_the_stored_document() {
    let document = AppSettings {
        tickers: vec![record("ethusdt", vec![1.0], 2.0), record("btcusdt", vec![], 0.0)],
        selected_sound: "beep.mp3".to_string(),
        ticker_order: vec![Symbol::new("btcusdt")],
    };
    let registry = Registry::restore(Some(document));
    assert_eq!(names(registry.ticker_order()), vec!["ETHUSDT", "BTCUSDT"]);
    assert_eq!(names(registry.subscriptions()), vec!["ETHUSDT", "BTCUSDT"]);
}

#[test]
fn save_then_restore_of_an_empty_registry() {
    let registry = Registry::new();
    let back = Registry::restore(Some(registry.snapshot()));
    assert!(back.tickers().is_empty());
    assert!(back.subscriptions().is_empty());
    assert!(back.ticker_order().is_empty());
    assert_eq!(back.selected_sound(), "beep.mp3");
}

#[test]
fn save_then_restore_repairs_an_order_that_is_no_permutation() {
    let mut registry = Registry::new();
    assert!(registry.add_alert(&Symbol::new("btcusdt"), price(100.0)).is_ok());
    let back = Registry::restore(Some(registry.snapshot()));
    assert_eq!(describe(&back), describe(&registry));
    assert!(registry.ticker_order().is_empty());
    assert_eq!(names(back.ticker_order()), vec!["BTCUSDT"]);
}

#[test]
fn known_sound_plays_itself_and_any_other_the_default() {
    for known in [
        "beep.mp3",
        "beep2_loud.mp3",
        "beep3_vibish.mp3",
        "beep4_voice.mp3",
        "beep5_reporter.mp3",
        "beep6_dingding.mp3",
    ] {
        assert_eq!(resolve_sound(known), known);
    }
    assert_eq!(resolve_sound("siren.mp3"), "beep.mp3");
    assert_eq!(resolve_sound(""), "beep.mp3");
    assert_eq!(resolve_sound("BEEP.MP3"), "beep.mp3");
}
