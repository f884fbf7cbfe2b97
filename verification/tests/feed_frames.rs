use ticker_alerts::feed::{
    connector_step, decode_frame, feed_endpoint, frame_from_fields, stream_address, ConnectorStep,
    FeedEvent,
};
use ticker_alerts::price::Price;
use ticker_alerts::symbol::Symbol;

#[test]
fn endpoint_names_the_stream_in_lowercase() {
    assert_eq!(
        feed_endpoint(&Symbol::new("BTCUSDT")),
        "wss://stream.binance.com:9443/ws/btcusdt@ticker"
    );
    assert_eq!(
        feed_endpoint(&Symbol::new("ethUsdt")),
        "wss://stream.binance.com:9443/ws/ethusdt@ticker"
    );
}

#[test]
fn stream_address_wraps_the_name() {
    assert_eq!(stream_address("btcusdt"), "wss://stream.binance.com:9443/ws/btcusdt@ticker");
    assert_eq!(stream_address(""), "wss://stream.binance.com:9443/ws/@ticker");
}

#[test]
fn ticker_frame_gives_symbol_and_price() {
    let text = r#"{"e":"24hrTicker","E":1700000000000,"s":"BTCUSDT","p":"-12.5","c":"43250.12000000","n":12345}"#;
    let frame = decode_frame(text).unwrap();
    assert_eq!(frame.symbol, "BTCUSDT");
    assert_eq!(frame.price, "43250.12000000");
}

#[test]
fn smallest_frame_has_the_two_fields() {
    let frame = decode_frame(r#" { "c" : "1" , "s" : "x" } "#).unwrap();
    assert_eq!(frame.symbol, "x");
    assert_eq!(frame.price, "1");
    let escaped = decode_frame(r#"{"s":"AB","c":"1.5"}"#).unwrap();
    assert_eq!(escaped.symbol, "AB");
    assert_eq!(escaped.price, "1.5");
}

#[test]
fn text_that_is_no_json_says_nothing() {
    assert!(decode_frame("").is_none());
    assert!(decode_frame("ping").is_none());
    assert!(decode_frame("{\"s\":\"BTCUSDT\",\"c\":\"1\"").is_none());
    assert!(decode_frame("{\"s\":\"BTCUSDT\",\"c\":\"1\"} trailing").is_none());
}

#[test]
fn frame_without_a_price_field_says_nothing() {
    assert!(decode_frame(r#"{"s":"BTCUSDT"}"#).is_none());
    assert!(decode_frame(r#"{"c":"1.0"}"#).is_none());
    assert!(decode_frame(r#"{}"#).is_none());
    assert!(decode_frame(r#"{"result":null,"id":1}"#).is_none());
}

#[test]
fn frame_of_another_shape_says_nothing() {
    assert!(decode_frame(r#"{"s":"BTCUSDT","c":43250.12}"#).is_none());
    assert!(decode_frame(r#"{"s":7,"c":"43250.12"}"#).is_none());
    assert!(decode_frame(r#"{"s":"BTCUSDT","c":null}"#).is_none());
    assert!(decode_frame(r#"["BTCUSDT","43250.12"]"#).is_none());
    assert!(decode_frame(r#""BTCUSDT""#).is_none());
    assert!(decode_frame("null").is_none());
    assert!(decode_frame("42").is_none());
}

#[test]
fn frame_needs_both_fields() {
    let frame = frame_from_fields(Some("BTCUSDT"), Some("1.5")).unwrap();
    assert_eq!(frame.symbol, "BTCUSDT");
    assert_eq!(frame.price, "1.5");
    assert!(frame_from_fields(Some("BTCUSDT"), None).is_none());
    assert!(frame_from_fields(None, Some("1.5")).is_none());
    assert!(frame_from_fields(None, None).is_none());
}

#[test]
fn frame_with_a_price_is_forwarded() {
    let price = Price::from_bits(43250.12f64.to_bits());
    match connector_step(FeedEvent::Frame(Some(price))) {
        ConnectorStep::Forward(forwarded) => assert_eq!(forwarded.to_bits(), 43250.12f64.to_bits()),
        other => panic!("expected a forward, got {other:?}"),
    }
}

#[test]
fn frame_without_a_price_is_skipped() {
    assert!(matches!(connector_step(FeedEvent::Frame(None)), ConnectorStep::Skip));
}

#[test]
fn connector_ends_when_the_connection_does() {
    assert!(matches!(connector_step(FeedEvent::Closed), ConnectorStep::Exit));
    assert!(matches!(connector_step(FeedEvent::Cancelled), ConnectorStep::Exit));
    assert!(matches!(connector_step(FeedEvent::ReceiverGone), ConnectorStep::Exit));
}
