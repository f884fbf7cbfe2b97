//! The feed side: where a symbol's feed is found, what one of its frames
//! says, and what the connector does with each thing that happens on the
//! connection.

use vstd::prelude::*;
use vstd::string::StringExecFns;
use crate::price::Price;
use crate::symbol::Symbol;

verus! {

/// `serde_json::Value`, a parsed JSON value. The library carries it from the
/// parser to the two accessors below and sees nothing inside it.
#[verifier::external_type_specification]
#[verifier::external_body]
pub struct ExJsonValue(serde_json::Value);

/// The JSON value that a text denotes; `None` for a text that is not one
/// JSON value.
pub uninterp spec fn json_document(text: Seq<char>) -> Option<serde_json::Value>;

/// The member `key` of a JSON object; `None` for an object without it and for
/// a value that is no object.
pub uninterp spec fn json_member(value: serde_json::Value, key: Seq<char>) -> Option<
    serde_json::Value,
>;

/// The text of a JSON string; `None` for any other value.
pub uninterp spec fn json_text(value: serde_json::Value) -> Option<Seq<char>>;

/// The lowercase form of a text, as `str::to_lowercase` of the standard
/// library gives it.
pub uninterp spec fn lowercase(text: Seq<char>) -> Seq<char>;

/// Calls `serde_json::from_str` for a `serde_json::Value`. It reads the whole
/// text as one JSON value or fails; the contract gives what it read the name
/// [`json_document`], with `None` for a failure, whose reason is dropped.
#[verifier::external_body]
fn parse_json(text: &str) -> (parsed: Option<serde_json::Value>)
    ensures
        parsed == json_document(text@),
{
    serde_json::from_str::<serde_json::Value>(text).ok()
}

/// Calls `serde_json::Value::get` with a string key. It returns the member of
/// that name where the value is an object that has one, else `None`; the
/// contract gives that the name [`json_member`].
#[verifier::external_body]
fn member<'a>(value: &'a serde_json::Value, key: &str) -> (found: Option<&'a serde_json::Value>)
    ensures
        match found {
            Some(inner) => json_member(*value, key@) == Some(*inner),
            None => json_member(*value, key@).is_none(),
        },
{
    value.get(key)
}

/// Calls `serde_json::Value::as_str`. It returns the text where the value is
/// a JSON string, else `None`; the contract gives that the name
/// [`json_text`].
#[verifier::external_body]
fn text_of<'a>(value: &'a serde_json::Value) -> (text: Option<&'a str>)
    ensures
        match text {
            Some(inner) => json_text(*value) == Some(inner@),
            None => json_text(*value).is_none(),
        },
{
    value.as_str()
}

/// Calls `str::to_lowercase`. The standard library returns the lowercase
/// equivalent of the text as a new string; the contract gives that string the
/// name [`lowercase`] and claims nothing else of it.
#[verifier::external_body]
fn to_lowercase(text: &str) -> (lower: String)
    ensures
        lower@ == lowercase(text@),
{
    text.to_lowercase()
}

/// The address of the ticker stream of the given name.
pub open spec fn address_of(stream: Seq<char>) -> Seq<char> {
    "wss://stream.binance.com:9443/ws/"@ + stream + "@ticker"@
}

/// The address of the feed of `symbol`: that of the stream named by the
/// symbol in lowercase.
pub open spec fn endpoint_of(symbol: Seq<char>) -> Seq<char> {
    address_of(lowercase(symbol))
}

/// The address of the ticker stream of the given name.
pub fn stream_address(stream: &str) -> (address: String)
    ensures
        address@ == address_of(stream@),
{
    let mut address = String::from_str("wss://stream.binance.com:9443/ws/");
    address.append(stream);
    address.append("@ticker");
    address
}

/// The address at which the feed of `symbol` is found.
pub fn feed_endpoint(symbol: &Symbol) -> (address: String)
    ensures
        address@ == endpoint_of(symbol@),
{
    let lower = to_lowercase(symbol.as_str());
    stream_address(lower.as_str())
}

/// What a frame of the feed says, as mathematics.
pub struct FrameView {
    pub symbol: Seq<char>,
    pub price: Seq<char>,
}

/// What a frame of the feed says: the symbol, and the last price as the
/// decimal text in which the feed writes it.
#[derive(Debug)]
pub struct TickerStream {
    pub symbol: String,
    pub price: String,
}

impl View for TickerStream {
    type V = FrameView;

    open spec fn view(&self) -> FrameView {
        FrameView { symbol: self.symbol@, price: self.price@ }
    }
}

/// The frame with the given fields: there is one where both are present.
pub open spec fn frame_of(symbol: Option<Seq<char>>, price: Option<Seq<char>>) -> Option<
    FrameView,
> {
    match (symbol, price) {
        (Some(symbol), Some(price)) => Some(FrameView { symbol, price }),
        _ => None,
    }
}

/// The text of the member `key` of a JSON value: there is one where the
/// value is an object whose member of that name is a string.
pub open spec fn text_member(document: serde_json::Value, key: Seq<char>) -> Option<Seq<char>> {
    match json_member(document, key) {
        Some(inner) => json_text(inner),
        None => None,
    }
}

/// What the text of a frame says: it is a frame where it is a JSON object
/// with a string `s`, the symbol, and a string `c`, the last price.
pub open spec fn decoded(text: Seq<char>) -> Option<FrameView> {
    match json_document(text) {
        Some(document) => frame_of(text_member(document, "s"@), text_member(document, "c"@)),
        None => None,
    }
}

/// The views of an optional frame.
pub open spec fn frame_view(frame: Option<TickerStream>) -> Option<FrameView> {
    match frame {
        Some(frame) => Some(frame@),
        None => None,
    }
}

/// The views of an optional text.
pub open spec fn text_view(text: Option<&str>) -> Option<Seq<char>> {
    match text {
        Some(text) => Some(text@),
        None => None,
    }
}

/// Builds a frame from the two fields that were found in it: there is none
/// unless both are there.
pub fn frame_from_fields(symbol: Option<&str>, price: Option<&str>) -> (frame: Option<
    TickerStream,
>)
    ensures
        frame_view(frame) == frame_of(text_view(symbol), text_view(price)),
{
    match symbol {
        Some(symbol) => match price {
            Some(price) => Some(
                TickerStream { symbol: String::from_str(symbol), price: String::from_str(price) },
            ),
            None => None,
        },
        None => None,
    }
}

/// The text member `key` of a parsed document.
fn field<'a>(document: &'a serde_json::Value, key: &str) -> (text: Option<&'a str>)
    ensures
        text_view(text) == text_member(*document, key@),
{
    match member(document, key) {
        Some(inner) => text_of(inner),
        None => None,
    }
}

/// Reads a text frame of the feed. A frame that is no JSON, no object, or
/// lacks one of the two string fields says nothing: it is dropped, and is no
/// error.
pub fn decode_frame(text: &str) -> (frame: Option<TickerStream>)
    ensures
        frame_view(frame) == decoded(text@),
{
    match parse_json(text) {
        Some(document) => frame_from_fields(field(&document, "s"), field(&document, "c")),
        None => None,
    }
}

/// What happened on the connection of one symbol.
#[derive(Clone, Copy, Debug)]
pub enum FeedEvent {
    /// A frame arrived. It carries the price read from it, or nothing where
    /// it gave none: a frame that is no text, that says nothing, or whose
    /// price is no number.
    Frame(Option<Price>),
    /// The connection closed or failed.
    Closed,
    /// The subscription was cancelled.
    Cancelled,
    /// The receiver of the ticks is gone.
    ReceiverGone,
}

/// What the connector does next.
#[derive(Clone, Copy, Debug)]
pub enum ConnectorStep {
    /// Hand the price on as a tick, and go on listening.
    Forward(Price),
    /// Drop the frame, and go on listening.
    Skip,
    /// Stop listening; the connector ends, and does not connect again.
    Exit,
}

/// The rule of the connector.
pub open spec fn next_step(event: FeedEvent) -> ConnectorStep {
    match event {
        FeedEvent::Frame(Some(price)) => ConnectorStep::Forward(price),
        FeedEvent::Frame(None) => ConnectorStep::Skip,
        FeedEvent::Closed => ConnectorStep::Exit,
        FeedEvent::Cancelled => ConnectorStep::Exit,
        FeedEvent::ReceiverGone => ConnectorStep::Exit,
    }
}

/// Decides what the connector does with `event`. A frame that gives no price
/// is skipped: it neither ends the connector nor reaches the registry. Only a
/// closed connection, a cancellation or a lost receiver ends the connector.
pub fn connector_step(event: FeedEvent) -> (step: ConnectorStep)
    ensures
        step == next_step(event),
        event matches FeedEvent::Frame(None) ==> step == ConnectorStep::Skip,
        step is Exit <==> !(event is Frame),
{
    match event {
        FeedEvent::Frame(Some(price)) => ConnectorStep::Forward(price),
        FeedEvent::Frame(None) => ConnectorStep::Skip,
        FeedEvent::Closed => ConnectorStep::Exit,
        FeedEvent::Cancelled => ConnectorStep::Exit,
        FeedEvent::ReceiverGone => ConnectorStep::Exit,
    }
}

} // verus!
