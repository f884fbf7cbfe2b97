//! The events that a tick makes the engine publish.

use vstd::prelude::*;
use vstd::string::StringExecFns;
use crate::price::Price;
use crate::symbol::Symbol;

verus! {

/// The name of the event that carries a new price of `symbol`.
pub open spec fn price_update_text(symbol: Seq<char>) -> Seq<char> {
    "price-update-"@ + symbol
}

/// The name of the event that carries the fired thresholds of `symbol`.
pub open spec fn alert_triggered_text(symbol: Seq<char>) -> Seq<char> {
    "alert-triggered-"@ + symbol
}

/// An event, as mathematics.
pub enum EventView {
    PriceUpdate { name: Seq<char>, price: Price },
    AlertTriggered { name: Seq<char>, thresholds: Seq<Price> },
}

/// An event for the listener outside: its name and what it carries.
#[derive(Debug)]
pub enum Event {
    /// A tick arrived; carries the new price.
    PriceUpdate { name: String, price: Price },
    /// A tick fired alerts; carries their thresholds.
    AlertTriggered { name: String, thresholds: Vec<Price> },
}

impl View for Event {
    type V = EventView;

    open spec fn view(&self) -> EventView {
        match self {
            Event::PriceUpdate { name, price } => EventView::PriceUpdate {
                name: name@,
                price: *price,
            },
            Event::AlertTriggered { name, thresholds } => EventView::AlertTriggered {
                name: name@,
                thresholds: thresholds@,
            },
        }
    }
}

/// The views of a sequence of events.
pub open spec fn event_views(events: Seq<Event>) -> Seq<EventView> {
    events.map_values(|event: Event| event@)
}

/// Builds the name of the event that carries a new price of `symbol`.
pub fn price_update_name(symbol: &Symbol) -> (name: String)
    ensures
        name@ == price_update_text(symbol@),
{
    let mut name = String::from_str("price-update-");
    name.append(symbol.as_str());
    name
}

/// Builds the name of the event that carries the fired thresholds of `symbol`.
pub fn alert_triggered_name(symbol: &Symbol) -> (name: String)
    ensures
        name@ == alert_triggered_text(symbol@),
{
    let mut name = String::from_str("alert-triggered-");
    name.append(symbol.as_str());
    name
}

} // verus!
