use vstd::prelude::*;

verus! {

/// Body of the events-by-filter request.
#[derive(Debug)]
pub struct EventsRequestData {
    pub events: EventsFilter,
    pub order_nums: Option<OrderNumsFilter>,
}

/// The event types to ask for.
#[derive(Debug)]
pub struct EventsFilter {
    pub items: Vec<String>,
}

/// The order numbers to restrict the events to.
#[derive(Debug)]
pub struct OrderNumsFilter {
    pub items: Vec<String>,
}

} // verus!
