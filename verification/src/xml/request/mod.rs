use vstd::prelude::*;

pub mod events;

verus! {

/// The XML request envelope: the wrapped payload becomes the document body.
#[derive(Debug)]
pub struct Request<T> {
    pub body: T,
}

impl<T> Request<T> {
    /// Wrap a payload for sending.
    pub fn new(body: T) -> (r: Self)
        ensures
            r.body == body,
    {
        Self { body }
    }
}

/// Body of the inventory listing request.
#[derive(Debug)]
pub struct InventoryRequest {
    pub store_id: Option<String>,
}

/// Body of the supplier listing request.
#[derive(Debug)]
pub struct SuppliersRequest {
    pub store_id: Option<String>,
}

/// Body of the document listing request.
#[derive(Debug)]
pub struct DocumentsRequest {
    pub store_id: Option<String>,
    pub date_from: Option<String>,
    pub date_to: Option<String>,
}

} // verus!
