use vstd::prelude::*;

verus! {

/// The common envelope of XML responses: the deserialized payload.
#[derive(Debug)]
pub struct Response<T> {
    pub data: T,
}

} // verus!
