use vstd::prelude::*;

verus! {

/// One attribute of a recorded event.
#[derive(Debug, Clone)]
pub struct EventAttribute {
    /// The attribute's name.
    pub name: Option<String>,
    /// The attribute's value.
    pub value: Option<String>,
    /// The attribute's declared type on the server side.
    pub attribute_type: Option<String>,
}

} // verus!
