use vstd::prelude::*;

verus! {

/// Spec-level image of an [`IikoError`]: the same variants, with the carried
/// diagnostic text abstracted to a sequence of characters.
pub ghost enum ErrorV {
    Http(Seq<char>),
    XmlDeserialization(Seq<char>),
    XmlSerialization(Seq<char>),
    JsonSerialization(Seq<char>),
    Authentication(Seq<char>),
    Configuration(Seq<char>),
    BadRequest(Seq<char>),
    Unauthorized(Seq<char>),
    Forbidden(Seq<char>),
    NotFound(Seq<char>),
    BusinessLogic(Seq<char>),
    InternalServerError(Seq<char>),
    Api(Seq<char>),
    Io(Seq<char>),
}

/// The closed set of failure categories produced by the client.
///
/// Transport-level failures become [`IikoError::Http`]; a rejected
/// authentication exchange becomes [`IikoError::Authentication`]; every other
/// non-success HTTP status is mapped onto one of the status-derived variants
/// (see `handle_error_response` on the dispatcher). The serialization variants
/// belong to the wrapper layer that converts bodies to and from XML or JSON.
/// Each variant carries the server-provided response body (or the underlying
/// error's message) as diagnostic text.
#[derive(Debug, Clone, PartialEq, Eq)]
pub enum IikoError {
    /// The HTTP exchange could not complete (connection, DNS, TLS, timeout).
    Http(String),
    /// A response body could not be read as XML.
    XmlDeserialization(String),
    /// A request body could not be written as XML.
    XmlSerialization(String),
    /// A body could not be converted to or from JSON.
    JsonSerialization(String),
    /// The authentication exchange returned a non-success status, or a
    /// success status with an empty token body.
    Authentication(String),
    /// The client could not be built from its configuration.
    Configuration(String),
    /// Status 400.
    BadRequest(String),
    /// Status 401.
    Unauthorized(String),
    /// Status 403.
    Forbidden(String),
    /// Status 404.
    NotFound(String),
    /// Status 409: the remote system's domain-validation conflict.
    BusinessLogic(String),
    /// Status 500.
    InternalServerError(String),
    /// Any other non-success status.
    Api(String),
    /// An input/output failure outside the HTTP exchange itself.
    Io(String),
}

impl View for IikoError {
    type V = ErrorV;

    open spec fn view(&self) -> ErrorV {
        match self {
            IikoError::Http(s) => ErrorV::Http(s@),
            IikoError::XmlDeserialization(s) => ErrorV::XmlDeserialization(s@),
            IikoError::XmlSerialization(s) => ErrorV::XmlSerialization(s@),
            IikoError::JsonSerialization(s) => ErrorV::JsonSerialization(s@),
            IikoError::Authentication(s) => ErrorV::Authentication(s@),
            IikoError::Configuration(s) => ErrorV::Configuration(s@),
            IikoError::BadRequest(s) => ErrorV::BadRequest(s@),
            IikoError::Unauthorized(s) => ErrorV::Unauthorized(s@),
            IikoError::Forbidden(s) => ErrorV::Forbidden(s@),
            IikoError::NotFound(s) => ErrorV::NotFound(s@),
            IikoError::BusinessLogic(s) => ErrorV::BusinessLogic(s@),
            IikoError::InternalServerError(s) => ErrorV::InternalServerError(s@),
            IikoError::Api(s) => ErrorV::Api(s@),
            IikoError::Io(s) => ErrorV::Io(s@),
        }
    }
}

/// The diagnostic text an error carries, whatever its kind.
pub open spec fn spec_detail(e: ErrorV) -> Seq<char> {
    match e {
        ErrorV::Http(s) => s,
        ErrorV::XmlDeserialization(s) => s,
        ErrorV::XmlSerialization(s) => s,
        ErrorV::JsonSerialization(s) => s,
        ErrorV::Authentication(s) => s,
        ErrorV::Configuration(s) => s,
        ErrorV::BadRequest(s) => s,
        ErrorV::Unauthorized(s) => s,
        ErrorV::Forbidden(s) => s,
        ErrorV::NotFound(s) => s,
        ErrorV::BusinessLogic(s) => s,
        ErrorV::InternalServerError(s) => s,
        ErrorV::Api(s) => s,
        ErrorV::Io(s) => s,
    }
}

impl IikoError {
    /// The diagnostic text carried by the error.
    pub fn detail(&self) -> (r: &String)
        ensures
            r@ == spec_detail(self@),
    {
        match self {
            IikoError::Http(s) => s,
            IikoError::XmlDeserialization(s) => s,
            IikoError::XmlSerialization(s) => s,
            IikoError::JsonSerialization(s) => s,
            IikoError::Authentication(s) => s,
            IikoError::Configuration(s) => s,
            IikoError::BadRequest(s) => s,
            IikoError::Unauthorized(s) => s,
            IikoError::Forbidden(s) => s,
            IikoError::NotFound(s) => s,
            IikoError::BusinessLogic(s) => s,
            IikoError::InternalServerError(s) => s,
            IikoError::Api(s) => s,
            IikoError::Io(s) => s,
        }
    }
}

} // verus!
