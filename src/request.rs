//! The request descriptor, the resolved request, and the error taxonomy.
use vstd::prelude::*;
use vstd::string::*;
use crate::url::pairs_view;

verus! {

/// The HTTP methods a request may use.
#[derive(Clone, Copy, Debug, PartialEq, Eq, Structural)]
pub enum Method {
    Get,
    Post,
    Put,
    Delete,
    Patch,
    Options,
    Head,
}

/// The method that a method name denotes, matched exactly and case-sensitively.
pub open spec fn method_of(s: Seq<char>) -> Option<Method> {
    if s == "GET"@ {
        Some(Method::Get)
    } else if s == "POST"@ {
        Some(Method::Post)
    } else if s == "PUT"@ {
        Some(Method::Put)
    } else if s == "DELETE"@ {
        Some(Method::Delete)
    } else if s == "PATCH"@ {
        Some(Method::Patch)
    } else if s == "OPTIONS"@ {
        Some(Method::Options)
    } else if s == "HEAD"@ {
        Some(Method::Head)
    } else {
        None
    }
}

/// Reads a method name; `None` for any name outside the supported set.
pub fn parse_method(s: &str) -> (r: Option<Method>)
    ensures
        r == method_of(s@),
{
    let owned = String::from_str(s);
    if owned == String::from_str("GET") {
        Some(Method::Get)
    } else if owned == String::from_str("POST") {
        Some(Method::Post)
    } else if owned == String::from_str("PUT") {
        Some(Method::Put)
    } else if owned == String::from_str("DELETE") {
        Some(Method::Delete)
    } else if owned == String::from_str("PATCH") {
        Some(Method::Patch)
    } else if owned == String::from_str("OPTIONS") {
        Some(Method::Options)
    } else if owned == String::from_str("HEAD") {
        Some(Method::Head)
    } else {
        None
    }
}

/// The body encodings that a content type selects.
#[derive(Clone, Copy, Debug, PartialEq, Eq, Structural)]
pub enum ContentKind {
    /// JSON or XML: the body text is sent as it is.
    JsonOrXml,
    /// A multipart form built from the form fields.
    Multipart,
    /// A URL-encoded form: the body text, already encoded, is sent as it is.
    UrlEncoded,
}

/// The encoding that a content type selects, matched exactly; `None` for an
/// unsupported content type.
pub open spec fn content_kind_of(ct: Seq<char>) -> Option<ContentKind> {
    if ct == "application/json"@ || ct == "application/xml"@ || ct == "text/xml"@ || ct
        == "text/xml; charset=utf-8"@ {
        Some(ContentKind::JsonOrXml)
    } else if ct == "multipart/form-data"@ {
        Some(ContentKind::Multipart)
    } else if ct == "application/x-www-form-urlencoded"@ {
        Some(ContentKind::UrlEncoded)
    } else {
        None
    }
}

/// Classifies a content type; `None` for an unsupported one.
pub fn classify_content_type(ct: &str) -> (r: Option<ContentKind>)
    ensures
        r == content_kind_of(ct@),
{
    let owned = String::from_str(ct);
    if owned == String::from_str("application/json") || owned == String::from_str(
        "application/xml",
    ) || owned == String::from_str("text/xml") || owned == String::from_str(
        "text/xml; charset=utf-8",
    ) {
        Some(ContentKind::JsonOrXml)
    } else if owned == String::from_str("multipart/form-data") {
        Some(ContentKind::Multipart)
    } else if owned == String::from_str("application/x-www-form-urlencoded") {
        Some(ContentKind::UrlEncoded)
    } else {
        None
    }
}

/// A user-specified request, before resolution. Absent and empty mappings
/// behave alike, except for the query parameters: given, even empty, they add `?`.
///
/// Each mapping is a list of name/value pairs, used in the order given. A name
/// that occurs twice is not merged: in the headers the later value wins (names
/// compared case-insensitively), in the path parameters the earlier one, and
/// query parameters and form fields are sent once per occurrence.
#[derive(Clone, Debug)]
pub struct RequestDescriptor {
    pub url: String,
    pub method: String,
    pub body: Option<String>,
    pub headers: Option<Vec<(String, String)>>,
    pub content_type: Option<String>,
    pub path_params: Option<Vec<(String, String)>>,
    pub query_params: Option<Vec<(String, String)>>,
    pub form_data: Option<Vec<(String, String)>>,
}

/// The payload sent with a request.
#[derive(Clone, Debug)]
pub enum WireBody {
    /// No payload.
    Empty,
    /// The given text, byte for byte.
    Text(String),
    /// A multipart form with one text field per entry.
    Form(Vec<(String, String)>),
}

/// A payload as character sequences.
pub enum BodyView {
    Empty,
    Text(Seq<char>),
    Form(Seq<(Seq<char>, Seq<char>)>),
}

impl View for WireBody {
    type V = BodyView;

    open spec fn view(&self) -> BodyView {
        match self {
            WireBody::Empty => BodyView::Empty,
            WireBody::Text(t) => BodyView::Text(t@),
            WireBody::Form(f) => BodyView::Form(pairs_view(f@)),
        }
    }
}

/// A request ready for dispatch: the final URL, the validated header set
/// (lower-case names, each once), the payload, and the equivalent curl command.
#[derive(Clone, Debug)]
pub struct ResolvedRequest {
    pub method: Method,
    pub url: String,
    pub headers: Vec<(String, String)>,
    pub body: WireBody,
    pub command: String,
}

/// A resolved request as mathematical values.
pub struct ResolvedView {
    pub method: Method,
    pub url: Seq<char>,
    pub headers: Seq<(Seq<char>, Seq<char>)>,
    pub body: BodyView,
    pub command: Seq<char>,
}

impl View for ResolvedRequest {
    type V = ResolvedView;

    open spec fn view(&self) -> ResolvedView {
        ResolvedView {
            method: self.method,
            url: self.url@,
            headers: pairs_view(self.headers@),
            body: self.body@,
            command: self.command@,
        }
    }
}

/// Why a request produced no response record.
#[derive(Clone, Debug)]
pub enum RequestError {
    /// The method is not one of the supported set.
    UnsupportedMethod,
    /// The header of this name has an illegal name or value.
    InvalidHeader { key: String },
    /// The content type is not one of the supported set.
    UnsupportedContentType { value: String },
    /// The request was cancelled before the transport call resolved.
    RequestCancelled,
    /// The transport call failed for this cause.
    TransportFailure { cause: String },
    /// The cancellation signal could not be delivered.
    CancelSendFailed,
}

/// An error as mathematical values.
pub enum ErrorView {
    UnsupportedMethod,
    InvalidHeader(Seq<char>),
    UnsupportedContentType(Seq<char>),
    RequestCancelled,
    TransportFailure(Seq<char>),
    CancelSendFailed,
}

impl View for RequestError {
    type V = ErrorView;

    open spec fn view(&self) -> ErrorView {
        match self {
            RequestError::UnsupportedMethod => ErrorView::UnsupportedMethod,
            RequestError::InvalidHeader { key } => ErrorView::InvalidHeader(key@),
            RequestError::UnsupportedContentType { value } => ErrorView::UnsupportedContentType(
                value@,
            ),
            RequestError::RequestCancelled => ErrorView::RequestCancelled,
            RequestError::TransportFailure { cause } => ErrorView::TransportFailure(cause@),
            RequestError::CancelSendFailed => ErrorView::CancelSendFailed,
        }
    }
}

} // verus!
