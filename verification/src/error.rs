//! The library's error: what went wrong, with the status or reply code and
//! the text that came with it, where there were any.
use vstd::prelude::*;
use crate::text::{decimal_text, push_decimal, text_of};

verus! {

/// What went wrong.
#[derive(Debug, Clone, Copy, PartialEq, Eq, Structural)]
pub enum Kind {
    /// The request could not be made, or the portal answered with a failure status.
    Request,
    /// The reply could not be read as the expected record.
    Parse,
    /// The portal read the request and refused it.
    Query,
}

/// An error with its kind, an optional code and an optional text.
#[derive(Debug)]
pub struct Error {
    kind: Kind,
    code: Option<u16>,
    text: Option<String>,
}

/// The abstract value of an `Error`.
pub struct ErrorView {
    pub kind: Kind,
    pub code: Option<u16>,
    pub text: Option<Seq<char>>,
}

impl View for Error {
    type V = ErrorView;

    closed spec fn view(&self) -> ErrorView {
        ErrorView { kind: self.kind, code: self.code, text: text_of(self.text) }
    }
}

/// The name under which a kind is shown.
pub open spec fn kind_name(kind: Kind) -> Seq<char> {
    match kind {
        Kind::Request => "Request"@,
        Kind::Parse => "Parse"@,
        Kind::Query => "Query"@,
    }
}

/// How an error is shown: `[ctbox]<kind> with code <code> and text <text>`,
/// with `None` for a missing code or text.
pub open spec fn message(e: ErrorView) -> Seq<char> {
    "[ctbox]"@ + kind_name(e.kind) + " with code "@ + match e.code {
        Some(c) => decimal_text(c as nat),
        None => "None"@,
    } + " and text "@ + match e.text {
        Some(t) => t,
        None => "None"@,
    }
}

/// The error of a request that failed without further detail.
pub open spec fn request_failure() -> ErrorView {
    ErrorView { kind: Kind::Request, code: None, text: None }
}

/// The error of a reply that could not be read as the expected record.
pub open spec fn parse_failure() -> ErrorView {
    ErrorView { kind: Kind::Parse, code: None, text: None }
}

/// The errors without detail are exactly those of their kind with neither
/// code nor text, and a description names the kind, then the code in decimal
/// (or `None`), then the text (or `None`), after the `[ctbox]` prefix.
pub proof fn law_error_views(e: ErrorView)
    ensures
        request_failure() == (ErrorView { kind: Kind::Request, code: None, text: None }),
        parse_failure() == (ErrorView { kind: Kind::Parse, code: None, text: None }),
        message(e) == "[ctbox]"@ + match e.kind {
            Kind::Request => "Request"@,
            Kind::Parse => "Parse"@,
            Kind::Query => "Query"@,
        } + " with code "@ + match e.code {
            Some(c) => decimal_text(c as nat),
            None => "None"@,
        } + " and text "@ + match e.text {
            Some(t) => t,
            None => "None"@,
        },
{
}

impl Error {
    /// An error of `kind` without code or text.
    pub fn new(kind: Kind) -> (e: Error)
        ensures
            e@ == (ErrorView { kind, code: None, text: None }),
    {
        Error { kind, code: None, text: None }
    }

    /// An error of `kind` with the given code and text.
    pub fn with_detail(kind: Kind, code: Option<u16>, text: Option<String>) -> (e: Error)
        ensures
            e@ == (ErrorView { kind, code, text: text_of(text) }),
    {
        Error { kind, code, text }
    }

    /// The kind of the error.
    pub fn kind(&self) -> (k: Kind)
        ensures
            k == self@.kind,
    {
        self.kind
    }

    /// The code of the error, if any.
    pub fn code(&self) -> (c: Option<u16>)
        ensures
            c == self@.code,
    {
        self.code
    }

    /// The text of the error, if any.
    pub fn text(&self) -> (t: Option<String>)
        ensures
            text_of(t) == self@.text,
    {
        match &self.text {
            Some(t) => Some(t.clone()),
            None => None,
        }
    }

    /// The error as it is shown to a user.
    pub fn describe(&self) -> (s: String)
        ensures
            s@ == message(self@),
    {
        let mut s = String::new();
        s.append("[ctbox]");
        match self.kind {
            Kind::Request => s.append("Request"),
            Kind::Parse => s.append("Parse"),
            Kind::Query => s.append("Query"),
        }
        s.append(" with code ");
        match self.code {
            Some(c) => push_decimal(&mut s, c),
            None => s.append("None"),
        }
        s.append(" and text ");
        match &self.text {
            Some(t) => s.append(t.as_str()),
            None => s.append("None"),
        }
        s
    }
}

} // verus!
