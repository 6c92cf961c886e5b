use vstd::prelude::*;
use vstd::string::StringExecFns;

verus! {

/// The ways a search can fail.
#[derive(Debug)]
pub enum Error {
    /// The request for the given URL could not be sent.
    ConnectionError(String),
    /// A page, a response body or a selector could not be read.
    ParseError,
    /// The chosen search service is not known.
    InvalidServiceError,
    /// The query text is empty.
    RequiredFieldError,
    /// The operation is not available.
    NotImplementedError,
    /// The assembled request URL is not a valid absolute URL.
    MalformedUrlError,
}

/// The human-readable text of an error.
pub open spec fn error_text(e: Error) -> Seq<char> {
    match e {
        Error::ConnectionError(url) => "Could not connect to "@ + url@,
        Error::ParseError => "ParseError"@,
        Error::InvalidServiceError => "InvalidServiceError"@,
        Error::RequiredFieldError => "RequiredFieldError"@,
        Error::NotImplementedError => "NotImplementedError"@,
        Error::MalformedUrlError => "MalformedUrlError"@,
    }
}

impl Error {
    /// The error as text: the unreachable URL for a connection failure, the
    /// variant's name otherwise.
    pub fn to_string(&self) -> (r: String)
        ensures
            r@ == error_text(*self),
    {
        match self {
            Error::ConnectionError(url) => String::from_str("Could not connect to ").concat(
                url.as_str(),
            ),
            Error::ParseError => String::from_str("ParseError"),
            Error::InvalidServiceError => String::from_str("InvalidServiceError"),
            Error::RequiredFieldError => String::from_str("RequiredFieldError"),
            Error::NotImplementedError => String::from_str("NotImplementedError"),
            Error::MalformedUrlError => String::from_str("MalformedUrlError"),
        }
    }
}

} // verus!
