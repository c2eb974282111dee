//! Syntactic validation of network locations.

use vstd::prelude::*;
use vstd::string::*;
use crate::text::{join, starts_with};

verus! {

/// The class of a network validation failure.
#[derive(Debug, Clone, Copy, PartialEq, Eq, Structural)]
pub enum NetworkErrorType {
    UrlError,
    OtherError,
}

/// A network validation failure with its human-readable message.
#[derive(Debug)]
pub struct NetworkError {
    pub error_type: NetworkErrorType,
    pub message: String,
}

/// A syntactically valid URL: not empty, and beginning with `http://` or
/// `https://`.
pub open spec fn is_url(url: Seq<char>) -> bool {
    &&& url.len() > 0
    &&& ("http://"@.is_prefix_of(url) || "https://"@.is_prefix_of(url))
}

/// The message that rejects `url`.
pub open spec fn url_error_message(url: Seq<char>) -> Seq<char> {
    if url.len() == 0 {
        "URL cannot be empty"@
    } else {
        "Invalid URL format: "@ + url
    }
}

impl NetworkError {
    /// The human-readable message.
    pub fn message(&self) -> (text: String)
        ensures
            text@ == self.message@,
    {
        self.message.clone()
    }
}

/// Accepts exactly the syntactically valid URLs; every rejection is a
/// `UrlError` that says why.
pub fn check_url(url: &str) -> (checked: Result<(), NetworkError>)
    ensures
        checked is Ok <==> is_url(url@),
        checked matches Err(e) ==> e.error_type == NetworkErrorType::UrlError && e.message@
            == url_error_message(url@),
{
    if url.is_empty() {
        return Err(
            NetworkError {
                error_type: NetworkErrorType::UrlError,
                message: "URL cannot be empty".to_owned(),
            },
        );
    }
    if !starts_with(url, "http://") && !starts_with(url, "https://") {
        return Err(
            NetworkError {
                error_type: NetworkErrorType::UrlError,
                message: join("Invalid URL format: ", url),
            },
        );
    }
    Ok(())
}

} // verus!
