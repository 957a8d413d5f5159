//! The outside catalogues that works are looked up in.
//!
//! A search at a provider has two halves with the network between them: the
//! request is built here, the caller sends it, and what came back is read
//! here again.

pub mod rawg;
pub mod tmdb;

use vstd::prelude::*;
use vstd::string::StringExecFns;
use vstd::utf8::encode_utf8;

use crate::text::numbers::{decimal, digit_char, push_decimal};
use crate::text::opt_text;

verus! {

/// Why a provider gave no results.
#[derive(Debug, PartialEq)]
pub enum ProviderError {
    /// The request did not get through.
    NetworkError(String),
    /// The provider answered with an error status.
    ApiError { status: u16, message: String },
    /// The answer could not be read.
    ParseError(String),
    /// The credential is missing or was refused.
    AuthError(String),
    /// The provider cannot be asked for this.
    Unavailable(String),
}

/// What a `ProviderError` stands for.
pub enum ProviderErrorView {
    NetworkError(Seq<char>),
    ApiError { status: u16, message: Seq<char> },
    ParseError(Seq<char>),
    AuthError(Seq<char>),
    Unavailable(Seq<char>),
}

impl View for ProviderError {
    type V = ProviderErrorView;

    open spec fn view(&self) -> ProviderErrorView {
        match *self {
            ProviderError::NetworkError(m) => ProviderErrorView::NetworkError(m@),
            ProviderError::ApiError { status, message } => ProviderErrorView::ApiError {
                status,
                message: message@,
            },
            ProviderError::ParseError(m) => ProviderErrorView::ParseError(m@),
            ProviderError::AuthError(m) => ProviderErrorView::AuthError(m@),
            ProviderError::Unavailable(m) => ProviderErrorView::Unavailable(m@),
        }
    }
}

impl Clone for ProviderError {
    fn clone(&self) -> (r: Self)
        ensures
            r@ == self@,
    {
        match self {
            ProviderError::NetworkError(m) => ProviderError::NetworkError(m.clone()),
            ProviderError::ApiError { status, message } => ProviderError::ApiError {
                status: *status,
                message: message.clone(),
            },
            ProviderError::ParseError(m) => ProviderError::ParseError(m.clone()),
            ProviderError::AuthError(m) => ProviderError::AuthError(m.clone()),
            ProviderError::Unavailable(m) => ProviderError::Unavailable(m.clone()),
        }
    }
}

impl ProviderErrorView {
    /// The error in words.
    pub open spec fn message(self) -> Seq<char> {
        match self {
            ProviderErrorView::NetworkError(m) => "Network error: "@ + m,
            ProviderErrorView::ApiError { status, message } => "API error ("@ + decimal(
                status as nat,
            ) + "): "@ + message,
            ProviderErrorView::ParseError(m) => "Parse error: "@ + m,
            ProviderErrorView::AuthError(m) => "Auth error: "@ + m,
            ProviderErrorView::Unavailable(m) => "Provider unavailable: "@ + m,
        }
    }
}

impl ProviderError {
    /// The error in words.
    pub fn message(&self) -> (r: String)
        ensures
            r@ == self@.message(),
    {
        match self {
            ProviderError::NetworkError(m) => {
                let mut r = "Network error: ".to_owned();
                r.append(m.as_str());
                r
            },
            ProviderError::ApiError { status, message } => {
                let mut r = "API error (".to_owned();
                push_decimal(&mut r, *status as u64);
                r.append("): ");
                r.append(message.as_str());
                r
            },
            ProviderError::ParseError(m) => {
                let mut r = "Parse error: ".to_owned();
                r.append(m.as_str());
                r
            },
            ProviderError::AuthError(m) => {
                let mut r = "Auth error: ".to_owned();
                r.append(m.as_str());
                r
            },
            ProviderError::Unavailable(m) => {
                let mut r = "Provider unavailable: ".to_owned();
                r.append(m.as_str());
                r
            },
        }
    }
}

/// What a search at a provider gives: results, or why there are none.
pub type ProviderResult<T> = Result<T, ProviderError>;

/// Whether a provider can be used.
#[derive(Clone, Copy, Debug, PartialEq, Eq, Structural)]
pub enum ProviderStatus {
    /// Ready to be asked.
    Available,
    /// No credential has been given.
    NotConfigured,
    /// The provider cannot be reached.
    Offline,
    /// The provider has been asked too often.
    RateLimited,
}

/// A request for the caller to send: a GET that accepts JSON.
#[derive(Debug, PartialEq)]
pub struct SearchRequest {
    /// The address to get.
    pub url: String,
    /// The token to send as `Authorization: Bearer`, if the provider wants
    /// one.
    pub bearer_token: Option<String>,
}

/// What a `SearchRequest` stands for.
pub struct SearchRequestView {
    pub url: Seq<char>,
    pub bearer_token: Option<Seq<char>>,
}

impl View for SearchRequest {
    type V = SearchRequestView;

    open spec fn view(&self) -> SearchRequestView {
        SearchRequestView { url: self.url@, bearer_token: opt_text(self.bearer_token) }
    }
}

/// What came back for a request, as far as the caller could take it in.
#[derive(Debug)]
pub enum ProviderReply<T> {
    /// The request could not be sent, or no answer came.
    Unreachable(String),
    /// The provider answered with a status that is no success.
    Refused { status: u16, body: String },
    /// The provider answered with success, but the answer could not be read.
    Malformed(String),
    /// The provider answered with these records.
    Records(Vec<T>),
}

/// A catalogue that can be searched.
pub trait SearchProvider {
    /// Whether the provider can be used.
    fn status(&self) -> ProviderStatus;

    /// The provider's name as it is shown.
    fn name(&self) -> &'static str;
}

/// Whether the byte `b` stands for itself in a percent-encoded text:
/// letters, digits, `-`, `.`, `_` and `~` do.
pub open spec fn is_unreserved(b: u8) -> bool {
    ||| 0x30 <= b <= 0x39
    ||| 0x41 <= b <= 0x5A
    ||| 0x61 <= b <= 0x7A
    ||| b == 0x2D
    ||| b == 0x2E
    ||| b == 0x5F
    ||| b == 0x7E
}

/// The character for the hexadecimal digit `d`, letters in upper case.
pub open spec fn hex_char(d: int) -> char {
    if d < 10 {
        digit_char(d)
    } else if d == 10 {
        'A'
    } else if d == 11 {
        'B'
    } else if d == 12 {
        'C'
    } else if d == 13 {
        'D'
    } else if d == 14 {
        'E'
    } else {
        'F'
    }
}

/// One byte, percent-encoded: itself if it is unreserved, else `%` and its
/// two hexadecimal digits.
pub open spec fn percent_encoded_byte(b: u8) -> Seq<char> {
    if is_unreserved(b) {
        seq![b as char]
    } else {
        seq!['%', hex_char(b as int / 16), hex_char(b as int % 16)]
    }
}

/// A sequence of bytes, percent-encoded byte by byte.
pub open spec fn percent_encoded(bytes: Seq<u8>) -> Seq<char>
    decreases bytes.len(),
{
    if bytes.len() == 0 {
        Seq::empty()
    } else {
        percent_encoded(bytes.drop_last()) + percent_encoded_byte(bytes.last())
    }
}

/// A text, percent-encoded: its UTF-8 bytes, encoded byte by byte.
pub open spec fn url_encoded(text: Seq<char>) -> Seq<char> {
    percent_encoded(encode_utf8(text))
}

/// `urlencoding::encode`: percent-encodes the UTF-8 bytes of a text. Every
/// byte but letters, digits, `-`, `.`, `_` and `~` becomes `%` and two
/// hexadecimal digits in upper case; the contract says so byte by byte.
#[verifier::external_body]
pub(crate) fn percent_encode(text: &str) -> (r: String)
    ensures
        r@ == url_encoded(text@),
{
    urlencoding::encode(text).into_owned()
}

/// The number of the page to ask a provider for: providers count from 1.
pub open spec fn provider_page(page: usize) -> nat {
    (page + 1) as nat
}

} // verus!
