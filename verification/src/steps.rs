//! The steps of a cleaning and the answers that move it on.
//!
//! The library decides; the caller does the network's part. A step tells the
//! caller what to do next, and the caller hands back what came of it.

use crate::text::{header_text, read_header};
use crate::urls::{parsed_text, url_text};
use url::Url;
use vstd::prelude::*;

verus! {

/// Why a URL could not be cleaned.
#[derive(Clone, Copy, Debug, PartialEq, Eq, Structural)]
pub enum CleanError {
    /// The input is no URL.
    InvalidInputUrl,
    /// The probe request failed in transport.
    NetworkError,
    /// The probe was answered by a redirection without a `Location` header.
    MissingLocation,
    /// The `Location` header of the redirection holds no URL.
    InvalidLocationUrl,
}

/// What looking up a host's addresses gave.
#[derive(Clone, Copy, Debug, PartialEq, Eq, Structural)]
pub enum Lookup {
    /// The lookup failed.
    Failed,
    /// The lookup gave this many addresses.
    Addresses(usize),
}

/// The answer to a probe request, as far as the cleaning reads it.
#[derive(Debug)]
pub struct ProbeResponse {
    /// The status code of the response.
    pub status: u16,
    /// The value of the `Location` header, if the response has one.
    pub location: Option<Vec<u8>>,
    /// The URL of the response, as the transport reports it.
    pub url: Url,
}

/// What came of a probe request.
#[derive(Debug)]
pub enum ProbeOutcome {
    /// The request failed in transport: no connection, a timeout, a TLS error.
    Failed,
    /// The request was answered.
    Response(ProbeResponse),
}

/// What a cleaning is about to do with its URL.
#[derive(Debug)]
pub enum CleanStep {
    /// Look up the addresses of `host`, the host of `url`.
    Resolve { url: Url, host: String },
    /// Request `url` once, without following redirects, under `user_agent`.
    Probe { url: Url, user_agent: String },
    /// Rewrite the query of `url`: nothing is left to ask of the network.
    Rewrite { url: Url },
}

impl CleanError {
    /// A short description of the error.
    pub fn describe(&self) -> (r: &'static str)
        ensures
            r@ == match *self {
                CleanError::InvalidInputUrl => "the input is not a valid URL"@,
                CleanError::NetworkError => "the probe request failed"@,
                CleanError::MissingLocation => "no location found"@,
                CleanError::InvalidLocationUrl => "the location is not a valid URL"@,
            },
    {
        match self {
            CleanError::InvalidInputUrl => "the input is not a valid URL",
            CleanError::NetworkError => "the probe request failed",
            CleanError::MissingLocation => "no location found",
            CleanError::InvalidLocationUrl => "the location is not a valid URL",
        }
    }
}

impl Lookup {
    /// Whether the lookup found the host: it gave at least one address.
    pub open spec fn found(self) -> bool {
        self matches Lookup::Addresses(n) && n >= 1
    }

    /// Whether the lookup found the host.
    pub fn is_found(&self) -> (r: bool)
        ensures
            r == self.found(),
    {
        match self {
            Lookup::Failed => false,
            Lookup::Addresses(n) => *n >= 1,
        }
    }
}

impl CleanStep {
    /// The URL that the step is about.
    pub open spec fn url(self) -> Url {
        match self {
            CleanStep::Resolve { url, .. } => url,
            CleanStep::Probe { url, .. } => url,
            CleanStep::Rewrite { url } => url,
        }
    }
}

/// Whether a status code is of the redirection class.
pub open spec fn is_redirection(status: u16) -> bool {
    300 <= status < 400
}

/// Where a probe leaves the cleaning: the text of the URL to go on with, or
/// the error that ends it.
///
/// A redirection hands on the URL in its `Location` header, and only that
/// one hop is taken. Any other response hands on its own URL.
pub open spec fn probe_verdict(outcome: ProbeOutcome) -> Result<Seq<char>, CleanError> {
    match outcome {
        ProbeOutcome::Failed => Err(CleanError::NetworkError),
        ProbeOutcome::Response(response) => if is_redirection(response.status) {
            match response.location {
                None => Err(CleanError::MissingLocation),
                Some(value) => match header_text(value@) {
                    None => Err(CleanError::InvalidLocationUrl),
                    Some(text) => match parsed_text(text) {
                        None => Err(CleanError::InvalidLocationUrl),
                        Some(target) => Ok(target),
                    },
                },
            }
        } else {
            Ok(url_text(response.url))
        },
    }
}

impl ProbeOutcome {
    /// The URL to go on with after the probe, or the error that ends the
    /// cleaning.
    pub fn working_url(self) -> (r: Result<Url, CleanError>)
        ensures
            match r {
                Ok(url) => probe_verdict(self) == Ok::<Seq<char>, CleanError>(url_text(url)),
                Err(error) => probe_verdict(self) == Err::<Seq<char>, CleanError>(error),
            },
            self matches ProbeOutcome::Response(response) ==> (!is_redirection(response.status)
                ==> r == Ok::<Url, CleanError>(response.url)),
    {
        match self {
            ProbeOutcome::Failed => Err(CleanError::NetworkError),
            ProbeOutcome::Response(response) => {
                if 300 <= response.status && response.status < 400 {
                    match &response.location {
                        None => Err(CleanError::MissingLocation),
                        Some(value) => match read_header(value.as_slice()) {
                            None => Err(CleanError::InvalidLocationUrl),
                            Some(text) => match Url::parse(text) {
                                Ok(url) => Ok(url),
                                Err(_) => Err(CleanError::InvalidLocationUrl),
                            },
                        },
                    }
                } else {
                    Ok(response.url)
                }
            },
        }
    }
}

} // verus!
