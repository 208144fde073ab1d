//! The errors of the library. Each carries the text that describes its cause;
//! `to_string` renders it.

use vstd::prelude::*;
use crate::text::{concatenated, push_char};

verus! {

/// What can go wrong while a repository manifest is fetched and read.
#[derive(Debug, Clone, PartialEq)]
pub enum ManifestError {
    /// The manifest could not be fetched; the text says why.
    FetchError(String),
    /// A mandatory field, named by its tag, is absent.
    MissingField(char),
    /// The field with this tag holds a value that cannot be read; the text says why.
    ParseError(char, String),
    /// The text is not an even number of hexadecimal digits.
    InvalidHex(String),
    /// The certificate is not acceptable.
    InvalidCertificate(String),
    /// A line among the fields is empty, so it has no tag.
    EmptyLine,
}

/// Why a text is not a hostname.
#[derive(Debug, Clone, PartialEq)]
pub enum HostnameError {
    /// The whole name, held here, is longer than 255 bytes.
    TooLong(String),
    /// The label held here is longer than 63 bytes.
    LabelTooLong(String),
    /// The label held here has a character that is neither alphanumeric nor a dash.
    InvalidChar(String),
    /// A label is empty, or begins or ends with a dash; the text names it.
    InvalidLabelFormat(String),
    /// The label held here has two dashes in a row.
    ConsecutiveDashes(String),
}

/// What can go wrong while a server is scraped.
#[derive(Debug, Clone, PartialEq)]
pub enum ScrapeError {
    /// A request failed in transport or came back with a status outside 2xx.
    FetchError(String),
    /// A fetched document could not be decoded.
    ParseError(String),
    /// A fetched document is not the JSON that was expected.
    InvalidJson(String),
    /// A server with the S3 backend was given no repository to scrape.
    EmptyRepositoryList(String),
    /// The server's role contradicts what it says of itself.
    ServerTypeMismatch(String),
    /// A date in RFC 2822 form could not be read.
    ChronoParseError(String),
    /// A value could not be converted; the text is the value or the reason.
    ConversionError(String),
    /// The GeoAPI probe failed or gave an unusable answer.
    GeoAPIFailure(String),
}

/// A value was used as something that it is not.
#[derive(Debug, Clone, PartialEq)]
pub enum GenericError {
    TypeError(String),
}

/// Any error of the library.
#[derive(Debug, Clone, PartialEq)]
pub enum CVMFSScraperError {
    ScrapeError(ScrapeError),
    ManifestError(ManifestError),
    HostnameError(HostnameError),
    GenericError(GenericError),
}

/// A manifest error with its texts as sequences of characters.
pub enum ManifestFault {
    FetchError(Seq<char>),
    MissingField(char),
    ParseError(char, Seq<char>),
    InvalidHex(Seq<char>),
    InvalidCertificate(Seq<char>),
    EmptyLine,
}

impl View for ManifestError {
    type V = ManifestFault;

    open spec fn view(&self) -> ManifestFault {
        match self {
            ManifestError::FetchError(e) => ManifestFault::FetchError(e@),
            ManifestError::MissingField(c) => ManifestFault::MissingField(*c),
            ManifestError::ParseError(c, e) => ManifestFault::ParseError(*c, e@),
            ManifestError::InvalidHex(s) => ManifestFault::InvalidHex(s@),
            ManifestError::InvalidCertificate(s) => ManifestFault::InvalidCertificate(s@),
            ManifestError::EmptyLine => ManifestFault::EmptyLine,
        }
    }
}

impl ManifestError {
    /// The text that `to_string` gives.
    pub open spec fn message(&self) -> Seq<char> {
        match self {
            ManifestError::FetchError(e) => "Failed to fetch manifest: "@ + e@,
            ManifestError::MissingField(c) => "Missing field "@.push(*c),
            ManifestError::ParseError(c, e) => "Parse error for field "@.push(*c) + ": "@ + e@,
            ManifestError::InvalidHex(s) => "Invalid hex string: "@ + s@,
            ManifestError::InvalidCertificate(s) => "Invalid certificate: "@ + s@,
            ManifestError::EmptyLine => "Empty line among the fields"@,
        }
    }

    /// The error as text.
    pub fn to_string(&self) -> (s: String)
        ensures
            s@ == self.message(),
    {
        match self {
            ManifestError::FetchError(e) => concatenated("Failed to fetch manifest: ", e.as_str()),
            ManifestError::MissingField(c) => {
                let mut s = "Missing field ".to_owned();
                push_char(&mut s, *c);
                s
            },
            ManifestError::ParseError(c, e) => {
                let mut s = "Parse error for field ".to_owned();
                push_char(&mut s, *c);
                s.append(": ");
                s.append(e.as_str());
                s
            },
            ManifestError::InvalidHex(t) => concatenated("Invalid hex string: ", t.as_str()),
            ManifestError::InvalidCertificate(t) => concatenated(
                "Invalid certificate: ",
                t.as_str(),
            ),
            ManifestError::EmptyLine => "Empty line among the fields".to_owned(),
        }
    }
}

impl HostnameError {
    /// The text that `to_string` gives.
    pub open spec fn message(&self) -> Seq<char> {
        match self {
            HostnameError::TooLong(s) => "Invalid hostname length: "@ + s@ + " > 255"@,
            HostnameError::LabelTooLong(s) => "Invalid label length: "@ + s@ + " > 63"@,
            HostnameError::InvalidChar(s) => "Invalid character in label: "@ + s@,
            HostnameError::InvalidLabelFormat(s) => "Invalid label format: "@ + s@,
            HostnameError::ConsecutiveDashes(s) => "Label contains consecutive dashes: "@ + s@,
        }
    }

    /// The error as text.
    pub fn to_string(&self) -> (s: String)
        ensures
            s@ == self.message(),
    {
        match self {
            HostnameError::TooLong(t) => {
                let mut s = concatenated("Invalid hostname length: ", t.as_str());
                s.append(" > 255");
                s
            },
            HostnameError::LabelTooLong(t) => {
                let mut s = concatenated("Invalid label length: ", t.as_str());
                s.append(" > 63");
                s
            },
            HostnameError::InvalidChar(t) => concatenated("Invalid character in label: ", t.as_str()),
            HostnameError::InvalidLabelFormat(t) => concatenated("Invalid label format: ", t.as_str()),
            HostnameError::ConsecutiveDashes(t) => concatenated(
                "Label contains consecutive dashes: ",
                t.as_str(),
            ),
        }
    }
}

impl ScrapeError {
    /// The text that `to_string` gives.
    pub open spec fn message(&self) -> Seq<char> {
        match self {
            ScrapeError::FetchError(e) => "Failed to scrape: "@ + e@,
            ScrapeError::ParseError(e) => "Failed to parse scrape result: "@ + e@,
            ScrapeError::InvalidJson(e) => "Failed to parse scrape result: "@ + e@,
            ScrapeError::EmptyRepositoryList(e) => "Empty repository list with S3 backend: "@ + e@,
            ScrapeError::ServerTypeMismatch(e) => "Server type mismatch: "@ + e@,
            ScrapeError::ChronoParseError(e) => "Chrono parsing error: "@ + e@,
            ScrapeError::ConversionError(e) => "Conversion error: "@ + e@,
            ScrapeError::GeoAPIFailure(e) => "GeoAPI failure: "@ + e@,
        }
    }

    /// The error as text.
    pub fn to_string(&self) -> (s: String)
        ensures
            s@ == self.message(),
    {
        match self {
            ScrapeError::FetchError(e) => concatenated("Failed to scrape: ", e.as_str()),
            ScrapeError::ParseError(e) => concatenated("Failed to parse scrape result: ", e.as_str()),
            ScrapeError::InvalidJson(e) => concatenated("Failed to parse scrape result: ", e.as_str()),
            ScrapeError::EmptyRepositoryList(e) => concatenated(
                "Empty repository list with S3 backend: ",
                e.as_str(),
            ),
            ScrapeError::ServerTypeMismatch(e) => concatenated("Server type mismatch: ", e.as_str()),
            ScrapeError::ChronoParseError(e) => concatenated("Chrono parsing error: ", e.as_str()),
            ScrapeError::ConversionError(e) => concatenated("Conversion error: ", e.as_str()),
            ScrapeError::GeoAPIFailure(e) => concatenated("GeoAPI failure: ", e.as_str()),
        }
    }

    /// Whether the error is a failed fetch: a transport failure or a status outside 2xx.
    pub fn is_fetch_error(&self) -> (r: bool)
        ensures
            r == (self is FetchError),
    {
        match self {
            ScrapeError::FetchError(_) => true,
            _ => false,
        }
    }
}

impl GenericError {
    /// The text that `to_string` gives.
    pub open spec fn message(&self) -> Seq<char> {
        match self {
            GenericError::TypeError(e) => "Type error: "@ + e@,
        }
    }

    /// The error as text.
    pub fn to_string(&self) -> (s: String)
        ensures
            s@ == self.message(),
    {
        match self {
            GenericError::TypeError(e) => concatenated("Type error: ", e.as_str()),
        }
    }
}

impl CVMFSScraperError {
    /// The text that `to_string` gives.
    pub open spec fn message(&self) -> Seq<char> {
        match self {
            CVMFSScraperError::ScrapeError(e) => "Scrape error: "@ + e.message(),
            CVMFSScraperError::ManifestError(e) => "Manifest error: "@ + e.message(),
            CVMFSScraperError::HostnameError(e) => "Hostname error: "@ + e.message(),
            CVMFSScraperError::GenericError(e) => "Generic error: "@ + e.message(),
        }
    }

    /// The error as text.
    pub fn to_string(&self) -> (s: String)
        ensures
            s@ == self.message(),
    {
        match self {
            CVMFSScraperError::ScrapeError(e) => {
                let inner = e.to_string();
                concatenated("Scrape error: ", inner.as_str())
            },
            CVMFSScraperError::ManifestError(e) => {
                let inner = e.to_string();
                concatenated("Manifest error: ", inner.as_str())
            },
            CVMFSScraperError::HostnameError(e) => {
                let inner = e.to_string();
                concatenated("Hostname error: ", inner.as_str())
            },
            CVMFSScraperError::GenericError(e) => {
                let inner = e.to_string();
                concatenated("Generic error: ", inner.as_str())
            },
        }
    }
}


impl From<ScrapeError> for CVMFSScraperError {
    fn from(error: ScrapeError) -> (r: Self) {
        CVMFSScraperError::ScrapeError(error)
    }
}

impl vstd::std_specs::convert::FromSpecImpl<ScrapeError> for CVMFSScraperError {
    open spec fn obeys_from_spec() -> bool {
        true
    }

    open spec fn from_spec(error: ScrapeError) -> Self {
        CVMFSScraperError::ScrapeError(error)
    }
}

impl From<ManifestError> for CVMFSScraperError {
    fn from(error: ManifestError) -> (r: Self) {
        CVMFSScraperError::ManifestError(error)
    }
}

impl vstd::std_specs::convert::FromSpecImpl<ManifestError> for CVMFSScraperError {
    open spec fn obeys_from_spec() -> bool {
        true
    }

    open spec fn from_spec(error: ManifestError) -> Self {
        CVMFSScraperError::ManifestError(error)
    }
}

impl From<HostnameError> for CVMFSScraperError {
    fn from(error: HostnameError) -> (r: Self) {
        CVMFSScraperError::HostnameError(error)
    }
}

impl vstd::std_specs::convert::FromSpecImpl<HostnameError> for CVMFSScraperError {
    open spec fn obeys_from_spec() -> bool {
        true
    }

    open spec fn from_spec(error: HostnameError) -> Self {
        CVMFSScraperError::HostnameError(error)
    }
}

impl From<GenericError> for CVMFSScraperError {
    fn from(error: GenericError) -> (r: Self) {
        CVMFSScraperError::GenericError(error)
    }
}

impl vstd::std_specs::convert::FromSpecImpl<GenericError> for CVMFSScraperError {
    open spec fn obeys_from_spec() -> bool {
        true
    }

    open spec fn from_spec(error: GenericError) -> Self {
        CVMFSScraperError::GenericError(error)
    }
}

} // verus!
