//! Scraping of CVMFS servers, without the network.
//!
//! A CVMFS server publishes a handful of metadata files over HTTP: a
//! self-description that lists its repositories and replicas, an optional contact
//! file, and for each repository a status file and a signed manifest. This crate
//! holds everything that is decided or computed while such a server is scraped:
//! which backend it runs, which repositories are visited and in which order, how
//! the manifest text is read, how the GeoAPI answer is checked and how the result
//! for one server is put together. The fetching itself is left to the caller, who
//! performs each request the library asks for and hands the answer back.
//!
//! # Driving a scrape
//!
//! ```ignore
//! let (mut scrape, mut step) = server.begin_scrape(&forced, &ignored, false, None);
//! let outcome = loop {
//!     match step {
//!         ScrapeStep::Finished(outcome) => break outcome,
//!         ScrapeStep::Fetch(request) => {
//!             // fetch `request.url(&server.hostname, token)` and decode the answer
//!             let response = fetch(&request);
//!             assert!(scrape.is_accepted(&response));
//!             (scrape, step) = scrape.advance(response);
//!         },
//!     }
//! };
//! ```
//!
//! The module `guarantees` proves what holds of every scrape that is driven so.

pub mod text;
pub mod errors;
pub mod dates;
pub mod versions;
pub mod models;
pub mod utilities;
pub mod constants;
pub mod scrape;
pub mod scraper;
pub mod guarantees;

pub use constants::default_geoapi_servers;
pub use errors::{CVMFSScraperError, GenericError, HostnameError, ManifestError, ScrapeError};
pub use models::{
    FailedServer, GeoapiServerQuery, HexString, Hostname, Manifest, MaybeRfc2822DateTime,
    PopulatedRepositoryOrReplica, PopulatedServer, ScrapedServer, Server, ServerBackendType,
    ServerMetadata, ServerType,
};
pub use scrape::{ScrapeRequest, ScrapeResponse, ScrapeStep, ServerScrape};
pub use scraper::{Scraper, ScraperCommon};
