//! The configuration of a scrape of many servers, built step by step.
//!
//! A `Scraper` is made without servers, is given its servers, and is validated;
//! only a validated one starts scrapes. The type says which of the three it is:
//!
//! - `Scraper::new` makes a `Scraper<WithoutServers>`.
//! - `with_servers` turns it into a `Scraper<WithServers>`.
//! - `validate` turns that into a `Scraper<ValidatedAndReady>`, which can no
//!   longer be changed.

use std::marker::PhantomData;
use vstd::prelude::*;
use crate::constants::{default_geoapi_names, default_geoapi_servers};
use crate::errors::{HostnameError, ScrapeError};
use crate::models::generic::{is_hostname, rejected_as, Hostname};
use crate::models::geoapi::host_names;
use crate::models::resolved::texts;
use crate::models::servers::{Server, ServerBackendType};
use crate::scrape::{ScrapeStep, ServerScrape};

verus! {

/// The state of a scraper that has no servers yet.
pub struct WithoutServers;

/// The state of a scraper that has its servers and is not yet validated.
pub struct WithServers;

/// The state of a scraper that is validated and can scrape.
pub struct ValidatedAndReady;

/// What a scraper is configured with.
pub struct ScraperConfig {
    /// The servers to scrape.
    pub servers: Seq<Server>,
    /// The repositories to scrape whatever a server advertises.
    pub forced_repos: Seq<Seq<char>>,
    /// The repositories that are never scraped.
    pub ignored_repos: Seq<Seq<char>>,
    /// Whether what a server advertises is left out.
    pub only_forced: bool,
    /// The hosts that a GeoAPI is asked to rank.
    pub geoapi_servers: Seq<Seq<char>>,
}

/// A scraper of CVMFS servers.
pub struct Scraper<State = WithoutServers> {
    servers: Vec<Server>,
    forced_repos: Vec<String>,
    ignored_repos: Vec<String>,
    only_forced: bool,
    geoapi_servers: Vec<Hostname>,
    _state: PhantomData<State>,
}

impl<State> View for Scraper<State> {
    type V = ScraperConfig;

    closed spec fn view(&self) -> ScraperConfig {
        ScraperConfig {
            servers: self.servers@,
            forced_repos: texts(self.forced_repos@),
            ignored_repos: texts(self.ignored_repos@),
            only_forced: self.only_forced,
            geoapi_servers: host_names(self.geoapi_servers@),
        }
    }
}

/// Whether `k` is the place of the first text that is no hostname.
pub open spec fn first_invalid_hostname(names: Seq<Seq<char>>, k: int) -> bool {
    &&& 0 <= k < names.len()
    &&& !is_hostname(names[k])
    &&& forall|i: int| 0 <= i < k ==> is_hostname(#[trigger] names[i])
}

/// Whether every text is a hostname.
pub open spec fn all_hostnames(names: Seq<Seq<char>>) -> bool {
    forall|i: int| 0 <= i < names.len() ==> is_hostname(#[trigger] names[i])
}

/// Reads each text as a hostname, up to the first that is none.
#[verifier::loop_isolation(false)]
fn read_hostnames(servers: &Vec<String>) -> (r: Result<Vec<Hostname>, HostnameError>)
    ensures
        r is Ok <==> all_hostnames(texts(servers@)),
        r matches Ok(hosts) ==> host_names(hosts@) == texts(servers@),
        forall|k: int|
            first_invalid_hostname(texts(servers@), k) ==> (r matches Err(e) && rejected_as(
                texts(servers@)[k],
                e,
            )),
{
    let mut hosts: Vec<Hostname> = Vec::new();
    let mut i: usize = 0;
    while i < servers.len()
        invariant
            i <= servers.len(),
            hosts.len() == i,
            forall|j: int| 0 <= j < i ==> is_hostname(#[trigger] texts(servers@)[j]),
            forall|j: int| 0 <= j < i ==> #[trigger] hosts[j]@ == servers[j]@,
        decreases servers.len() - i,
    {
        assert(texts(servers@)[i as int] == servers[i as int]@);
        match Hostname::from_str(servers[i].as_str()) {
            Ok(host) => hosts.push(host),
            Err(e) => {
                assert(first_invalid_hostname(texts(servers@), i as int));
                return Err(e);
            },
        }
        i += 1;
    }
    assert(host_names(hosts@) =~= texts(servers@));
    Ok(hosts)
}

/// What a scraper without servers and one with servers have in common: the
/// repositories and the hosts of the GeoAPI can be set.
pub trait ScraperCommon: Sized {
    /// What the scraper is configured with.
    spec fn config(&self) -> ScraperConfig;

    /// Sets the repositories that are scraped whatever a server advertises. A
    /// server with the S3 backend advertises nothing, so its repositories have to
    /// be named here.
    fn forced_repositories(self, repos: Vec<String>) -> (r: Self)
        ensures
            r.config() == (ScraperConfig { forced_repos: texts(repos@), ..self.config() }),
    ;

    /// Sets the repositories that are never scraped, whether a server advertises
    /// them or they are forced. Nothing checks that they exist.
    fn ignored_repositories(self, repos: Vec<String>) -> (r: Self)
        ensures
            r.config() == (ScraperConfig { ignored_repos: texts(repos@), ..self.config() }),
    ;

    /// Sets whether only the forced repositories are scraped and what a server
    /// advertises is left out.
    fn only_scrape_forced_repositories(self, only_forced: bool) -> (r: Self)
        ensures
            r.config() == (ScraperConfig { only_forced, ..self.config() }),
    ;

    /// Sets the hosts that a GeoAPI is asked to rank. Each has to be a hostname; the
    /// first that is none is the error, and nothing is set.
    fn geoapi_servers(self, servers: Vec<String>) -> (r: Result<Self, HostnameError>)
        ensures
            r is Ok <==> all_hostnames(texts(servers@)),
            r matches Ok(scraper) ==> scraper.config() == (ScraperConfig {
                geoapi_servers: texts(servers@),
                ..self.config()
            }),
            forall|k: int|
                first_invalid_hostname(texts(servers@), k) ==> (r matches Err(e) && rejected_as(
                    texts(servers@)[k],
                    e,
                )),
    ;
}

impl Scraper<WithoutServers> {
    /// A scraper without servers, without forced or ignored repositories, and with
    /// the default hosts for the GeoAPI.
    pub fn new() -> (r: Scraper<WithoutServers>)
        ensures
            r@ == (ScraperConfig {
                servers: Seq::empty(),
                forced_repos: Seq::empty(),
                ignored_repos: Seq::empty(),
                only_forced: false,
                geoapi_servers: default_geoapi_names(),
            }),
    {
        let r = Scraper {
            servers: Vec::new(),
            forced_repos: Vec::new(),
            ignored_repos: Vec::new(),
            only_forced: false,
            geoapi_servers: default_geoapi_servers(),
            _state: PhantomData,
        };
        assert(texts(r.forced_repos@) =~= Seq::<Seq<char>>::empty());
        assert(texts(r.ignored_repos@) =~= Seq::<Seq<char>>::empty());
        r
    }

    /// Gives the scraper its servers.
    pub fn with_servers(self, servers: Vec<Server>) -> (r: Scraper<WithServers>)
        ensures
            r@ == (ScraperConfig { servers: servers@, ..self@ }),
    {
        Scraper {
            servers,
            forced_repos: self.forced_repos,
            ignored_repos: self.ignored_repos,
            only_forced: self.only_forced,
            geoapi_servers: self.geoapi_servers,
            _state: PhantomData,
        }
    }
}

impl Default for Scraper<WithoutServers> {
    fn default() -> (r: Self)
        ensures
            r@ == (ScraperConfig {
                servers: Seq::empty(),
                forced_repos: Seq::empty(),
                ignored_repos: Seq::empty(),
                only_forced: false,
                geoapi_servers: default_geoapi_names(),
            }),
    {
        Scraper::new()
    }
}

impl ScraperCommon for Scraper<WithoutServers> {
    open spec fn config(&self) -> ScraperConfig {
        self@
    }

    fn forced_repositories(self, repos: Vec<String>) -> (r: Self) {
        Scraper { forced_repos: repos, ..self }
    }

    fn ignored_repositories(self, repos: Vec<String>) -> (r: Self) {
        Scraper { ignored_repos: repos, ..self }
    }

    fn only_scrape_forced_repositories(self, only_forced: bool) -> (r: Self) {
        Scraper { only_forced, ..self }
    }

    fn geoapi_servers(self, servers: Vec<String>) -> (r: Result<Self, HostnameError>) {
        match read_hostnames(&servers) {
            Ok(hosts) => Ok(Scraper { geoapi_servers: hosts, ..self }),
            Err(e) => Err(e),
        }
    }
}

impl ScraperCommon for Scraper<WithServers> {
    open spec fn config(&self) -> ScraperConfig {
        self@
    }

    fn forced_repositories(self, repos: Vec<String>) -> (r: Self) {
        Scraper { forced_repos: repos, ..self }
    }

    fn ignored_repositories(self, repos: Vec<String>) -> (r: Self) {
        Scraper { ignored_repos: repos, ..self }
    }

    fn only_scrape_forced_repositories(self, only_forced: bool) -> (r: Self) {
        Scraper { only_forced, ..self }
    }

    fn geoapi_servers(self, servers: Vec<String>) -> (r: Result<Self, HostnameError>) {
        match read_hostnames(&servers) {
            Ok(hosts) => Ok(Scraper { geoapi_servers: hosts, ..self }),
            Err(e) => Err(e),
        }
    }
}

/// Whether one of the servers has the S3 backend.
pub open spec fn any_s3(servers: Seq<Server>) -> bool {
    exists|i: int| 0 <= i < servers.len() && (#[trigger] servers[i]).backend_type
        == ServerBackendType::S3
}

impl Scraper<WithServers> {
    /// Checks the configuration before any scrape: where a server has the S3
    /// backend, which cannot say what it holds, there has to be a forced
    /// repository. The scraper that passes is ready and can no longer be changed.
    pub fn validate(self) -> (r: Result<Scraper<ValidatedAndReady>, ScrapeError>)
        ensures
            any_s3(self@.servers) && self@.forced_repos.len() == 0 ==> (r matches Err(
                ScrapeError::EmptyRepositoryList(t),
            ) && t@
                == "Forced repositories list cannot be empty if any servers use the S3 backend"@),
            !(any_s3(self@.servers) && self@.forced_repos.len() == 0) ==> (r matches Ok(ready)
                && ready@ == self@),
    {
        let mut found = false;
        let mut i: usize = 0;
        while i < self.servers.len()
            invariant
                i <= self.servers.len(),
                found <==> exists|j: int|
                    0 <= j < i && (#[trigger] self.servers[j]).backend_type
                        == ServerBackendType::S3,
            decreases self.servers.len() - i,
        {
            if self.servers[i].backend_type == ServerBackendType::S3 {
                found = true;
            }
            i += 1;
        }
        if found && self.forced_repos.len() == 0 {
            return Err(
                ScrapeError::EmptyRepositoryList(
                    "Forced repositories list cannot be empty if any servers use the S3 backend".to_owned(),
                ),
            );
        }
        Ok(
            Scraper {
                servers: self.servers,
                forced_repos: self.forced_repos,
                ignored_repos: self.ignored_repos,
                only_forced: self.only_forced,
                geoapi_servers: self.geoapi_servers,
                _state: PhantomData,
            },
        )
    }
}

impl Scraper<ValidatedAndReady> {
    /// Starts the scrape of every server: one scrape for each, in the order of the
    /// servers, each with the repositories and the hosts of this scraper. Where the
    /// scraper has no hosts for the GeoAPI, the default ones are taken. The scrapes
    /// share nothing: each goes its own way from here.
    pub fn begin_scrapes(&self) -> (r: Vec<(ServerScrape, ScrapeStep)>)
        ensures
            r.len() == self@.servers.len(),
            forall|i: int|
                0 <= i < r.len() ==> (#[trigger] self@.servers[i]).begins_scrape(
                    self@.forced_repos,
                    self@.ignored_repos,
                    self@.only_forced,
                    Some(r[i].0.geoapi_servers),
                    r[i].0,
                    r[i].1,
                ),
            forall|i: int|
                0 <= i < r.len() ==> host_names((#[trigger] r[i]).0.geoapi_servers@) == (
                if self@.geoapi_servers.len() == 0 {
                    default_geoapi_names()
                } else {
                    self@.geoapi_servers
                }),
    {
        let mut r: Vec<(ServerScrape, ScrapeStep)> = Vec::new();
        let mut i: usize = 0;
        while i < self.servers.len()
            invariant
                i <= self.servers.len(),
                r.len() == i,
                forall|j: int|
                    0 <= j < i ==> (#[trigger] self.servers[j]).begins_scrape(
                        texts(self.forced_repos@),
                        texts(self.ignored_repos@),
                        self.only_forced,
                        Some(r[j].0.geoapi_servers),
                        r[j].0,
                        r[j].1,
                    ),
                forall|j: int|
                    0 <= j < i ==> host_names((#[trigger] r[j]).0.geoapi_servers@) == (
                    if self.geoapi_servers.len() == 0 {
                        default_geoapi_names()
                    } else {
                        host_names(self.geoapi_servers@)
                    }),
            decreases self.servers.len() - i,
        {
            let hosts = if self.geoapi_servers.len() == 0 {
                default_geoapi_servers()
            } else {
                self.geoapi_servers.clone()
            };
            let begun = self.servers[i].begin_scrape(
                &self.forced_repos,
                &self.ignored_repos,
                self.only_forced,
                Some(hosts),
            );
            r.push(begun);
            i += 1;
        }
        r
    }
}

} // verus!
