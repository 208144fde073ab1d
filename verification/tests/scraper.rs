use cvmfs_server_scraper::constants::default_geoapi_servers;
use cvmfs_server_scraper::errors::{HostnameError, ScrapeError};
use cvmfs_server_scraper::models::{Hostname, Server, ServerBackendType, ServerType};
use cvmfs_server_scraper::scrape::{ScrapePhase, ScrapeRequest, ScrapeStep};
use cvmfs_server_scraper::scraper::{Scraper, ScraperCommon};

fn names(list: &[&str]) -> Vec<String> {
    list.iter().map(|n| n.to_string()).collect()
}

fn servers() -> Vec<Server> {
    vec![
        Server::new(
            ServerType::Stratum1,
            ServerBackendType::CVMFS,
            Hostname::from_str("azure-us-east-s1.eessi.science").unwrap(),
        ),
        Server::new(
            ServerType::Stratum1,
            ServerBackendType::AutoDetect,
            Hostname::from_str("aws-eu-central-s1.eessi.science").unwrap(),
        ),
        Server::new(
            ServerType::SyncServer,
            ServerBackendType::S3,
            Hostname::from_str("aws-eu-west-s1-sync.eessi.science").unwrap(),
        ),
    ]
}

#[test]
fn test_default_geoapi_servers() {
    let hosts: Vec<String> = default_geoapi_servers().iter().map(|h| h.to_string()).collect();
    assert_eq!(
        hosts,
        names(&[
            "cvmfs-s1fnal.opensciencegrid.org",
            "cvmfs-stratum-one.cern.ch",
            "cvmfs-stratum-one.ihep.ac.cn",
        ])
    );
    for host in default_geoapi_servers() {
        assert_eq!(Hostname::from_str(host.as_str()), Ok(host.clone()));
    }
}

#[test]
fn test_validate_needs_forced_repositories_for_s3() {
    let result = Scraper::new().with_servers(servers()).validate();
    match result {
        Err(ScrapeError::EmptyRepositoryList(text)) => assert_eq!(
            text,
            "Forced repositories list cannot be empty if any servers use the S3 backend"
        ),
        _ => panic!("validation should have failed"),
    }
}

#[test]
fn test_validate_without_s3_needs_no_forced_repositories() {
    let mut list = servers();
    list.pop();
    assert!(Scraper::new().with_servers(list).validate().is_ok());
    assert!(Scraper::default().with_servers(vec![]).validate().is_ok());
}

#[test]
fn test_validate_with_forced_repositories() {
    let scraper = Scraper::new()
        .forced_repositories(names(&["software.eessi.io"]))
        .with_servers(servers())
        .ignored_repositories(names(&["nope.eessi.io"]));
    assert!(scraper.validate().is_ok());
}

#[test]
fn test_geoapi_servers_have_to_be_hostnames() {
    let result = Scraper::new()
        .geoapi_servers(names(&["cvmfs-stratum-one.cern.ch", "not a host", "-also.not"]));
    match result {
        Err(error) => assert_eq!(error, HostnameError::InvalidChar("not a host".to_string())),
        Ok(_) => panic!("the hosts should have been refused"),
    }
    assert!(Scraper::new()
        .with_servers(servers())
        .geoapi_servers(names(&["cvmfs-stratum-one.cern.ch"]))
        .is_ok());
}

#[test]
fn test_scraping_using_builder_interface() {
    let scraper = Scraper::new()
        .forced_repositories(names(&["software.eessi.io", "dev.eessi.io", "riscv.eessi.io"]))
        .ignored_repositories(names(&["riscv.eessi.io"]))
        .only_scrape_forced_repositories(true)
        .geoapi_servers(names(&["cvmfs-s1fnal.opensciencegrid.org"]))
        .unwrap()
        .with_servers(servers());

    let begun = scraper.validate().unwrap().begin_scrapes();
    assert_eq!(begun.len(), 3);
    for (i, (state, step)) in begun.iter().enumerate() {
        assert_eq!(state.server, servers()[i]);
        assert_eq!(state.ignored, names(&["riscv.eessi.io"]));
        assert!(state.only_forced);
        assert_eq!(state.geoapi_servers, vec![Hostname("cvmfs-s1fnal.opensciencegrid.org".to_string())]);
        assert_eq!(state.names.names(), &names(&["dev.eessi.io", "software.eessi.io"]));
        if i < 2 {
            assert_eq!(step, &ScrapeStep::Fetch(ScrapeRequest::RepositoriesJson));
            assert_eq!(state.phase, ScrapePhase::AwaitingRepositoriesJson);
        } else {
            assert_eq!(
                step,
                &ScrapeStep::Fetch(ScrapeRequest::RepositoryStatus("dev.eessi.io".to_string()))
            );
            assert_eq!(state.backend_detected, ServerBackendType::S3);
        }
    }
}

#[test]
fn test_scraper_without_geoapi_hosts_takes_the_default_ones() {
    let scraper = Scraper::new()
        .geoapi_servers(vec![])
        .unwrap()
        .with_servers(vec![servers().remove(0)])
        .validate()
        .unwrap();
    let begun = scraper.begin_scrapes();
    assert_eq!(begun[0].0.geoapi_servers, default_geoapi_servers());
}
