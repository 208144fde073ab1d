use cvmfs_server_scraper::errors::{
    CVMFSScraperError, GenericError, ManifestError, ScrapeError,
};
use cvmfs_server_scraper::models::servers::default_backend_type;
use cvmfs_server_scraper::models::{
    FailedServer, GeoapiServerQuery, HexString, Hostname, Manifest, MaybeRfc2822DateTime,
    MetaJSON, MetadataFromRepoJSON, PopulatedRepositoryOrReplica, PopulatedServer,
    RepositoriesJSON, RepositoriesJSONRepo, RepositoryOrReplica, ScrapedServer, Server,
    ServerBackendType, ServerMetadata, ServerType, StatusJSON,
};
use cvmfs_server_scraper::versions::Version;

const MANIFEST: &str = "C\nB1\nAno\nR\nX\nGno\nH\nT2\nD3\nS42\nNrepo.example.org\nM\nY\n--\nsig\n";

fn server(server_type: ServerType, backend_type: ServerBackendType) -> Server {
    Server::new(server_type, backend_type, Hostname("s1.example.org".to_string()))
}

fn repo_json(repositories: &[&str], replicas: &[&str]) -> RepositoriesJSON {
    let list = |names: &[&str]| {
        names
            .iter()
            .map(|n| RepositoriesJSONRepo { name: n.to_string(), url: format!("/cvmfs/{}", n) })
            .collect::<Vec<_>>()
    };
    RepositoriesJSON {
        schema: 1,
        last_geodb_update: MaybeRfc2822DateTime(None),
        cvmfs_version: None,
        os_id: None,
        os_version_id: None,
        os_pretty_name: None,
        repositories: list(repositories),
        replicas: list(replicas),
    }
}

fn empty_hash() -> HexString {
    HexString::new("").unwrap()
}

fn manifest() -> Manifest {
    Manifest {
        c: empty_hash(),
        b: 1,
        a: false,
        r: empty_hash(),
        x: empty_hash(),
        g: false,
        h: empty_hash(),
        t: 2,
        d: 3,
        s: 42,
        n: "repo.example.org".to_string(),
        m: empty_hash(),
        y: empty_hash(),
        l: String::new(),
        signature: "sig".to_string(),
    }
}

fn populated_server() -> PopulatedServer {
    PopulatedServer {
        server_type: ServerType::Stratum1,
        backend_type: ServerBackendType::AutoDetect,
        backend_detected: ServerBackendType::CVMFS,
        hostname: Hostname("s1.example.org".to_string()),
        repositories: vec![PopulatedRepositoryOrReplica {
            name: "repo.example.org".to_string(),
            manifest: manifest(),
            last_snapshot: MaybeRfc2822DateTime(None),
            last_gc: MaybeRfc2822DateTime(None),
        }],
        metadata: ServerMetadata::unset(),
        geoapi: GeoapiServerQuery {
            hostname: Hostname("s1.example.org".to_string()),
            geoapi_hosts: vec![],
            response: vec![],
        },
    }
}

#[test]
fn test_default_backend_type() {
    assert_eq!(default_backend_type(), ServerBackendType::AutoDetect);
}

#[test]
fn test_server_new() {
    let s = server(ServerType::Stratum0, ServerBackendType::S3);
    assert_eq!(s.server_type, ServerType::Stratum0);
    assert_eq!(s.backend_type, ServerBackendType::S3);
    assert_eq!(s.hostname.as_str(), "s1.example.org");
    assert_eq!(s.clone(), s);
}

#[test]
fn test_names_of_roles_and_backends() {
    assert_eq!(ServerType::Stratum0.name(), "Stratum0");
    assert_eq!(ServerType::Stratum1.name(), "Stratum1");
    assert_eq!(ServerType::SyncServer.name(), "SyncServer");
    assert_eq!(ServerBackendType::S3.name(), "S3");
    assert_eq!(ServerBackendType::CVMFS.name(), "CVMFS");
    assert_eq!(ServerBackendType::AutoDetect.name(), "AutoDetect");
}

#[test]
fn test_to_failed_server() {
    let s = server(ServerType::SyncServer, ServerBackendType::CVMFS);
    let error = CVMFSScraperError::ScrapeError(ScrapeError::FetchError("refused".to_string()));
    assert_eq!(
        s.to_failed_server(error.clone()),
        FailedServer {
            hostname: Hostname("s1.example.org".to_string()),
            server_type: ServerType::SyncServer,
            backend_type: ServerBackendType::CVMFS,
            error,
        }
    );
}

#[test]
fn test_validate_stratum0_with_replicas() {
    let s = server(ServerType::Stratum0, ServerBackendType::CVMFS);
    let error = s.validate_repo_json_and_server_type(&repo_json(&[], &["a"])).unwrap_err();
    assert_eq!(
        error.to_string(),
        "Scrape error: Server type mismatch: s1.example.org is a Stratum0 server, but replicas were found in the repositories.json"
    );
}

#[test]
fn test_validate_stratum1_without_replicas() {
    let s = server(ServerType::Stratum1, ServerBackendType::CVMFS);
    let error = s.validate_repo_json_and_server_type(&repo_json(&["a"], &[])).unwrap_err();
    assert_eq!(
        error,
        CVMFSScraperError::ScrapeError(ScrapeError::ServerTypeMismatch(
            "s1.example.org is a Stratum1 server, but no replicas were found in the repositories.json"
                .to_string()
        ))
    );
}

#[test]
fn test_validate_sync_server_without_replicas() {
    let s = server(ServerType::SyncServer, ServerBackendType::CVMFS);
    let error = s.validate_repo_json_and_server_type(&repo_json(&[], &[])).unwrap_err();
    assert_eq!(
        error,
        CVMFSScraperError::ScrapeError(ScrapeError::ServerTypeMismatch(
            "s1.example.org is a SyncServer, but no replicas were found in the repositories.json"
                .to_string()
        ))
    );
}

#[test]
fn test_validate_roles_that_fit() {
    let with = repo_json(&[], &["a"]);
    let without = repo_json(&["a"], &[]);
    assert_eq!(
        server(ServerType::Stratum0, ServerBackendType::CVMFS)
            .validate_repo_json_and_server_type(&without),
        Ok(())
    );
    assert_eq!(
        server(ServerType::Stratum1, ServerBackendType::CVMFS)
            .validate_repo_json_and_server_type(&with),
        Ok(())
    );
    assert_eq!(
        server(ServerType::SyncServer, ServerBackendType::AutoDetect)
            .validate_repo_json_and_server_type(&with),
        Ok(())
    );
}

fn repo_metadata() -> MetadataFromRepoJSON {
    MetadataFromRepoJSON {
        schema_version: Some(1),
        cvmfs_version: Some(Version {
            major: 2,
            minor: 8,
            patch: 4,
            pre: String::new(),
            build: String::new(),
        }),
        last_geodb_update: MaybeRfc2822DateTime(Some("Wed, 21 Oct 2015 07:28:00 GMT".to_string())),
        os_version_id: Some("rhel7".to_string()),
        os_pretty_name: Some("Red Hat Enterprise Linux 7".to_string()),
        os_id: Some("rhel".to_string()),
    }
}

fn meta_json() -> MetaJSON {
    MetaJSON {
        administrator: "admin".to_string(),
        email: "admin@host.com".to_string(),
        organisation: "host.com".to_string(),
        custom: serde_json::from_str(r#"{"key": "value"}"#).unwrap(),
    }
}

#[test]
fn test_merge_metadata_of_both_sources() {
    let s = server(ServerType::Stratum1, ServerBackendType::CVMFS);
    let merged = s.merge_metadata(repo_metadata(), Some(meta_json()));
    let repo = repo_metadata();
    let meta = meta_json();
    assert_eq!(
        merged,
        ServerMetadata {
            schema_version: repo.schema_version,
            cvmfs_version: repo.cvmfs_version,
            last_geodb_update: repo.last_geodb_update,
            os_version_id: repo.os_version_id,
            os_pretty_name: repo.os_pretty_name,
            os_id: repo.os_id,
            administrator: Some(meta.administrator),
            email: Some(meta.email),
            organisation: Some(meta.organisation),
            custom: Some(meta.custom),
        }
    );
}

#[test]
fn test_merge_metadata_without_contact() {
    let s = server(ServerType::Stratum1, ServerBackendType::CVMFS);
    let merged = s.merge_metadata(repo_metadata(), None);
    assert_eq!(merged.schema_version, Some(1));
    assert_eq!(merged.os_id, Some("rhel".to_string()));
    assert_eq!(merged.administrator, None);
    assert_eq!(merged.email, None);
    assert_eq!(merged.organisation, None);
    assert_eq!(merged.custom, None);
}

#[test]
fn test_merge_metadata_without_self_description() {
    let s = server(ServerType::Stratum1, ServerBackendType::S3);
    let merged = s.merge_metadata(MetadataFromRepoJSON::unset(), Some(meta_json()));
    assert_eq!(merged.schema_version, None);
    assert_eq!(merged.cvmfs_version, None);
    assert_eq!(merged.last_geodb_update, MaybeRfc2822DateTime(None));
    assert_eq!(merged.os_version_id, None);
    assert_eq!(merged.os_pretty_name, None);
    assert_eq!(merged.os_id, None);
    assert_eq!(merged.administrator, Some("admin".to_string()));
    assert_eq!(merged.email, Some("admin@host.com".to_string()));
    assert_eq!(merged.organisation, Some("host.com".to_string()));
}

#[test]
fn test_merge_repo_metadata_keeps_contact_fields() {
    let mut metadata = ServerMetadata::from(meta_json());
    metadata.schema_version = Some(9);
    metadata.merge_repo_metadata(repo_metadata());
    assert_eq!(metadata.schema_version, Some(1));
    assert_eq!(metadata.administrator, Some("admin".to_string()));
    metadata.merge_repo_metadata(MetadataFromRepoJSON::unset());
    assert_eq!(metadata.schema_version, None);
    assert_eq!(metadata.os_id, None);
    assert_eq!(metadata.email, Some("admin@host.com".to_string()));
    assert_eq!(metadata.custom, Some(meta_json().custom));
}

#[test]
fn test_scraped_server_populated() {
    let scraped = ScrapedServer::Populated(populated_server());
    assert!(scraped.is_ok());
    assert!(!scraped.is_failed());
    assert_eq!(
        ScrapedServer::Populated(populated_server()).get_failed_server(),
        Err(GenericError::TypeError("s1.example.org is a populated server".to_string()))
    );
    assert_eq!(scraped.get_populated_server(), Ok(populated_server()));
}

#[test]
fn test_scraped_server_failed() {
    let failed = server(ServerType::Stratum1, ServerBackendType::S3).to_failed_server(
        CVMFSScraperError::ManifestError(ManifestError::MissingField('C')),
    );
    let scraped = ScrapedServer::Failed(failed.clone());
    assert!(!scraped.is_ok());
    assert!(scraped.is_failed());
    assert_eq!(
        ScrapedServer::Failed(failed.clone()).get_populated_server(),
        Err(GenericError::TypeError("s1.example.org is a failed server".to_string()))
    );
    assert_eq!(scraped.get_failed_server(), Ok(failed));
}

#[test]
fn test_populated_server_has_repository() {
    let s = populated_server();
    assert!(s.has_repository("repo.example.org"));
    assert!(!s.has_repository("repo.example"));
    assert!(!s.has_repository(""));
    assert_eq!(s.to_string(), "s1.example.org (Stratum1, AutoDetect)");
    assert_eq!(s.repositories[0].revision(), 42);
}

#[test]
fn test_populate_repository() {
    let s = server(ServerType::Stratum1, ServerBackendType::CVMFS);
    let repository = RepositoryOrReplica::new("repo.example.org", &s);
    assert_eq!(repository.name, "repo.example.org");
    assert_eq!(repository.server, s);
    let status = StatusJSON {
        last_snapshot: MaybeRfc2822DateTime(Some("Fri Jun 21 17:40:02 UTC 2024".to_string())),
        last_gc: MaybeRfc2822DateTime(None),
    };
    assert_eq!(
        repository.populate(Ok(status), Ok(MANIFEST.to_string())),
        Ok(PopulatedRepositoryOrReplica {
            name: "repo.example.org".to_string(),
            manifest: manifest(),
            last_snapshot: MaybeRfc2822DateTime(Some("Fri Jun 21 17:40:02 UTC 2024".to_string())),
            last_gc: MaybeRfc2822DateTime(None),
        })
    );
}

#[test]
fn test_populate_repository_failures() {
    let s = server(ServerType::Stratum1, ServerBackendType::CVMFS);
    let repository = RepositoryOrReplica::new("repo.example.org", &s);
    let status = || StatusJSON {
        last_snapshot: MaybeRfc2822DateTime(None),
        last_gc: MaybeRfc2822DateTime(None),
    };
    assert_eq!(
        repository.populate(
            Err(ScrapeError::FetchError("404".to_string())),
            Err(ManifestError::FetchError("404".to_string()))
        ),
        Err(CVMFSScraperError::ScrapeError(ScrapeError::FetchError("404".to_string())))
    );
    assert_eq!(
        repository.populate(Ok(status()), Err(ManifestError::FetchError("404".to_string()))),
        Err(CVMFSScraperError::ManifestError(ManifestError::FetchError("404".to_string())))
    );
    assert_eq!(
        repository.populate(Ok(status()), Ok("C\nBx\n".to_string())),
        Err(CVMFSScraperError::ManifestError(ManifestError::ParseError(
            'B',
            "invalid digit found in string".to_string()
        )))
    );
}

#[test]
fn test_error_texts() {
    let cases = [
        (ScrapeError::FetchError("x".to_string()), "Failed to scrape: x"),
        (ScrapeError::ParseError("x".to_string()), "Failed to parse scrape result: x"),
        (ScrapeError::InvalidJson("x".to_string()), "Failed to parse scrape result: x"),
        (
            ScrapeError::EmptyRepositoryList("x".to_string()),
            "Empty repository list with S3 backend: x",
        ),
        (ScrapeError::ServerTypeMismatch("x".to_string()), "Server type mismatch: x"),
        (ScrapeError::ChronoParseError("x".to_string()), "Chrono parsing error: x"),
        (ScrapeError::ConversionError("x".to_string()), "Conversion error: x"),
        (ScrapeError::GeoAPIFailure("x".to_string()), "GeoAPI failure: x"),
    ];
    for (error, text) in cases {
        assert_eq!(error.to_string(), text);
        assert_eq!(
            CVMFSScraperError::ScrapeError(error.clone()).to_string(),
            format!("Scrape error: {}", text)
        );
        assert_eq!(error.is_fetch_error(), text.starts_with("Failed to scrape"));
    }
    assert_eq!(GenericError::TypeError("x".to_string()).to_string(), "Type error: x");
    assert_eq!(
        CVMFSScraperError::GenericError(GenericError::TypeError("x".to_string())).to_string(),
        "Generic error: Type error: x"
    );
    assert_eq!(
        CVMFSScraperError::ManifestError(ManifestError::MissingField('C')).to_string(),
        "Manifest error: Missing field C"
    );
    assert_eq!(
        CVMFSScraperError::HostnameError(cvmfs_server_scraper::errors::HostnameError::TooLong(
            "x".to_string()
        ))
        .to_string(),
        "Hostname error: Invalid hostname length: x > 255"
    );
}

#[test]
fn test_errors_convert_into_the_common_error() {
    let scrape = ScrapeError::FetchError("x".to_string());
    assert_eq!(CVMFSScraperError::from(scrape.clone()), CVMFSScraperError::ScrapeError(scrape));
    let manifest = ManifestError::MissingField('C');
    let converted: CVMFSScraperError = manifest.clone().into();
    assert_eq!(converted, CVMFSScraperError::ManifestError(manifest));
    let generic = GenericError::TypeError("x".to_string());
    assert_eq!(CVMFSScraperError::from(generic.clone()), CVMFSScraperError::GenericError(generic));
    let hostname = cvmfs_server_scraper::HostnameError::InvalidChar("x".to_string());
    assert_eq!(
        CVMFSScraperError::from(hostname.clone()),
        CVMFSScraperError::HostnameError(hostname)
    );
}
