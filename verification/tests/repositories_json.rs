use cvmfs_server_scraper::errors::ScrapeError;
use cvmfs_server_scraper::models::{
    MaybeRfc2822DateTime, MetadataFromRepoJSON, RepositoriesJSON, RepositoriesJSONRepo,
    Rfc2822DateTime, StatusJSON,
};
use cvmfs_server_scraper::versions::Version;

fn text_of(value: &serde_json::Value, key: &str) -> Option<String> {
    value.get(key).and_then(|v| v.as_str()).map(|s| s.to_string())
}

fn repos_of(value: &serde_json::Value, key: &str) -> Vec<RepositoriesJSONRepo> {
    value
        .get(key)
        .and_then(|v| v.as_array())
        .unwrap()
        .iter()
        .map(|repo| RepositoriesJSONRepo {
            name: text_of(repo, "name").unwrap(),
            url: text_of(repo, "url").unwrap(),
        })
        .collect()
}

fn repositories_json_from(json_data: &str) -> RepositoriesJSON {
    let value: serde_json::Value = serde_json::from_str(json_data).unwrap();
    RepositoriesJSON {
        schema: value.get("schema").and_then(|v| v.as_u64()).unwrap() as u32,
        last_geodb_update: MaybeRfc2822DateTime(text_of(&value, "last_geodb_update")),
        cvmfs_version: text_of(&value, "cvmfs_version"),
        os_id: text_of(&value, "os_id"),
        os_version_id: text_of(&value, "os_version_id"),
        os_pretty_name: text_of(&value, "os_pretty_name"),
        repositories: repos_of(&value, "repositories"),
        replicas: repos_of(&value, "replicas"),
    }
}

fn status_json_from(json_data: &str) -> StatusJSON {
    let value: serde_json::Value = serde_json::from_str(json_data).unwrap();
    StatusJSON {
        last_snapshot: MaybeRfc2822DateTime(text_of(&value, "last_snapshot")),
        last_gc: MaybeRfc2822DateTime(text_of(&value, "last_gc")),
    }
}

#[test]
fn test_status_json_deserialization() {
    let json_data = r#"
        {
            "last_snapshot": "Fri Jun 21 17:40:02 UTC 2024",
            "last_gc": "Sun Jun 16 00:00:59 UTC 2024"
        }
        "#;

    let status: StatusJSON = status_json_from(json_data);

    assert_eq!(
        status.last_snapshot.try_into_datetime().unwrap(),
        Some(
            Rfc2822DateTime::from("Fri, 21 Jun 2024 17:40:02 +0000")
                .try_into_datetime()
                .unwrap()
        )
    );
    assert_eq!(
        status.last_gc.try_into_datetime().unwrap(),
        Some(
            Rfc2822DateTime::from("Sun, 16 Jun 2024 00:00:59 +0000")
                .try_into_datetime()
                .unwrap()
        )
    );
}

#[test]
fn test_repositories_json_deserialization() {
    let json_data = r#"
        {
            "schema": 1,
            "last_geodb_update": "Tue Jun 18 13:40:04 UTC 2024",
            "cvmfs_version": "2.11.3-1",
            "os_id": "rhel",
            "os_version_id": "9.4",
            "os_pretty_name": "Red Hat Enterprise Linux 9.4 (Plow)",
            "repositories": [],
            "replicas": [
                {
                    "name": "dev.eessi.io",
                    "url": "/cvmfs/dev.eessi.io"
                },
                {
                    "name": "riscv.eessi.io",
                    "url": "/cvmfs/riscv.eessi.io"
                },
                {
                    "name": "software.eessi.io",
                    "url": "/cvmfs/software.eessi.io"
                }
            ]
        }
        "#;
    let metadata: RepositoriesJSON = repositories_json_from(json_data);
    assert_eq!(metadata.schema, 1);
    assert_eq!(
        metadata.last_geodb_update.try_into_datetime().unwrap(),
        Some(
            Rfc2822DateTime::from("Tue, 18 Jun 2024 13:40:04 +0000")
                .try_into_datetime()
                .unwrap()
        )
    );
    assert_eq!(metadata.cvmfs_version, Some("2.11.3-1".to_string()));
    assert_eq!(metadata.os_id, Some("rhel".to_string()));
    assert_eq!(metadata.os_version_id, Some("9.4".to_string()));
    assert_eq!(
        metadata.os_pretty_name,
        Some("Red Hat Enterprise Linux 9.4 (Plow)".to_string())
    );
    assert_eq!(metadata.repositories.len(), 0);
    assert_eq!(metadata.replicas.len(), 3);

    assert_eq!(metadata.replicas[0].name, "dev.eessi.io");
    assert_eq!(metadata.replicas[0].url, "/cvmfs/dev.eessi.io");

    assert_eq!(metadata.replicas[1].name, "riscv.eessi.io");
    assert_eq!(metadata.replicas[1].url, "/cvmfs/riscv.eessi.io");

    assert_eq!(metadata.replicas[2].name, "software.eessi.io");
    assert_eq!(metadata.replicas[2].url, "/cvmfs/software.eessi.io");
}

#[test]
fn test_repositories_and_replicas_with_replicas() {
    let json_data = r#"
        {
            "schema": 1,
            "last_geodb_update": "Tue Jun 18 13:40:04 UTC 2024",
            "cvmfs_version": "2.11.3-1",
            "os_id": "rhel",
            "os_version_id": "9.4",
            "os_pretty_name": "Red Hat Enterprise Linux 9.4 (Plow)",
            "repositories": [],
            "replicas": [
                {
                    "name": "replica1",
                    "url": "/cvmfs/replica1"
                },
                {
                    "name": "replica2",
                    "url": "/cvmfs/replica2"
                }
            ]
        }
        "#;

    let metadata: RepositoriesJSON = repositories_json_from(json_data);
    let repos = metadata.repositories_and_replicas();
    assert_eq!(repos.len(), 2);

    assert_eq!(repos[0].name, "replica1");
    assert_eq!(repos[0].url, "/cvmfs/replica1");

    assert_eq!(repos[1].name, "replica2");
    assert_eq!(repos[1].url, "/cvmfs/replica2");
}

#[test]
fn test_repositories_and_replicas_with_repositories() {
    let json_data = r#"
        {
            "schema": 1,
            "last_geodb_update": "Tue Jun 18 13:40:04 UTC 2024",
            "cvmfs_version": "2.11.3-1",
            "os_id": "rhel",
            "os_version_id": "9.4",
            "os_pretty_name": "Red Hat Enterprise Linux 9.4 (Plow)",
            "repositories": [
                {
                    "name": "repo1",
                    "url": "/cvmfs/repo1"
                },
                {
                    "name": "repo2",
                    "url": "/cvmfs/repo2"
                }
            ],
            "replicas": []
        }
        "#;

    let metadata: RepositoriesJSON = repositories_json_from(json_data);
    let repos = metadata.repositories_and_replicas();
    assert_eq!(repos.len(), 2);

    assert_eq!(repos[0].name, "repo1");
    assert_eq!(repos[0].url, "/cvmfs/repo1");

    assert_eq!(repos[1].name, "repo2");
    assert_eq!(repos[1].url, "/cvmfs/repo2");
}

#[test]
fn test_repositories_and_replicas_without_repositories_and_replicas() {
    let json_data = r#"
        {
            "schema": 1,
            "last_geodb_update": "Tue Jun 18 13:40:04 UTC 2024",
            "cvmfs_version": "2.11.3-1",
            "os_id": "rhel",
            "os_version_id": "9.4",
            "os_pretty_name": "Red Hat Enterprise Linux 9.4 (Plow)",
            "repositories": [],
            "replicas": []
        }
        "#;

    let metadata: RepositoriesJSON = repositories_json_from(json_data);
    let repos = metadata.repositories_and_replicas();
    assert_eq!(repos.len(), 0);
}

#[test]
fn test_repositories_and_replicas_with_both() {
    let json_data = r#"
        {
            "schema": 1,
            "last_geodb_update": null,
            "repositories": [ { "name": "repo1", "url": "/cvmfs/repo1" } ],
            "replicas": [ { "name": "replica1", "url": "/cvmfs/replica1" } ]
        }
        "#;

    let metadata: RepositoriesJSON = repositories_json_from(json_data);
    let repos = metadata.repositories_and_replicas();
    assert_eq!(
        repos,
        vec![
            RepositoriesJSONRepo { name: "repo1".to_string(), url: "/cvmfs/repo1".to_string() },
            RepositoriesJSONRepo { name: "replica1".to_string(), url: "/cvmfs/replica1".to_string() },
        ]
    );
}

#[test]
fn test_last_geodb_update_incorrect_date_format() {
    let json_data = r#"
        {
            "schema": 1,
            "last_geodb_update": "Tue Jun 18 13:40:04 2024",
            "cvmfs_version": "2.11.3-1",
            "os_id": "rhel",
            "os_version_id": "9.4",
            "os_pretty_name": "Red Hat Enterprise Linux 9.4 (Plow)",
            "repositories": [],
            "replicas": []
        }
        "#;

    let metadata: RepositoriesJSON = repositories_json_from(json_data);
    assert!(metadata.last_geodb_update.try_into_datetime().is_err());
}

#[test]
fn test_metadata_from_repositories_json() {
    let json_data = r#"
        {
            "schema": 1,
            "last_geodb_update": "Tue Jun 18 13:40:04 UTC 2024",
            "cvmfs_version": "2.11.3-1",
            "os_id": "rhel",
            "os_version_id": "9.4",
            "os_pretty_name": "Red Hat Enterprise Linux 9.4 (Plow)",
            "repositories": [],
            "replicas": []
        }
        "#;
    let repo_json = repositories_json_from(json_data);
    assert_eq!(
        MetadataFromRepoJSON::try_from(&repo_json),
        Ok(MetadataFromRepoJSON {
            schema_version: Some(1),
            cvmfs_version: Some(Version {
                major: 2,
                minor: 11,
                patch: 3,
                pre: "1".to_string(),
                build: "".to_string(),
            }),
            last_geodb_update: MaybeRfc2822DateTime(Some(
                "Tue Jun 18 13:40:04 UTC 2024".to_string()
            )),
            os_version_id: Some("9.4".to_string()),
            os_pretty_name: Some("Red Hat Enterprise Linux 9.4 (Plow)".to_string()),
            os_id: Some("rhel".to_string()),
        })
    );
}

#[test]
fn test_metadata_from_repositories_json_without_version() {
    let repo_json = repositories_json_from(
        r#"{ "schema": 7, "last_geodb_update": null, "repositories": [], "replicas": [] }"#,
    );
    assert_eq!(
        MetadataFromRepoJSON::try_from(&repo_json),
        Ok(MetadataFromRepoJSON {
            schema_version: Some(7),
            cvmfs_version: None,
            last_geodb_update: MaybeRfc2822DateTime(None),
            os_version_id: None,
            os_pretty_name: None,
            os_id: None,
        })
    );
}

#[test]
fn test_metadata_from_repositories_json_with_build_metadata() {
    let repo_json = repositories_json_from(
        r#"{ "schema": 1, "cvmfs_version": "2.8.4-rc.1+build.5", "repositories": [], "replicas": [] }"#,
    );
    assert_eq!(
        MetadataFromRepoJSON::try_from(&repo_json).unwrap().cvmfs_version,
        Some(Version {
            major: 2,
            minor: 8,
            patch: 4,
            pre: "rc.1".to_string(),
            build: "build.5".to_string(),
        })
    );
}

#[test]
fn test_metadata_from_repositories_json_with_unreadable_version() {
    let repo_json = repositories_json_from(
        r#"{ "schema": 1, "cvmfs_version": "2.11", "repositories": [], "replicas": [] }"#,
    );
    assert_eq!(
        MetadataFromRepoJSON::try_from(&repo_json),
        Err(ScrapeError::ConversionError(
            "unexpected end of input while parsing minor version number".to_string()
        ))
    );
}

#[test]
fn test_metadata_with_version() {
    let repo_json = repositories_json_from(
        r#"{ "schema": 3, "os_id": "debian", "repositories": [], "replicas": [] }"#,
    );
    let version = Version { major: 1, minor: 2, patch: 3, pre: String::new(), build: String::new() };
    let metadata = MetadataFromRepoJSON::with_version(&repo_json, Some(version.clone()));
    assert_eq!(metadata.schema_version, Some(3));
    assert_eq!(metadata.cvmfs_version, Some(version));
    assert_eq!(metadata.os_id, Some("debian".to_string()));
    assert_eq!(MetadataFromRepoJSON::unset().schema_version, None);
}

#[test]
fn test_metadata_from_parsed_version() {
    let repo_json = repositories_json_from(
        r#"{ "schema": 3, "os_id": "debian", "repositories": [], "replicas": [] }"#,
    );
    let version = Version { major: 1, minor: 2, patch: 3, pre: String::new(), build: String::new() };
    assert_eq!(
        MetadataFromRepoJSON::from_parsed_version(&repo_json, Some(Ok(version.clone()))),
        Ok(MetadataFromRepoJSON::with_version(&repo_json, Some(version)))
    );
    assert_eq!(
        MetadataFromRepoJSON::from_parsed_version(&repo_json, None),
        Ok(MetadataFromRepoJSON::with_version(&repo_json, None))
    );
    assert_eq!(
        MetadataFromRepoJSON::from_parsed_version(&repo_json, Some(Err("bad".to_string()))),
        Err(ScrapeError::ConversionError("bad".to_string()))
    );
}
