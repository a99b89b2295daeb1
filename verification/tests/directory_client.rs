use mods_cf::curseforge::mods::{
    classify_files_response, classify_project_response, complete_file_lookup, index_files,
    select_batch_record, DirectoryError, File, FileHash, FileHashAlgorithm, FileIndex,
    FileReleaseType, FileStatus, FilesFetchStep, Mod, ModAsset, ModAuthor, ModLinks,
    ModLoaderType, ModStatus, ProjectFetchStep,
};
use mods_cf::curseforge::{files_endpoint_url, mod_endpoint_url};

fn record(id: u64, project_id: u64, file_name: &str) -> File {
    File {
        id,
        game_id: 432,
        project_id,
        is_available: true,
        display_name: Some(file_name.to_string()),
        file_name: file_name.to_string(),
        release_type: FileReleaseType::Beta,
        status: FileStatus::Released,
        hashes: vec![FileHash {
            value: "da39a3ee5e6b4b0d3255bfef95601890afd80709".to_string(),
            algorithm: FileHashAlgorithm::Sha1,
        }],
        date_uploaded_ms: 1_700_000_000_000,
        size: 2048,
        download_count: 7,
        size_on_disk: Some(2048),
        download_url: None,
        game_versions: vec!["1.21".to_string()],
        expose_as_alternative: true,
        parent_project_file_id: None,
        alternate_file_id: None,
        is_server_pack: false,
        server_pack_file_id: None,
        is_early_access_content: false,
        early_access_end_date_ms: None,
        fingerprint: 99,
    }
}

fn project(id: u64) -> Mod {
    Mod {
        id,
        game_id: 432,
        name: "A Mod".to_string(),
        slug: "a-mod".to_string(),
        links: ModLinks {
            website_url: "https://www.curseforge.com/minecraft/mc-mods/a-mod".to_string(),
            wiki_url: Some("https://wiki.example".to_string()),
            issues_url: None,
            sources_url: None,
        },
        summary: "summary".to_string(),
        status: ModStatus::Approved,
        download_count: 3,
        is_featured: false,
        primary_category_id: 6,
        class_id: Some(6),
        authors: vec![ModAuthor {
            id: 9,
            name: "author".to_string(),
            url: "https://example.com/author".to_string(),
            avatar_url: None,
        }],
        logo: ModAsset {
            id: 1,
            project_id: id,
            title: Some("logo".to_string()),
            description: None,
            thumbnail_url: None,
            url: "https://example.com/logo.png".to_string(),
        },
        screenshots: Vec::new(),
        main_file_id: Some(77),
        latest_files: Vec::new(),
        latest_files_indexes: vec![FileIndex {
            game_version: "1.21".to_string(),
            file_id: 77,
            file_name: "a-mod.jar".to_string(),
            release_type: FileReleaseType::Release,
            game_version_type_id: None,
            mod_loader: Some(ModLoaderType::Fabric),
        }],
        latest_early_access_files_indexes: Vec::new(),
        date_created_ms: 1_600_000_000_000,
        date_modified_ms: Some(1_650_000_000_000),
        date_released_ms: None,
        allow_mod_distribution: true,
        game_popularity_rank: Some(12),
        is_available: true,
        has_comments_enabled: true,
        thumbs_up_count: Some(4),
    }
}

#[test]
fn project_fetch_acts_on_the_status_class() {
    assert_eq!(classify_project_response(200), ProjectFetchStep::DecodeBody);
    assert_eq!(classify_project_response(204), ProjectFetchStep::DecodeBody);
    assert_eq!(classify_project_response(299), ProjectFetchStep::DecodeBody);
    assert_eq!(classify_project_response(404), ProjectFetchStep::ReportNotFound);
    assert_eq!(classify_project_response(301), ProjectFetchStep::Fail);
    assert_eq!(classify_project_response(400), ProjectFetchStep::Fail);
    assert_eq!(classify_project_response(500), ProjectFetchStep::Fail);
}

#[test]
fn files_fetch_treats_bad_batches_as_empty() {
    assert_eq!(classify_files_response(200), FilesFetchStep::DecodeBody);
    assert_eq!(classify_files_response(400), FilesFetchStep::EmptyResult);
    assert_eq!(classify_files_response(404), FilesFetchStep::EmptyResult);
    assert_eq!(classify_files_response(500), FilesFetchStep::Fail);
    assert_eq!(classify_files_response(502), FilesFetchStep::Fail);
}

#[test]
fn indexing_keys_records_by_id() {
    let m = index_files(vec![record(1, 10, "a.jar"), record(2, 20, "b.jar")]);
    assert_eq!(m.len(), 2);
    assert_eq!(m.get(&1).unwrap().project_id, 10);
    assert_eq!(m.get(&2).unwrap().project_id, 20);
}

#[test]
fn indexing_an_empty_batch_yields_an_empty_mapping() {
    let m = index_files(Vec::new());
    assert!(m.is_empty());
}

#[test]
fn indexing_keeps_the_last_record_of_a_duplicated_id() {
    let m = index_files(vec![record(1, 10, "old.jar"), record(1, 10, "new.jar")]);
    assert_eq!(m.len(), 1);
    assert_eq!(m.get(&1).unwrap().file_name, "new.jar".to_string());
}

#[test]
fn empty_batch_is_a_clean_miss() {
    let m = index_files(Vec::new());
    let r = select_batch_record(6774233, m);
    assert!(matches!(r, Ok(None)));
}

#[test]
fn single_matching_record_is_selected() {
    let m = index_files(vec![record(6774233, 500100, "a.jar")]);
    let r = select_batch_record(6774233, m);
    let f = r.unwrap().unwrap();
    assert_eq!(f.id, 6774233);
    assert_eq!(f.project_id, 500100);
}

#[test]
fn single_record_for_another_id_is_an_integrity_failure() {
    let m = index_files(vec![record(42, 500100, "a.jar")]);
    let r = select_batch_record(6774233, m);
    match r {
        Err(DirectoryError::InconsistentBatch { file_id, records }) => {
            assert_eq!(file_id, 6774233);
            assert_eq!(records, 1);
        }
        _ => panic!("expected an inconsistent batch"),
    }
}

#[test]
fn multiple_records_are_an_integrity_failure() {
    let m = index_files(vec![record(1, 10, "a.jar"), record(2, 20, "b.jar")]);
    let r = select_batch_record(1, m);
    match r {
        Err(DirectoryError::InconsistentBatch { file_id, records }) => {
            assert_eq!(file_id, 1);
            assert_eq!(records, 2);
        }
        _ => panic!("expected an inconsistent batch"),
    }
}

#[test]
fn found_project_completes_the_lookup() {
    let r = complete_file_lookup(77, record(77, 500100, "a.jar"), Some(project(500100)));
    let (p, f) = r.unwrap();
    assert_eq!(p.id, 500100);
    assert_eq!(f.id, 77);
}

#[test]
fn missing_project_is_an_integrity_failure_not_a_miss() {
    let r = complete_file_lookup(77, record(77, 500100, "a.jar"), None);
    match r {
        Err(DirectoryError::ProjectMissing {
            project_id,
            file_id,
        }) => {
            assert_eq!(project_id, 500100);
            assert_eq!(file_id, 77);
        }
        _ => panic!("expected a missing project error"),
    }
}

#[test]
fn failure_messages_name_their_context() {
    assert_eq!(
        DirectoryError::ProjectMissing {
            project_id: 2,
            file_id: 3
        }
        .message(),
        "no project 2 for file 3".to_string()
    );
    assert_eq!(
        DirectoryError::BadStatus(502).message(),
        "unexpected response status 502 from the mod directory".to_string()
    );
    assert_eq!(
        DirectoryError::InconsistentBatch {
            file_id: 1,
            records: 4
        }
        .message(),
        "inconsistent batch for file 1: 4 records".to_string()
    );
    assert_eq!(
        DirectoryError::Decode {
            field_path: "data.links.websiteUrl".to_string(),
            detail: "missing field".to_string()
        }
        .message(),
        "decode failure at data.links.websiteUrl: missing field".to_string()
    );
}

#[test]
fn endpoint_addresses_follow_the_versioned_api() {
    assert_eq!(
        mod_endpoint_url(42),
        "https://api.curseforge.com/v1/mods/42".to_string()
    );
    assert_eq!(
        files_endpoint_url(),
        "https://api.curseforge.com/v1/mods/files".to_string()
    );
}
