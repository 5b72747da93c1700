use std::str::FromStr;

use rs_manifest_patcher::manifest::{normalize_path, Manifest, PatchFile, Provider};

fn file_with(urls: Vec<(Provider, String)>) -> PatchFile {
    PatchFile {
        path: "files/A.bin".to_string(),
        hash: "b6d81b360a5672d80c27430f39153e2c".to_string(),
        size: 1048576,
        custom: true,
        urls,
    }
}

#[test]
fn provider_keys() {
    assert_eq!(Provider::Cloudflare.key(), "cloudflare");
    assert_eq!(Provider::DigitalOcean.key(), "digitalocean");
    assert_eq!(Provider::NoCdn.key(), "none");
    assert_eq!(Provider::Other("mirror".to_string()).key(), "mirror");
}

#[test]
fn provider_known_keys() {
    assert_eq!(Provider::known_keys(), vec!["cloudflare", "digitalocean", "none"]);
}

#[test]
fn provider_display_names() {
    assert_eq!(Provider::Cloudflare.display_name(), "Server #1");
    assert_eq!(Provider::DigitalOcean.display_name(), "Server #2");
    assert_eq!(Provider::NoCdn.display_name(), "Server #3 (Slowest)");
    assert_eq!(Provider::Other("mirror".to_string()).display_name(), "mirror");
}

#[test]
fn provider_from_known_key() {
    assert_eq!(Provider::from_str("cloudflare").unwrap(), Provider::Cloudflare);
    assert_eq!(Provider::from_str("digitalocean").unwrap(), Provider::DigitalOcean);
    assert_eq!(Provider::from_str("none").unwrap(), Provider::NoCdn);
    assert_eq!(Provider::from_key("none"), Provider::NoCdn);
}

#[test]
fn provider_from_unknown_key_passes_it_through() {
    assert_eq!(Provider::from_str("mirror").unwrap(), Provider::Other("mirror".to_string()));
    assert_eq!(Provider::from_key("Cloudflare"), Provider::Other("Cloudflare".to_string()));
    assert_eq!(Provider::from_key(""), Provider::Other(String::new()));
}

#[test]
fn provider_key_round_trip() {
    for key in ["cloudflare", "digitalocean", "none", "elsewhere"] {
        assert_eq!(Provider::from_key(key).key(), key);
    }
}

#[test]
fn provider_equality_is_by_variant_and_name() {
    assert!(Provider::Cloudflare == Provider::Cloudflare);
    assert!(Provider::Cloudflare != Provider::DigitalOcean);
    assert!(Provider::Other("a".to_string()) == Provider::Other("a".to_string()));
    assert!(Provider::Other("a".to_string()) != Provider::Other("b".to_string()));
    assert!(Provider::Other("none".to_string()) != Provider::NoCdn);
    assert_eq!(Provider::Other("a".to_string()).clone(), Provider::Other("a".to_string()));
}

#[test]
fn get_url_of_the_provider_asked_for() {
    let file = file_with(vec![
        (Provider::Cloudflare, "http://cf/A.bin".to_string()),
        (Provider::NoCdn, "http://origin/A.bin".to_string()),
    ]);
    assert_eq!(file.get_url(&Provider::Cloudflare), Some(&"http://cf/A.bin".to_string()));
    assert_eq!(file.get_url(&Provider::NoCdn), Some(&"http://origin/A.bin".to_string()));
}

#[test]
fn get_url_falls_back_to_none_provider() {
    let file = file_with(vec![
        (Provider::Cloudflare, "http://cf/A.bin".to_string()),
        (Provider::NoCdn, "http://origin/A.bin".to_string()),
    ]);
    assert_eq!(file.get_url(&Provider::DigitalOcean), Some(&"http://origin/A.bin".to_string()));
    assert_eq!(
        file.get_url(&Provider::Other("mirror".to_string())),
        Some(&"http://origin/A.bin".to_string())
    );
}

#[test]
fn get_url_without_any_match() {
    let file = file_with(vec![(Provider::Cloudflare, "http://cf/A.bin".to_string())]);
    assert_eq!(file.get_url(&Provider::DigitalOcean), None);
    assert_eq!(file_with(vec![]).get_url(&Provider::NoCdn), None);
}

#[test]
fn available_providers_in_listed_order() {
    let file = file_with(vec![
        (Provider::DigitalOcean, "http://do/A.bin".to_string()),
        (Provider::Other("mirror".to_string()), "http://m/A.bin".to_string()),
        (Provider::Cloudflare, "http://cf/A.bin".to_string()),
    ]);
    assert_eq!(
        file.available_providers(),
        vec![&Provider::DigitalOcean, &Provider::Other("mirror".to_string()), &Provider::Cloudflare]
    );
    assert!(file_with(vec![]).available_providers().is_empty());
}

#[test]
fn patch_file_clone_keeps_everything() {
    let file = file_with(vec![(Provider::Cloudflare, "http://cf/A.bin".to_string())]);
    let copy = file.clone();
    assert_eq!(copy.path, "files/A.bin");
    assert_eq!(copy.hash, "b6d81b360a5672d80c27430f39153e2c");
    assert_eq!(copy.size, 1048576);
    assert!(copy.custom);
    assert_eq!(copy.urls, vec![(Provider::Cloudflare, "http://cf/A.bin".to_string())]);
}

#[test]
fn well_formed_file() {
    assert!(file_with(vec![
        (Provider::Cloudflare, "a".to_string()),
        (Provider::NoCdn, "b".to_string()),
    ])
    .is_well_formed());
}

#[test]
fn file_with_negative_size_is_not_well_formed() {
    let mut file = file_with(vec![]);
    file.size = -1;
    assert!(!file.is_well_formed());
}

#[test]
fn file_with_a_provider_twice_is_not_well_formed() {
    let file = file_with(vec![
        (Provider::Cloudflare, "a".to_string()),
        (Provider::NoCdn, "b".to_string()),
        (Provider::Cloudflare, "c".to_string()),
    ]);
    assert!(!file.is_well_formed());
}

#[test]
fn path_with_backslashes_is_normalized() {
    assert_eq!(normalize_path("Data\\enUS\\patch.MPQ"), "Data/enUS/patch.MPQ");
    assert_eq!(normalize_path("Data/enUS/patch.MPQ"), "Data/enUS/patch.MPQ");
    assert_eq!(normalize_path("\\"), "/");
    assert_eq!(normalize_path(""), "");
    assert_eq!(normalize_path("Dätä\\ü.bin"), "Dätä/ü.bin");
}

#[test]
fn manifest_paths_are_normalized_and_the_rest_is_kept() {
    let mut first = file_with(vec![(Provider::Cloudflare, "http://cf\\A.bin".to_string())]);
    first.path = "files\\A.bin".to_string();
    let mut second = file_with(vec![]);
    second.path = "files/sub\\B.bin".to_string();
    second.size = 5;
    let mut manifest = Manifest {
        version: "1.0\\x".to_string(),
        uid: "5a63cd8c-956c-48a0-95ae-7e41d1e73182".to_string(),
        files: vec![first, second],
        removals: Some(vec!["old\\file".to_string()]),
    };
    manifest.normalize_paths();
    assert_eq!(manifest.version, "1.0\\x");
    assert_eq!(manifest.uid, "5a63cd8c-956c-48a0-95ae-7e41d1e73182");
    assert_eq!(manifest.files.len(), 2);
    assert_eq!(manifest.files[0].path, "files/A.bin");
    assert_eq!(manifest.files[0].hash, "b6d81b360a5672d80c27430f39153e2c");
    assert_eq!(manifest.files[0].size, 1048576);
    assert_eq!(manifest.files[0].urls, vec![(Provider::Cloudflare, "http://cf\\A.bin".to_string())]);
    assert_eq!(manifest.files[1].path, "files/sub/B.bin");
    assert_eq!(manifest.files[1].size, 5);
    assert_eq!(manifest.removals, Some(vec!["old\\file".to_string()]));
}

#[test]
fn manifest_is_well_formed_when_every_file_is() {
    let mut manifest = Manifest {
        version: "1.0".to_string(),
        uid: "u".to_string(),
        files: vec![file_with(vec![]), file_with(vec![])],
        removals: None,
    };
    assert!(manifest.is_well_formed());
    manifest.files[1].size = -5;
    assert!(!manifest.is_well_formed());
    manifest.files.clear();
    assert!(manifest.is_well_formed());
}

#[test]
fn manifest_clone_keeps_everything() {
    let manifest = Manifest {
        version: "1.0".to_string(),
        uid: "u".to_string(),
        files: vec![file_with(vec![(Provider::Cloudflare, "http://cf/A.bin".to_string())])],
        removals: Some(vec!["old".to_string(), "older".to_string()]),
    };
    let copy = manifest.clone();
    assert_eq!(copy.version, "1.0");
    assert_eq!(copy.uid, "u");
    assert_eq!(copy.files.len(), 1);
    assert_eq!(copy.files[0].path, "files/A.bin");
    assert_eq!(copy.files[0].urls, vec![(Provider::Cloudflare, "http://cf/A.bin".to_string())]);
    assert_eq!(copy.removals, Some(vec!["old".to_string(), "older".to_string()]));
}

#[test]
fn location_is_reached_through_the_manifest_module() {
    let location = rs_manifest_patcher::manifest::Location::FilePath("x".to_string());
    match location.clone() {
        rs_manifest_patcher::Location::FilePath(path) => assert_eq!(path, "x"),
        other => panic!("unexpected {other:?}"),
    }
}

#[test]
fn normalizing_twice_changes_nothing_more() {
    let once = normalize_path("a\\b/c\\d");
    assert_eq!(normalize_path(&once), once);
    assert!(!once.contains('\\'));
    assert_eq!(once.chars().count(), 7);
}
