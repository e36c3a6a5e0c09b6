use mc_image_helper::cli::{Cli, Commands, InstallModrinthModpackArgs};
use mc_image_helper::minecraft::LoaderType;
use mc_image_helper::resolver::{
    contains, resolve, FileArtifact, PackageQuery, ResolutionError, VersionRecord,
};
use std::path::PathBuf;

fn record(number: &str) -> VersionRecord {
    VersionRecord {
        version_number: number.to_string(),
        files: vec![FileArtifact {
            url: format!("https://cdn.example/{}/mod.jar", number),
            filename: "mod.jar".to_string(),
            expected_hash: None,
        }],
    }
}

fn records(numbers: &[&str]) -> Vec<VersionRecord> {
    numbers.iter().map(|n| record(n)).collect()
}

fn query(selector: &str) -> PackageQuery {
    PackageQuery {
        package_id: "abc".to_string(),
        loaders: vec![LoaderType::Fabric],
        game_versions: None,
        version_selector: selector.to_string(),
    }
}

#[test]
fn latest_selects_the_first_candidate() {
    let candidates = records(&["1.2.0", "1.1.0"]);
    let chosen = resolve(&query("latest"), &candidates).unwrap();
    assert_eq!(chosen.version_number, "1.2.0");
    assert_eq!(chosen, &candidates[0]);
}

#[test]
fn latest_on_a_single_candidate_selects_it() {
    let candidates = records(&["0.0.1-beta"]);
    assert_eq!(resolve(&query("latest"), &candidates), Ok(&candidates[0]));
}

#[test]
fn latest_without_candidates_fails_with_no_versions_available() {
    let candidates: Vec<VersionRecord> = Vec::new();
    assert_eq!(
        resolve(&query("latest"), &candidates),
        Err(ResolutionError::NoVersionsAvailable)
    );
}

#[test]
fn latest_ignores_the_version_numbers() {
    let candidates = records(&["3.0.0", "latest", "2.0.0"]);
    assert_eq!(resolve(&query("latest"), &candidates), Ok(&candidates[0]));
}

#[test]
fn selector_picks_the_first_version_that_contains_it() {
    let candidates = records(&["1.2.0", "1.1.0"]);
    let chosen = resolve(&query("1.1"), &candidates).unwrap();
    assert_eq!(chosen.version_number, "1.1.0");
    assert_eq!(chosen, &candidates[1]);
}

#[test]
fn selector_without_a_match_fails_with_no_matching_version() {
    let candidates = records(&["1.2.0", "1.1.0"]);
    assert_eq!(
        resolve(&query("9.9"), &candidates),
        Err(ResolutionError::NoMatchingVersion)
    );
}

#[test]
fn selector_without_candidates_fails_with_no_matching_version() {
    let candidates: Vec<VersionRecord> = Vec::new();
    assert_eq!(
        resolve(&query("1.1"), &candidates),
        Err(ResolutionError::NoMatchingVersion)
    );
}

#[test]
fn ambiguous_selector_takes_whichever_comes_first() {
    let candidates = records(&["2.0.0", "1.1.2", "1.1.0"]);
    assert_eq!(resolve(&query("1.1"), &candidates), Ok(&candidates[1]));
    let reordered = records(&["2.0.0", "1.1.0", "1.1.2"]);
    assert_eq!(
        resolve(&query("1.1"), &reordered).unwrap().version_number,
        "1.1.0"
    );
}

#[test]
fn selector_matches_anywhere_in_the_version_number() {
    let candidates = records(&["mc1.20-4.5.6", "mc1.19-4.5.6+fabric", "fabric-0.1"]);
    assert_eq!(resolve(&query("fabric"), &candidates), Ok(&candidates[1]));
    assert_eq!(resolve(&query("4.5.6"), &candidates), Ok(&candidates[0]));
    assert_eq!(resolve(&query("-0.1"), &candidates), Ok(&candidates[2]));
    assert_eq!(resolve(&query("mc1.20-4.5.6"), &candidates), Ok(&candidates[0]));
}

#[test]
fn selector_longer_than_every_version_number_matches_none() {
    let candidates = records(&["1.1", "1.2"]);
    assert_eq!(
        resolve(&query("1.1.0"), &candidates),
        Err(ResolutionError::NoMatchingVersion)
    );
}

#[test]
fn selector_is_case_sensitive() {
    let candidates = records(&["1.0-Beta", "1.0-beta"]);
    assert_eq!(resolve(&query("beta"), &candidates), Ok(&candidates[1]));
    assert_eq!(
        resolve(&query("BETA"), &candidates),
        Err(ResolutionError::NoMatchingVersion)
    );
}

#[test]
fn empty_selector_is_contained_in_every_version_number() {
    let candidates = records(&["1.2.0", "1.1.0"]);
    assert_eq!(resolve(&query(""), &candidates), Ok(&candidates[0]));
    let none: Vec<VersionRecord> = Vec::new();
    assert_eq!(
        resolve(&query(""), &none),
        Err(ResolutionError::NoMatchingVersion)
    );
}

#[test]
fn selector_with_characters_beyond_ascii() {
    let candidates = records(&["1.0-\u{e9}t\u{e9}", "1.0-\u{4e2d}\u{6587}"]);
    assert_eq!(resolve(&query("\u{6587}"), &candidates), Ok(&candidates[1]));
    assert_eq!(resolve(&query("t\u{e9}"), &candidates), Ok(&candidates[0]));
    assert_eq!(
        resolve(&query("\u{e8}"), &candidates),
        Err(ResolutionError::NoMatchingVersion)
    );
}

#[test]
fn resolution_is_deterministic() {
    let candidates = records(&["1.2.0", "1.1.0", "1.1.0"]);
    let first = resolve(&query("1.1"), &candidates);
    let second = resolve(&query("1.1"), &candidates);
    assert_eq!(first, second);
    assert!(std::ptr::eq(first.unwrap(), &candidates[1]));
}

#[test]
fn resolution_errors_have_messages() {
    assert_eq!(
        ResolutionError::NoVersionsAvailable.message(),
        "Failed get versions"
    );
    assert_eq!(
        ResolutionError::NoMatchingVersion.message(),
        "No matching version exists"
    );
}

#[test]
fn loaders_parameter_lists_the_names() {
    let mut q = query("latest");
    assert_eq!(q.loaders_parameter(), Some("[\"fabric\"]".to_string()));
    q.loaders = vec![LoaderType::Fabric, LoaderType::Forge, LoaderType::Quilt];
    assert_eq!(
        q.loaders_parameter(),
        Some("[\"fabric\", \"forge\", \"quilt\"]".to_string())
    );
    let names: Vec<&str> = q.loaders.iter().map(LoaderType::as_str).collect();
    assert_eq!(q.loaders_parameter(), Some(format!("{:?}", names)));
}

#[test]
fn loaders_parameter_is_absent_without_loaders() {
    let mut q = query("latest");
    q.loaders = Vec::new();
    assert_eq!(q.loaders_parameter(), None);
}

#[test]
fn game_versions_parameter_lists_the_versions() {
    let mut q = query("latest");
    assert_eq!(q.game_versions_parameter(), None);
    q.game_versions = Some(vec!["1.20.1".to_string(), "1.19".to_string()]);
    assert_eq!(
        q.game_versions_parameter(),
        Some("[\"1.20.1\", \"1.19\"]".to_string())
    );
    q.game_versions = Some(Vec::new());
    assert_eq!(q.game_versions_parameter(), Some("[]".to_string()));
    q.game_versions = Some(vec!["a\"b\\c".to_string()]);
    assert_eq!(
        q.game_versions_parameter(),
        Some("[\"a\\\"b\\\\c\"]".to_string())
    );
}

#[test]
fn arguments_become_the_query() {
    let args = InstallModrinthModpackArgs {
        project: "abc".to_string(),
        output_directory: PathBuf::from("."),
        version: "1.1".to_string(),
        game_version: Some(vec!["1.20.1".to_string()]),
        loader: Some(vec![LoaderType::Fabric, LoaderType::Quilt]),
    };
    let q = args.query();
    assert_eq!(
        q,
        PackageQuery {
            package_id: "abc".to_string(),
            loaders: vec![LoaderType::Fabric, LoaderType::Quilt],
            game_versions: Some(vec!["1.20.1".to_string()]),
            version_selector: "1.1".to_string(),
        }
    );
    let cli = Cli { command: Commands::InstallModrinthModpack(args) };
    let Commands::InstallModrinthModpack(inner) = cli.command;
    assert_eq!(inner.project, "abc");
}

#[test]
fn arguments_without_filters_become_a_query_without_filters() {
    let args = InstallModrinthModpackArgs {
        project: "abc".to_string(),
        output_directory: PathBuf::from("out"),
        version: "latest".to_string(),
        game_version: None,
        loader: None,
    };
    let q = args.query();
    assert_eq!(q.loaders, Vec::new());
    assert_eq!(q.game_versions, None);
    assert_eq!(q.loaders_parameter(), None);
    assert_eq!(q.game_versions_parameter(), None);
    assert_eq!(q.version_selector, "latest");
}

#[test]
fn contains_finds_a_pattern_wherever_it_stands() {
    assert!(contains("1.1.0", "1.1"));
    assert!(contains("1.1.0", "1.0"));
    assert!(contains("1.1.0", ".0"));
    assert!(contains("1.1.0", "1.1.0"));
    assert!(contains("1.1.0", ""));
    assert!(contains("", ""));
    assert!(contains("aaab", "aab"));
    assert!(contains("abababc", "ababc"));
}

#[test]
fn contains_rejects_what_does_not_occur() {
    assert!(!contains("1.2.0", "1.1"));
    assert!(!contains("1.1", "1.1.0"));
    assert!(!contains("", "a"));
    assert!(!contains("abc", "ac"));
    assert!(!contains("abc", "cb"));
    assert!(!contains("aaa", "aaaa"));
}

#[test]
fn contains_agrees_with_std() {
    let samples = [
        "", "a", "b", "ab", "ba", "aa", "aab", "aba", "abab", "1.1", "1.1.0", "1.10", "\u{e9}",
        "e", "\u{e9}t\u{e9}", "t\u{e9}", "\u{4e2d}\u{6587}", "\u{6587}",
    ];
    for haystack in samples {
        for needle in samples {
            assert_eq!(contains(haystack, needle), haystack.contains(needle));
        }
    }
}
