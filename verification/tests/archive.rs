use podzol::json::metadata_to_json;
use podzol::manifest::{name_from_path, Enviroment, FileLocation, Loader, Manifest, Pack, Side};
use podzol::modrinth;
use podzol::mrpack::{Env, File, Game, Metadata, Requirement};
use podzol::pipeline::{
    assemble, concat_categories, files_of_version, index_entry_name, override_data_entries,
    override_entry_path, plan_archive, Progress,
};

fn entry(path: &str) -> File {
    File {
        path: path.to_string(),
        hashes: vec![],
        env: None,
        downloads: vec!["https://cdn.example/x".to_string()],
        file_size: 1,
    }
}

#[test]
fn file_list_is_a_category_ordered_concatenation() {
    let mods = vec![entry("mods/m1.jar"), entry("mods/m2.jar")];
    let packs = vec![entry("resourcepacks/r1.zip")];
    let shaders = vec![entry("shaderpacks/s1.zip")];
    let all = concat_categories(mods, packs, shaders);
    let paths: Vec<&str> = all.iter().map(|f| f.path.as_str()).collect();
    assert_eq!(
        paths,
        vec!["mods/m1.jar", "mods/m2.jar", "resourcepacks/r1.zip", "shaderpacks/s1.zip"]
    );
}

#[test]
fn index_json_is_canonical() {
    let metadata = Metadata {
        format_version: 1,
        game: Game::Minecraft,
        version_id: "1.0.0".to_string(),
        name: "testpack".to_string(),
        summary: Some("a \"test\" pack\n".to_string()),
        files: vec![File {
            path: "mods/a.jar".to_string(),
            hashes: vec![
                ("sha1".to_string(), "abc".to_string()),
                ("sha512".to_string(), "def".to_string()),
            ],
            env: Some(Env { client: Requirement::Required, server: Requirement::Optional }),
            downloads: vec!["https://cdn.example/a.jar".to_string()],
            file_size: 42,
        }],
        dependencies: vec![("minecraft".to_string(), "1.20.1".to_string())],
    };
    let json = metadata_to_json(&metadata);
    assert_eq!(
        json,
        "{\"formatVersion\":1,\"game\":\"minecraft\",\"versionId\":\"1.0.0\",\"name\":\"testpack\",\"summary\":\"a \\\"test\\\" pack\\n\",\"files\":[{\"path\":\"mods/a.jar\",\"hashes\":{\"sha1\":\"abc\",\"sha512\":\"def\"},\"env\":{\"client\":\"required\",\"server\":\"optional\"},\"downloads\":[\"https://cdn.example/a.jar\"],\"fileSize\":42}],\"dependencies\":{\"minecraft\":\"1.20.1\"}}"
    );
}

#[test]
fn index_json_omits_absent_summary_and_env() {
    let metadata = Metadata {
        format_version: 1,
        game: Game::Minecraft,
        version_id: "0.1.0".to_string(),
        name: "p".to_string(),
        summary: None,
        files: vec![File {
            path: "mods/a.jar".to_string(),
            hashes: vec![],
            env: None,
            downloads: vec![],
            file_size: 0,
        }],
        dependencies: vec![],
    };
    let json = metadata_to_json(&metadata);
    assert_eq!(
        json,
        "{\"formatVersion\":1,\"game\":\"minecraft\",\"versionId\":\"0.1.0\",\"name\":\"p\",\"files\":[{\"path\":\"mods/a.jar\",\"hashes\":{},\"downloads\":[],\"fileSize\":0}],\"dependencies\":{}}"
    );
}

#[test]
fn index_json_escapes_control_characters() {
    let metadata = Metadata {
        format_version: 1,
        game: Game::Minecraft,
        version_id: "\u{1}\\".to_string(),
        name: "\t".to_string(),
        summary: None,
        files: vec![],
        dependencies: vec![],
    };
    let json = metadata_to_json(&metadata);
    assert_eq!(
        json,
        "{\"formatVersion\":1,\"game\":\"minecraft\",\"versionId\":\"\\u0001\\\\\",\"name\":\"\\t\",\"files\":[],\"dependencies\":{}}"
    );
}

#[test]
fn round_trip_build_of_one_fabric_mod() {
    let pack = Pack {
        name: "testpack".to_string(),
        version: "1.0.0".to_string(),
        description: None,
    };
    let enviroment = Enviroment {
        minecraft: "1.20.1".to_string(),
        loaders: vec![(Loader::Fabric, "0.15.0".to_string())],
    };
    let resolved = modrinth::Version {
        version_number: "mc1.20.1-0.5.8".to_string(),
        files: vec![modrinth::File {
            hashes: vec![("sha1".to_string(), "abc123".to_string())],
            url: "https://cdn.example/sodium.jar".to_string(),
            filename: "sodium.jar".to_string(),
            size: 1234,
            primary: true,
        }],
    };
    let mods = vec![Ok(files_of_version(&resolved, "mods", Side::Both))];
    let entries = assemble(pack, enviroment, mods, vec![], vec![], vec![]).unwrap();
    assert_eq!(entries.len(), 1);
    assert_eq!(entries[0].0, "modrinth.index.json");
    let json = String::from_utf8(entries[0].1.clone()).unwrap();
    assert_eq!(
        json,
        "{\"formatVersion\":1,\"game\":\"minecraft\",\"versionId\":\"1.0.0\",\"name\":\"testpack\",\"files\":[{\"path\":\"mods/sodium.jar\",\"hashes\":{\"sha1\":\"abc123\"},\"env\":{\"client\":\"required\",\"server\":\"required\"},\"downloads\":[\"https://cdn.example/sodium.jar\"],\"fileSize\":1234}],\"dependencies\":{\"fabric-loader\":\"0.15.0\",\"minecraft\":\"1.20.1\"}}"
    );
}

#[test]
fn a_failing_unit_fails_the_whole_build() {
    let pack = Pack { name: "p".to_string(), version: "1".to_string(), description: None };
    let enviroment = Enviroment { minecraft: "1.20.1".to_string(), loaders: vec![] };
    let shaders = vec![Err("shader registry failure".to_string())];
    let out = assemble(pack, enviroment, vec![], vec![], shaders, vec![]);
    assert_eq!(out.unwrap_err(), "shader registry failure");
}

#[test]
fn zero_override_matches_build_an_archive_with_only_the_index() {
    let pack = Pack { name: "p".to_string(), version: "1".to_string(), description: None };
    let enviroment = Enviroment { minecraft: "1.20.1".to_string(), loaders: vec![] };
    let entries = assemble(pack, enviroment, vec![], vec![], vec![], vec![]).unwrap();
    assert_eq!(entries.len(), 1);
    assert_eq!(entries[0].0, index_entry_name());
}

#[test]
fn two_override_matches_land_under_their_location_prefix() {
    let overrides = vec![
        (FileLocation::Common, "config/a.json".to_string(), b"{}".to_vec()),
        (FileLocation::Common, "config/b.json".to_string(), b"[]".to_vec()),
    ];
    let entries = override_data_entries(overrides);
    assert_eq!(entries.len(), 2);
    assert_eq!(entries[0].0, "overrides/config/a.json");
    assert_eq!(entries[0].1, b"{}".to_vec());
    assert_eq!(entries[1].0, "overrides/config/b.json");
    assert_eq!(entries[1].1, b"[]".to_vec());
}

#[test]
fn override_entries_follow_the_index_in_the_plan() {
    let pack = Pack { name: "p".to_string(), version: "1".to_string(), description: None };
    let enviroment = Enviroment { minecraft: "1.20.1".to_string(), loaders: vec![] };
    let overrides = vec![
        (FileLocation::Client, "options.txt".to_string(), b"fov=90".to_vec()),
        (FileLocation::Server, "server.properties".to_string(), b"motd=hi".to_vec()),
    ];
    let entries = assemble(pack, enviroment, vec![], vec![], vec![], overrides).unwrap();
    assert_eq!(entries.len(), 3);
    assert_eq!(entries[0].0, "modrinth.index.json");
    assert_eq!(entries[1].0, "client-overrides/options.txt");
    assert_eq!(entries[2].0, "server-overrides/server.properties");
}

#[test]
fn override_path_joins_prefix_and_matched_path() {
    assert_eq!(override_entry_path(FileLocation::Common, "config/x.json"), "overrides/config/x.json");
    assert_eq!(override_entry_path(FileLocation::Client, "a.txt"), "client-overrides/a.txt");
}

#[test]
fn plan_archive_puts_the_index_first() {
    let plan = plan_archive(
        "{}".to_string(),
        vec![("overrides/a".to_string(), b"x".to_vec())],
    );
    assert_eq!(plan.len(), 2);
    assert_eq!(plan[0].0, "modrinth.index.json");
    assert_eq!(plan[0].1, b"{}".to_vec());
    assert_eq!(plan[1].0, "overrides/a");
}

#[test]
fn fresh_manifest_is_empty() {
    let m = Manifest::new("pack".to_string(), "0.1.0".to_string(), "1.20.1".to_string());
    assert_eq!(m.pack.name, "pack");
    assert_eq!(m.pack.version, "0.1.0");
    assert!(m.pack.description.is_none());
    assert_eq!(m.enviroment.minecraft, "1.20.1");
    assert!(m.enviroment.loaders.is_empty());
    assert!(m.files.is_empty());
    assert!(m.mods.is_empty());
    assert!(m.resource_packs.is_empty());
    assert!(m.shaders.is_empty());
}

#[test]
fn name_from_path_takes_the_final_segment() {
    assert_eq!(name_from_path("/home/user/mypack"), "mypack");
    assert_eq!(name_from_path("/home/user/mypack/"), "mypack");
    assert_eq!(name_from_path("relative/dir"), "dir");
    assert_eq!(name_from_path("plain"), "plain");
}

#[test]
fn name_from_path_ignores_trailing_dot_segments() {
    assert_eq!(name_from_path("foo/."), "foo");
    assert_eq!(name_from_path("foo.txt/.//"), "foo.txt");
    assert_eq!(name_from_path("a/./."), "a");
    assert_eq!(name_from_path("./mypack"), "mypack");
}

#[test]
fn name_from_path_falls_back_to_pack() {
    assert_eq!(name_from_path(""), "pack");
    assert_eq!(name_from_path("/"), "pack");
    assert_eq!(name_from_path("."), "pack");
    assert_eq!(name_from_path("./."), "pack");
    assert_eq!(name_from_path(".."), "pack");
    assert_eq!(name_from_path("foo/.."), "pack");
}

#[test]
fn progress_counts_finished_units() {
    let mut p = Progress::new(2);
    assert!(!p.is_finished());
    p.inc();
    assert!(!p.is_finished());
    p.inc();
    assert!(p.is_finished());
    p.inc();
    assert_eq!(p.done, 2);
    assert_eq!(p.total, 2);
}
