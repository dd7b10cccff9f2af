use podzol::manifest::{FileLocation, Loader, ProjectType, Side};
use podzol::modrinth::VersionType;
use podzol::mrpack::{Game, Requirement};

#[test]
fn side_tokens_round_trip() {
    assert_eq!(Side::from_str("client"), Ok(Side::Client));
    assert_eq!(Side::from_str("server"), Ok(Side::Server));
    assert_eq!(Side::from_str("both"), Ok(Side::Both));
    assert_eq!(Side::Client.as_str(), "client");
    assert_eq!(Side::Server.as_str(), "server");
    assert_eq!(Side::Both.as_str(), "both");
}

#[test]
fn side_rejects_unknown_token() {
    let err = Side::from_str("Both").unwrap_err();
    assert_eq!(err, "Unknown side 'Both'. Supported sides are: client, server, both");
}

#[test]
fn loader_tokens_round_trip() {
    assert_eq!(Loader::from_str("fabric"), Ok(Loader::Fabric));
    assert_eq!(Loader::from_str("forge"), Ok(Loader::Forge));
    assert_eq!(Loader::from_str("quilt"), Ok(Loader::Quilt));
    assert_eq!(Loader::from_str("neoforge"), Ok(Loader::NeoForge));
    assert_eq!(Loader::Fabric.as_str(), "fabric");
    assert_eq!(Loader::Forge.as_str(), "forge");
    assert_eq!(Loader::Quilt.as_str(), "quilt");
    assert_eq!(Loader::NeoForge.as_str(), "neoforge");
}

#[test]
fn loader_registry_keys() {
    assert_eq!(Loader::Fabric.as_mrpack(), "fabric-loader");
    assert_eq!(Loader::Forge.as_mrpack(), "forge");
    assert_eq!(Loader::Quilt.as_mrpack(), "quilt-loader");
    assert_eq!(Loader::NeoForge.as_mrpack(), "neoforge");
}

#[test]
fn loader_rejects_unknown_token() {
    let err = Loader::from_str("paper").unwrap_err();
    assert_eq!(
        err,
        "Unknown loader 'paper'. Supported loaders are: fabric, forge, quilt, neoforge"
    );
}

#[test]
fn location_tokens_round_trip() {
    assert_eq!(FileLocation::from_str("client"), Ok(FileLocation::Client));
    assert_eq!(FileLocation::from_str("server"), Ok(FileLocation::Server));
    assert_eq!(FileLocation::from_str("common"), Ok(FileLocation::Common));
}

#[test]
fn location_manifest_tokens() {
    assert_eq!(FileLocation::Client.as_str(), "client");
    assert_eq!(FileLocation::Server.as_str(), "server");
    assert_eq!(FileLocation::Common.as_str(), "common");
}

#[test]
fn location_archive_prefixes() {
    assert_eq!(FileLocation::Client.as_ovveride(), "client-overrides");
    assert_eq!(FileLocation::Server.as_ovveride(), "server-overrides");
    assert_eq!(FileLocation::Common.as_ovveride(), "overrides");
}

#[test]
fn location_rejects_unknown_token() {
    let err = FileLocation::from_str("shared").unwrap_err();
    assert_eq!(err, "Unknown location 'shared'. Supported sides are: client, server, common");
}

#[test]
fn project_type_accepts_alternate_spellings() {
    assert_eq!(ProjectType::from_str("mod"), Ok(ProjectType::Mod));
    assert_eq!(ProjectType::from_str("mods"), Ok(ProjectType::Mod));
    assert_eq!(ProjectType::from_str("resource-pack"), Ok(ProjectType::ResourcePack));
    assert_eq!(ProjectType::from_str("resource-packs"), Ok(ProjectType::ResourcePack));
    assert_eq!(ProjectType::from_str("resource"), Ok(ProjectType::ResourcePack));
    assert_eq!(ProjectType::from_str("resources"), Ok(ProjectType::ResourcePack));
    assert_eq!(ProjectType::from_str("shader"), Ok(ProjectType::Shader));
    assert_eq!(ProjectType::from_str("shaders"), Ok(ProjectType::Shader));
}

#[test]
fn project_type_tables() {
    assert_eq!(ProjectType::Mod.as_table(), "mods");
    assert_eq!(ProjectType::ResourcePack.as_table(), "resource-packs");
    assert_eq!(ProjectType::Shader.as_table(), "shaders");
    assert_eq!(ProjectType::Mod.as_str(), "mod");
    assert_eq!(ProjectType::ResourcePack.as_str(), "resource-pack");
    assert_eq!(ProjectType::Shader.as_str(), "shader");
}

#[test]
fn project_type_rejects_unknown_token() {
    let err = ProjectType::from_str("datapack").unwrap_err();
    assert_eq!(
        err,
        "Unknown type 'datapack'. Supported project types are: mod, resource-pack, shader"
    );
}

#[test]
fn requirement_tokens_round_trip() {
    assert_eq!(Requirement::from_str("required"), Ok(Requirement::Required));
    assert_eq!(Requirement::from_str("optional"), Ok(Requirement::Optional));
    assert_eq!(Requirement::from_str("unsupported"), Ok(Requirement::Unsupported));
    assert_eq!(Requirement::Required.as_str(), "required");
    assert_eq!(Requirement::Optional.as_str(), "optional");
    assert_eq!(Requirement::Unsupported.as_str(), "unsupported");
}

#[test]
fn requirement_rejects_unknown_token() {
    let err = Requirement::from_str("maybe").unwrap_err();
    assert_eq!(
        err,
        "Unknown requirement 'maybe'. Supported requirements are: required, optional, unsupported"
    );
}

#[test]
fn requirement_neededness() {
    assert!(Requirement::Required.is_needed());
    assert!(Requirement::Optional.is_needed());
    assert!(!Requirement::Unsupported.is_needed());
}

#[test]
fn game_tokens_round_trip() {
    assert_eq!(Game::from_str("minecraft"), Ok(Game::Minecraft));
    assert_eq!(Game::Minecraft.as_str(), "minecraft");
    let err = Game::from_str("terraria").unwrap_err();
    assert_eq!(err, "Unknown game 'terraria'. The only supported game is minecraft");
}

#[test]
fn version_type_tokens_round_trip() {
    assert_eq!(VersionType::from_str("release"), Ok(VersionType::Release));
    assert_eq!(VersionType::from_str("snapshot"), Ok(VersionType::Snapshot));
    assert_eq!(VersionType::from_str("alpha"), Ok(VersionType::Alpha));
    assert_eq!(VersionType::from_str("beta"), Ok(VersionType::Beta));
    assert_eq!(VersionType::Release.as_str(), "release");
    assert_eq!(VersionType::Snapshot.as_str(), "snapshot");
    assert_eq!(VersionType::Alpha.as_str(), "alpha");
    assert_eq!(VersionType::Beta.as_str(), "beta");
}

#[test]
fn version_type_rejects_unknown_token() {
    let err = VersionType::from_str("rc").unwrap_err();
    assert_eq!(err, "Unknown version type 'rc'. Supported types are: release, snapshot, alpha, beta");
}
