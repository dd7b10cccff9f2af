use podzol::manifest::Side;
use podzol::modrinth::Project;
use podzol::mrpack::{Env, Requirement};

fn side_of(client: Requirement, server: Requirement) -> Side {
    Project { client_side: client, server_side: server }.get_side()
}

#[test]
fn derived_side_is_client_when_only_client_is_needed() {
    assert_eq!(side_of(Requirement::Required, Requirement::Unsupported), Side::Client);
    assert_eq!(side_of(Requirement::Optional, Requirement::Unsupported), Side::Client);
}

#[test]
fn derived_side_is_server_when_only_server_is_needed() {
    assert_eq!(side_of(Requirement::Unsupported, Requirement::Required), Side::Server);
    assert_eq!(side_of(Requirement::Unsupported, Requirement::Optional), Side::Server);
}

#[test]
fn derived_side_is_both_for_every_other_combination() {
    assert_eq!(side_of(Requirement::Required, Requirement::Required), Side::Both);
    assert_eq!(side_of(Requirement::Required, Requirement::Optional), Side::Both);
    assert_eq!(side_of(Requirement::Optional, Requirement::Required), Side::Both);
    assert_eq!(side_of(Requirement::Optional, Requirement::Optional), Side::Both);
    assert_eq!(side_of(Requirement::Unsupported, Requirement::Unsupported), Side::Both);
}

#[test]
fn env_of_each_side() {
    assert_eq!(
        Env::from(Side::Client),
        Env { client: Requirement::Required, server: Requirement::Unsupported }
    );
    assert_eq!(
        Env::from(Side::Server),
        Env { client: Requirement::Unsupported, server: Requirement::Required }
    );
    assert_eq!(
        Env::from(Side::Both),
        Env { client: Requirement::Required, server: Requirement::Required }
    );
}
