use tahoe::catalog::{file_for_id, select_server, server_from_name, CatalogError};
use tahoe::asset::SetupError;
use tahoe::config::{setup, Config};

#[test]
fn known_identifiers_map_to_files() {
    assert_eq!(server_from_name("us"), Ok("vpn-us.json".to_string()));
    assert_eq!(server_from_name("vn"), Ok("vpn-vn.json".to_string()));
    assert_eq!(server_from_name("us"), server_from_name("us"));
}

#[test]
fn identifiers_are_trimmed() {
    assert_eq!(server_from_name("  vn\n"), Ok("vpn-vn.json".to_string()));
    assert_eq!(server_from_name("\tus "), Ok("vpn-us.json".to_string()));
}

#[test]
fn lookup_without_trim_is_exact() {
    assert_eq!(file_for_id(" us"), Err(CatalogError::UnknownServer));
    assert_eq!(file_for_id("vn"), Ok("vpn-vn.json".to_string()));
}

#[test]
fn unknown_identifiers_fail() {
    assert_eq!(server_from_name("jp"), Err(CatalogError::UnknownServer));
    assert_eq!(server_from_name("US"), Err(CatalogError::UnknownServer));
    assert_eq!(server_from_name("usa"), Err(CatalogError::UnknownServer));
}

#[test]
fn blank_input_without_stored_server_picks_us() {
    let id = select_server("", "");
    assert_eq!(id, "us");
    assert_eq!(server_from_name(&id), Ok("vpn-us.json".to_string()));
}

#[test]
fn blank_input_keeps_stored_server() {
    let id = select_server("", "vn");
    assert_eq!(id, "vn");
    assert_eq!(server_from_name(&id), Ok("vpn-vn.json".to_string()));
}

#[test]
fn typed_input_wins_over_stored_server() {
    assert_eq!(select_server("us", "vn"), "us");
}

#[test]
fn choosing_a_server_updates_the_record() {
    let mut c = setup(Ok("bin/sing-box".to_string())).unwrap();
    assert_eq!(c.server, "");
    assert_eq!(c.choose_server(""), Ok("vpn-us.json".to_string()));
    assert_eq!(c.server, "us");
    assert_eq!(c.bin, "bin/sing-box");
    let mut d = Config::new("/usr/bin/sing-box".to_string(), "vn".to_string());
    assert_eq!(d.choose_server(""), Ok("vpn-vn.json".to_string()));
    assert_eq!(d.server, "vn");
}

#[test]
fn choosing_an_unknown_server_keeps_the_record() {
    let mut c = Config::new("b".to_string(), "vn".to_string());
    assert_eq!(c.choose_server("xx"), Err(CatalogError::UnknownServer));
    assert_eq!(c.server, "vn");
    assert_eq!(c.bin, "b");
}

#[test]
fn chosen_server_is_stored_bare() {
    let mut c = setup(Ok("b".to_string())).unwrap();
    assert_eq!(c.choose_server("  vn "), Ok("vpn-vn.json".to_string()));
    assert_eq!(c.server, "vn");
}

#[test]
fn setup_without_matching_asset_makes_no_record() {
    let a = vec![("sing-box-1.0-darwin-amd64.tar.gz".to_string(), "u".to_string())];
    let resolved = tahoe::asset::pick_asset(&a, "linux", "x86_64").map(|r| r.url);
    assert_eq!(resolved, Err(SetupError::NoMatchingAsset));
    assert!(matches!(setup(resolved), Err(SetupError::NoMatchingAsset)));
}
