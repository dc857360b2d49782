use hotpatch::config::{join_path, Config, ReleaseKey};
use hotpatch::error::ErrorKind;
use hotpatch::keyring::{KeyEntry, Keyring};

fn config_with(keyring: Keyring, legacy: Option<&str>) -> Config {
    Config {
        api_endpoint: "https://registry.example".to_string(),
        api_token: "token".to_string(),
        app_id: None,
        tier: None,
        encryption_key: legacy.map(|k| k.to_string()),
        keyring,
    }
}

fn ring(entries: &[(&str, &str)], active: Option<&str>) -> Keyring {
    Keyring::restore(
        Some(
            entries
                .iter()
                .map(|(id, key)| KeyEntry { id: id.to_string(), key: key.to_string() })
                .collect(),
        ),
        active.map(|a| a.to_string()),
    )
}

#[test]
fn joining_puts_one_separator_between() {
    assert_eq!(join_path("/home/alice", ".hotpatch"), "/home/alice/.hotpatch");
    assert_eq!(join_path("/home/alice/", ".hotpatch"), "/home/alice/.hotpatch");
    assert_eq!(join_path("/", "etc"), "/etc");
    assert_eq!(join_path("", "config.toml"), "config.toml");
    assert_eq!(join_path("relative", "x"), "relative/x");
}

#[test]
fn files_live_in_the_configuration_directory() {
    let home = Some("/home/alice".to_string());
    let dir = Config::dir_in(home);
    assert_eq!(dir, Ok("/home/alice/.hotpatch".to_string()));
    assert_eq!(
        Config::file_in(dir.clone(), "config.toml"),
        Ok("/home/alice/.hotpatch/config.toml".to_string())
    );
    assert_eq!(
        Config::file_in(dir.clone(), "signing_key.pem"),
        Ok("/home/alice/.hotpatch/signing_key.pem".to_string())
    );
    assert_eq!(
        Config::file_in(dir, "public_key.pem"),
        Ok("/home/alice/.hotpatch/public_key.pem".to_string())
    );
}

#[test]
fn no_home_directory_means_no_paths() {
    assert_eq!(Config::dir_in(None), Err(ErrorKind::NoHomeDirectory));
    assert_eq!(
        Config::file_in(Err(ErrorKind::NoHomeDirectory), "config.toml"),
        Err(ErrorKind::NoHomeDirectory)
    );
}

#[test]
fn paths_of_the_current_user_hang_together() {
    match Config::dir() {
        Ok(dir) => {
            assert!(dir.ends_with(".hotpatch"));
            assert_eq!(Config::path(), Ok(join_path(&dir, "config.toml")));
            assert_eq!(Config::signing_key_path(), Ok(join_path(&dir, "signing_key.pem")));
            assert_eq!(Config::public_key_path(), Ok(join_path(&dir, "public_key.pem")));
        }
        Err(kind) => {
            assert_eq!(kind, ErrorKind::NoHomeDirectory);
            assert_eq!(Config::path(), Err(ErrorKind::NoHomeDirectory));
            assert_eq!(Config::signing_key_path(), Err(ErrorKind::NoHomeDirectory));
            assert_eq!(Config::public_key_path(), Err(ErrorKind::NoHomeDirectory));
        }
    }
}

#[test]
fn missing_configuration_is_not_authenticated() {
    assert_eq!(Config::load_or_exit(None), Err(ErrorKind::NotAuthenticated));
    let config = config_with(Keyring::new(), None);
    assert_eq!(Config::load_or_exit(Some(config.clone())), Ok(config));
}

#[test]
fn no_encryption_needs_no_key() {
    let config = config_with(Keyring::restore(None, Some("dangling".to_string())), None);
    assert_eq!(config.release_key(false), Ok(None));
}

#[test]
fn active_key_is_chosen_over_the_legacy_key() {
    let config = config_with(ring(&[("k1", "aa"), ("k2", "bb")], Some("k2")), Some("cc"));
    assert_eq!(
        config.release_key(true),
        Ok(Some(ReleaseKey { key_id: Some("k2".to_string()), key_hex: "bb".to_string() }))
    );
}

#[test]
fn legacy_key_is_chosen_without_an_active_key() {
    let config = config_with(ring(&[("k1", "aa")], None), Some("cc"));
    assert_eq!(
        config.release_key(true),
        Ok(Some(ReleaseKey { key_id: None, key_hex: "cc".to_string() }))
    );
}

#[test]
fn encryption_without_any_key_fails_closed() {
    let config = config_with(ring(&[("k1", "aa")], None), None);
    assert_eq!(config.release_key(true), Err(ErrorKind::KeyringEmpty));
    let config = config_with(Keyring::new(), None);
    assert_eq!(config.release_key(true), Err(ErrorKind::KeyringEmpty));
}

#[test]
fn dangling_active_key_fails_closed_even_with_a_legacy_key() {
    let config = config_with(ring(&[("k1", "aa")], Some("gone")), Some("cc"));
    assert_eq!(config.release_key(true), Err(ErrorKind::NotFound));
    let config = config_with(Keyring::restore(None, Some("gone".to_string())), Some("cc"));
    assert_eq!(config.release_key(true), Err(ErrorKind::KeyringEmpty));
}

#[test]
fn published_key_is_looked_up_by_its_own_id() {
    let config = config_with(ring(&[("k1", "aa"), ("k2", "bb")], Some("k2")), Some("cc"));
    assert_eq!(config.published_key(&Some("k1".to_string())), Ok("aa".to_string()));
    assert_eq!(config.published_key(&None), Ok("cc".to_string()));
    assert_eq!(config.published_key(&Some("k3".to_string())), Err(ErrorKind::NotFound));
}

#[test]
fn published_key_that_cannot_be_had() {
    let config = config_with(Keyring::new(), None);
    assert_eq!(config.published_key(&Some("k1".to_string())), Err(ErrorKind::NotFound));
    assert_eq!(config.published_key(&None), Err(ErrorKind::NotFound));
}
