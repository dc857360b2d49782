use hotpatch::api::{ReleaseResponse, TokenResponse};
use hotpatch::bundle::{build_bundle, build_outcome, compress_bundle, ArchiveItem, BundleEntry};
use hotpatch::commands::keys::{preview_key, KeyCommands, KeysOutcome};
use hotpatch::commands::login::{
    authenticated, config_for, decimal, find_token, listen_on, login_url, Credentials, LoginReply,
};
use hotpatch::commands::rollback::RollbackPlan;
use hotpatch::commands::status::preview_token;
use hotpatch::commands::{keygen, keys, login, rollback, status};
use hotpatch::config::Config;
use hotpatch::error::ErrorKind;
use hotpatch::keyring::{KeyEntry, Keyring};
use hotpatch::pipeline::{comes_before, find_version, select_sibling};

fn config(keyring: Keyring) -> Config {
    Config {
        api_endpoint: "https://registry.example".to_string(),
        api_token: "0123456789abcdefghijklmnopqrstuvwxyz".to_string(),
        app_id: Some("app-1".to_string()),
        tier: Some("pro".to_string()),
        encryption_key: None,
        keyring,
    }
}

fn release(id: &str, version: &str) -> ReleaseResponse {
    ReleaseResponse {
        id: id.to_string(),
        version: version.to_string(),
        channel: "production".to_string(),
        bundle_url: format!("https://cdn.example/{}", id),
        rollout_percentage: 100,
        is_active: false,
        is_encrypted: false,
        key_id: None,
        created_at: "then".to_string(),
    }
}

#[test]
fn keys_need_a_configuration() {
    assert_eq!(keys::execute(KeyCommands::List, None), Err(ErrorKind::NotAuthenticated));
    assert_eq!(
        keys::execute(KeyCommands::Generate { id: None, active: true }, None),
        Err(ErrorKind::NotAuthenticated)
    );
}

#[test]
fn listing_an_absent_keyring_is_keyring_empty() {
    assert_eq!(
        keys::execute(KeyCommands::List, Some(config(Keyring::new()))),
        Err(ErrorKind::KeyringEmpty)
    );
}

#[test]
fn listing_shows_keys_and_the_active_id() {
    let mut ring = Keyring::new();
    ring.insert("a".to_string(), "11".to_string(), true);
    match keys::execute(KeyCommands::List, Some(config(ring))).unwrap() {
        KeysOutcome::Listed { keys, active } => {
            assert_eq!(keys, vec![KeyEntry { id: "a".to_string(), key: "11".to_string() }]);
            assert_eq!(active, Some("a".to_string()));
        }
        other => panic!("unexpected outcome: {:?}", other),
    }
}

#[test]
fn generating_creates_the_keyring() {
    let command = KeyCommands::Generate { id: Some("first".to_string()), active: true };
    match keys::execute(command, Some(config(Keyring::new()))).unwrap() {
        KeysOutcome::Generated { config: after, key_id, active } => {
            assert_eq!(key_id, "first");
            assert!(active);
            assert!(after.keyring.is_created());
            assert_eq!(after.keyring.active_id(), Some("first".to_string()));
            assert_eq!(after.keyring.get(&key_id).unwrap().len(), 64);
            assert_eq!(after.api_token, config(Keyring::new()).api_token);
        }
        other => panic!("unexpected outcome: {:?}", other),
    }
}

#[test]
fn generating_without_activating_keeps_the_pointer() {
    let mut ring = Keyring::new();
    ring.insert("a".to_string(), "11".to_string(), true);
    let command = KeyCommands::Generate { id: None, active: false };
    match keys::execute(command, Some(config(ring))).unwrap() {
        KeysOutcome::Generated { config: after, key_id, active } => {
            assert!(!active);
            assert_eq!(key_id.len(), 8);
            assert_eq!(after.keyring.active_id(), Some("a".to_string()));
            assert_eq!(after.keyring.entries().len(), 2);
        }
        other => panic!("unexpected outcome: {:?}", other),
    }
}

#[test]
fn generating_with_given_key_bytes() {
    let command = KeyCommands::Generate { id: None, active: true };
    match keys::execute_with_key(command, config(Keyring::new()), &[0u8; 32]).unwrap() {
        KeysOutcome::Generated { config: after, key_id, .. } => {
            assert_eq!(key_id, "66687aad");
            assert_eq!(after.keyring.get(&key_id), Ok("0".repeat(64)));
        }
        other => panic!("unexpected outcome: {:?}", other),
    }
}

#[test]
fn selecting_and_removing_keys() {
    let mut ring = Keyring::new();
    ring.insert("a".to_string(), "11".to_string(), true);
    ring.insert("b".to_string(), "22".to_string(), false);
    let stored = config(ring);
    match keys::execute(KeyCommands::Select { id: "b".to_string() }, Some(stored.clone())).unwrap() {
        KeysOutcome::Selected { config: after, key_id } => {
            assert_eq!(key_id, "b");
            assert_eq!(after.keyring.active_id(), Some("b".to_string()));
        }
        other => panic!("unexpected outcome: {:?}", other),
    }
    match keys::execute(KeyCommands::Remove { id: "a".to_string() }, Some(stored.clone())).unwrap() {
        KeysOutcome::Removed { config: after, key_id } => {
            assert_eq!(key_id, "a");
            assert_eq!(after.keyring.active_id(), None);
            assert_eq!(after.keyring.get(&"a".to_string()), Err(ErrorKind::NotFound));
        }
        other => panic!("unexpected outcome: {:?}", other),
    }
    assert_eq!(
        keys::execute(KeyCommands::Select { id: "c".to_string() }, Some(stored.clone())),
        Err(ErrorKind::NotFound)
    );
    assert_eq!(
        keys::execute(KeyCommands::Remove { id: "c".to_string() }, Some(stored)),
        Err(ErrorKind::NotFound)
    );
    assert_eq!(
        keys::execute(KeyCommands::Remove { id: "c".to_string() }, Some(config(Keyring::new()))),
        Err(ErrorKind::NotFound)
    );
    assert_eq!(
        keys::execute(KeyCommands::Select { id: "c".to_string() }, Some(config(Keyring::new()))),
        Err(ErrorKind::NotFound)
    );
}

#[test]
fn keygen_respects_an_existing_key() {
    assert_eq!(keygen::execute(false, true), Err(ErrorKind::AlreadyExists));
    let pair = keygen::execute(true, true).unwrap();
    assert_eq!(pair.private_key.len(), 44);
    assert_eq!(pair.public_key.len(), 44);
    assert!(keygen::execute(false, false).is_ok());
}

#[test]
fn rollback_without_releases() {
    assert_eq!(rollback::execute(&"1.0.0".to_string(), &Vec::new()), RollbackPlan::NoReleases);
}

#[test]
fn rollback_to_an_existing_version() {
    let releases = vec![release("r3", "1.2.0"), release("r2", "1.1.0"), release("r1", "1.0.0")];
    assert_eq!(
        rollback::execute(&"1.1.0".to_string(), &releases),
        RollbackPlan::Confirm(release("r2", "1.1.0"))
    );
}

#[test]
fn rollback_to_a_missing_version_offers_the_first_ten() {
    let releases: Vec<ReleaseResponse> =
        (0..13).map(|i| release(&format!("r{}", i), &format!("1.{}.0", i))).collect();
    match rollback::execute(&"9.9.9".to_string(), &releases) {
        RollbackPlan::VersionMissing { available } => {
            assert_eq!(available.len(), 10);
            assert_eq!(available, releases[..10].to_vec());
        }
        other => panic!("unexpected plan: {:?}", other),
    }
    match rollback::execute(&"9.9.9".to_string(), &releases[..3].to_vec()) {
        RollbackPlan::VersionMissing { available } => assert_eq!(available, releases[..3].to_vec()),
        other => panic!("unexpected plan: {:?}", other),
    }
}

#[test]
fn finding_releases() {
    let releases = vec![release("r3", "1.2.0"), release("r2", "1.1.0"), release("r2b", "1.1.0")];
    assert_eq!(find_version(&releases, &"1.1.0".to_string()), Some(1));
    assert_eq!(find_version(&releases, &"1.2.0".to_string()), Some(0));
    assert_eq!(find_version(&releases, &"2.0.0".to_string()), None);
}

fn created(id: &str, at: &str) -> ReleaseResponse {
    let mut made = release(id, "1.0.0");
    made.created_at = at.to_string();
    made
}

#[test]
fn sibling_is_the_most_recent_other_release() {
    let january = created("jan", "2024-01-01T00:00:00Z");
    let february = created("feb", "2024-02-01T00:00:00Z");
    let march = created("mar", "2024-03-01T00:00:00Z");
    let oldest_first = vec![january.clone(), february.clone(), march.clone()];
    assert_eq!(select_sibling(&oldest_first, &"mar".to_string()), Some(1));
    assert_eq!(select_sibling(&oldest_first, &"feb".to_string()), Some(2));
    assert_eq!(select_sibling(&oldest_first, &"new".to_string()), Some(2));
    let newest_first = vec![march.clone(), february.clone(), january.clone()];
    assert_eq!(select_sibling(&newest_first, &"mar".to_string()), Some(1));
    assert_eq!(select_sibling(&newest_first, &"new".to_string()), Some(0));
    let shuffled = vec![february, march, january];
    assert_eq!(select_sibling(&shuffled, &"new".to_string()), Some(1));
    assert_eq!(select_sibling(&shuffled, &"mar".to_string()), Some(0));
}

#[test]
fn of_siblings_created_together_the_first_listed_is_taken() {
    let twins = vec![
        created("a", "2024-01-01T00:00:00Z"),
        created("b", "2024-02-01T00:00:00Z"),
        created("c", "2024-02-01T00:00:00Z"),
    ];
    assert_eq!(select_sibling(&twins, &"new".to_string()), Some(1));
    assert_eq!(select_sibling(&twins, &"b".to_string()), Some(2));
}

#[test]
fn no_sibling_where_every_release_is_the_new_one() {
    let only = vec![created("r3", "2024-01-01T00:00:00Z")];
    assert_eq!(select_sibling(&only, &"r3".to_string()), None);
    assert_eq!(select_sibling(&Vec::new(), &"r3".to_string()), None);
}

#[test]
fn texts_in_character_order() {
    assert!(comes_before("2024-01-01", "2024-02-01"));
    assert!(!comes_before("2024-02-01", "2024-01-01"));
    assert!(!comes_before("2024-01-01", "2024-01-01"));
    assert!(comes_before("2024-01-01", "2024-01-01T00"));
    assert!(!comes_before("2024-01-01T00", "2024-01-01"));
    assert!(comes_before("", "a"));
    assert!(!comes_before("", ""));
    assert!(!comes_before("a", ""));
    assert!(comes_before("a", "ä"));
}

#[test]
fn tokens_are_masked() {
    assert_eq!(preview_token("0123456789abcdefghijklmnopqrstuvwxyz"), "0123456789...uvwxyz");
    assert_eq!(preview_token("0123456789abcdefghijk"), "0123456789...fghijk");
    assert_eq!(preview_token("0123456789abcdefghij"), "****");
    assert_eq!(preview_token("short"), "****");
    assert_eq!(preview_token(""), "****");
}

#[test]
fn keys_are_masked() {
    let key = "000102030405060708090a0b0c0d0e0f101112131415161718191a1b1c1d1e1f";
    assert_eq!(preview_key(key), "00010203...1c1d1e1f");
    assert_eq!(preview_key(&key[..56]), "00010203...");
    assert_eq!(preview_key(&key[..55]), "****");
    assert_eq!(preview_key(""), "****");
}

#[test]
fn status_reports_the_account() {
    assert_eq!(status::execute(&None), None);
    let account = status::execute(&Some(config(Keyring::new()))).unwrap();
    assert_eq!(account.api_endpoint, "https://registry.example");
    assert_eq!(account.token_preview, "0123456789...uvwxyz");
    assert_eq!(account.app_id, Some("app-1".to_string()));
    assert_eq!(account.tier, Some("pro".to_string()));
}

#[test]
fn numbers_in_decimal() {
    assert_eq!(decimal(0), "0");
    assert_eq!(decimal(7), "7");
    assert_eq!(decimal(10), "10");
    assert_eq!(decimal(8081), "8081");
    assert_eq!(decimal(65535), "65535");
}

#[test]
fn login_addresses() {
    assert_eq!(
        login_url("http://localhost:8080", 8081),
        "http://localhost:8080/auth/google/login?state=cli:8081"
    );
    assert_eq!(listen_on(8081), "0.0.0.0:8081");
    assert_eq!(login::BACKEND_URL, "http://localhost:8080");
    assert_eq!(login::CALLBACK_PORT, 8081);
}

#[test]
fn callback_with_a_token_is_accepted() {
    let expected = config_for("http://localhost:8080", "abc.def".to_string());
    assert_eq!(login::execute("/callback?token=abc.def"), LoginReply::Accepted(expected.clone()));
    assert_eq!(login::execute("/?state=x&token=abc.def&token=other"), LoginReply::Accepted(expected));
    assert_eq!(
        login::execute("/callback?token=a%20b%2Bc"),
        LoginReply::Accepted(config_for("http://localhost:8080", "a b+c".to_string()))
    );
}

#[test]
fn callback_query_may_hold_more_than_the_token() {
    assert_eq!(
        login::execute("/?token=t&x=1"),
        LoginReply::Accepted(config_for("http://localhost:8080", "t".to_string()))
    );
}

#[test]
fn callback_without_a_token_keeps_waiting() {
    assert_eq!(login::execute("/favicon.ico"), LoginReply::Waiting);
    assert_eq!(login::execute("/callback?tokens=abc"), LoginReply::Waiting);
    assert_eq!(login::execute("/callback?Token=abc"), LoginReply::Waiting);
    assert_eq!(login::execute(""), LoginReply::Waiting);
}

#[test]
fn login_leaves_a_fresh_configuration() {
    let fresh = config_for("http://localhost:8080", "tok".to_string());
    assert_eq!(fresh.api_endpoint, "http://localhost:8080");
    assert_eq!(fresh.api_token, "tok");
    assert_eq!(fresh.app_id, None);
    assert_eq!(fresh.tier, None);
    assert_eq!(fresh.encryption_key, None);
    assert_eq!(fresh.keyring, Keyring::new());
}

#[test]
fn either_way_of_logging_in_leaves_the_same_configuration() {
    let exchanged = Credentials::Exchanged(TokenResponse {
        access_token: "tok".to_string(),
        token_type: "Bearer".to_string(),
        expires_in: 3600,
    });
    let captured = Credentials::Captured("tok".to_string());
    let expected = config_for("https://registry.example", "tok".to_string());
    assert_eq!(authenticated("https://registry.example", exchanged), expected);
    assert_eq!(authenticated("https://registry.example", captured), expected);
}

#[test]
fn first_token_pair_wins() {
    let pairs = vec![
        ("state".to_string(), "x".to_string()),
        ("token".to_string(), "one".to_string()),
        ("token".to_string(), "two".to_string()),
    ];
    assert_eq!(find_token(&pairs), Some("one".to_string()));
    assert_eq!(find_token(&pairs[..1].to_vec()), None);
    assert_eq!(find_token(&Vec::new()), None);
}

#[test]
fn build_command_for_each_platform() {
    let android = build_bundle("android", "index.js", "./build").unwrap();
    assert_eq!(android.program, "npx");
    assert_eq!(android.bundle_output, "./build/index.android.bundle");
    assert_eq!(
        android.arguments,
        vec![
            "react-native",
            "bundle",
            "--platform",
            "android",
            "--dev",
            "false",
            "--entry-file",
            "index.js",
            "--bundle-output",
            "./build/index.android.bundle",
            "--assets-dest",
            "./build",
        ]
    );
    let ios = build_bundle("ios", "app.js", "out").unwrap();
    assert_eq!(ios.bundle_output, "out/main.jsbundle");
    assert_eq!(ios.arguments[3], "ios");
    assert_eq!(ios.arguments[7], "app.js");
    assert_eq!(ios.arguments[9], "out/main.jsbundle");
    assert_eq!(ios.arguments[11], "out");
}

#[test]
fn build_for_an_unknown_platform_fails() {
    assert_eq!(build_bundle("windows", "index.js", "./build"), Err(ErrorKind::BuildFailed));
    assert_eq!(build_bundle("", "index.js", "./build"), Err(ErrorKind::BuildFailed));
    assert_eq!(build_outcome(false), Err(ErrorKind::BuildFailed));
    assert_eq!(build_outcome(true), Ok(()));
}

#[test]
fn archive_plan_of_a_walk() {
    let entries = vec![
        BundleEntry { relative_path: String::new(), is_dir: true, size: 0 },
        BundleEntry { relative_path: "index.android.bundle".to_string(), is_dir: false, size: 1000 },
        BundleEntry { relative_path: "assets".to_string(), is_dir: true, size: 4096 },
        BundleEntry { relative_path: "assets\\img\\a.png".to_string(), is_dir: false, size: 234 },
    ];
    let plan = compress_bundle(&entries, &"bundle.zip".to_string());
    assert_eq!(
        plan.items,
        vec![
            ArchiveItem { name: "index.android.bundle".to_string(), is_dir: false, source: 1 },
            ArchiveItem { name: "assets".to_string(), is_dir: true, source: 2 },
            ArchiveItem { name: "assets/img/a.png".to_string(), is_dir: false, source: 3 },
        ]
    );
    assert_eq!(plan.file_count, 2);
    assert_eq!(plan.total_size, 1234);
}

#[test]
fn archive_never_holds_itself() {
    let entries = vec![
        BundleEntry { relative_path: "main.jsbundle".to_string(), is_dir: false, size: 10 },
        BundleEntry { relative_path: "bundle.zip".to_string(), is_dir: false, size: 999 },
        BundleEntry { relative_path: "old/bundle.zip".to_string(), is_dir: false, size: 5 },
    ];
    let plan = compress_bundle(&entries, &"bundle.zip".to_string());
    assert_eq!(
        plan.items,
        vec![
            ArchiveItem { name: "main.jsbundle".to_string(), is_dir: false, source: 0 },
            ArchiveItem { name: "old/bundle.zip".to_string(), is_dir: false, source: 2 },
        ]
    );
    assert_eq!((plan.file_count, plan.total_size), (2, 15));
}

#[test]
fn archive_plan_of_nothing_and_of_too_much() {
    let plan = compress_bundle(&Vec::new(), &"bundle.zip".to_string());
    assert!(plan.items.is_empty());
    assert_eq!((plan.file_count, plan.total_size), (0, 0));
    let huge = vec![
        BundleEntry { relative_path: "a".to_string(), is_dir: false, size: u64::MAX - 1 },
        BundleEntry { relative_path: "b".to_string(), is_dir: false, size: 5 },
        BundleEntry { relative_path: "c".to_string(), is_dir: false, size: 5 },
    ];
    let plan = compress_bundle(&huge, &"bundle.zip".to_string());
    assert_eq!(plan.file_count, 3);
    assert_eq!(plan.total_size, u64::MAX);
}
