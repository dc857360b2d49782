use base64::Engine;
use hotpatch::api::ReleaseResponse;
use hotpatch::commands::patch::{default_patch_name, execute, PatchPipeline, PatchRequest, PatchState};
use hotpatch::config::Config;
use hotpatch::error::ErrorKind;
use hotpatch::keyring::{KeyEntry, Keyring};
use hotpatch::pipeline::{Action, Event, Failure, PatchSummary, Step};
use hotpatch::signing::sign_file;
use hotpatch::utils::encryption::encrypt_file;
use hotpatch::utils::sha256_file;

const KEY_A: &str = "000102030405060708090a0b0c0d0e0f101112131415161718191a1b1c1d1e1f";
const KEY_B: &str = "ffeeddccbbaa99887766554433221100ffeeddccbbaa99887766554433221100";

struct Store {
    releases: Vec<ReleaseResponse>,
    artifacts: Vec<(String, Vec<u8>)>,
    patches: Vec<(PatchSummary, Vec<u8>)>,
    downloads: Vec<String>,
}

fn published(version: &str, encrypted: bool, key_id: Option<&str>) -> ReleaseResponse {
    ReleaseResponse {
        id: format!("id-{}", version),
        version: version.to_string(),
        channel: "production".to_string(),
        bundle_url: format!("https://cdn.example/{}", version),
        rollout_percentage: 100,
        is_active: true,
        is_encrypted: encrypted,
        key_id: key_id.map(|k| k.to_string()),
        created_at: "then".to_string(),
    }
}

fn plain(tag: u8) -> Vec<u8> {
    let mut bytes: Vec<u8> = (0..2500u32).map(|i| (i % 241) as u8).collect();
    bytes[9] = tag;
    bytes.extend_from_slice(&[tag; 30]);
    bytes
}

fn sealed(tag: u8, key_hex: &str) -> Vec<u8> {
    encrypt_file(&plain(tag), &hex::decode(key_hex).unwrap()).unwrap()
}

fn store(entries: Vec<(ReleaseResponse, Vec<u8>)>) -> Store {
    Store {
        artifacts: entries.iter().map(|(r, b)| (r.bundle_url.clone(), b.clone())).collect(),
        releases: entries.into_iter().rev().map(|(r, _)| r).collect(),
        patches: Vec::new(),
        downloads: Vec::new(),
    }
}

fn drive(
    store: &mut Store,
    request: PatchRequest,
    config: Option<Config>,
    signing_key: Option<String>,
) -> Result<(PatchPipeline, Action), Failure> {
    let (mut pipeline, mut action) = execute(request, config, signing_key)?;
    loop {
        let event = match action {
            Action::ListReleases { channel } => Event::ReleasesListed(
                store.releases.iter().filter(|r| r.channel == channel).cloned().collect(),
            ),
            Action::Download { url } => {
                store.downloads.push(url.clone());
                match store.artifacts.iter().find(|(u, _)| *u == url) {
                    Some((_, bytes)) => Event::Downloaded(bytes.clone()),
                    None => Event::Failed { kind: ErrorKind::Remote, detail: "HTTP 404".to_string() },
                }
            }
            Action::UploadPatch { patch, delta } => {
                store.patches.push((patch, delta));
                Event::PatchPublished
            }
            last => return Ok((pipeline, last)),
        };
        let next = pipeline.advance(event);
        pipeline = next.0;
        action = next.1;
    }
}

fn request(old: &str, new: &str) -> PatchRequest {
    PatchRequest {
        old_version: old.to_string(),
        new_version: new.to_string(),
        channel: "production".to_string(),
    }
}

fn config(keyring: Keyring, legacy: Option<&str>) -> Config {
    Config {
        api_endpoint: "https://registry.example".to_string(),
        api_token: "token".to_string(),
        app_id: None,
        tier: None,
        encryption_key: legacy.map(|k| k.to_string()),
        keyring,
    }
}

fn ring(entries: &[(&str, &str)], active: Option<&str>) -> Keyring {
    Keyring::restore(
        Some(
            entries
                .iter()
                .map(|(id, key)| KeyEntry { id: id.to_string(), key: key.to_string() })
                .collect(),
        ),
        active.map(|a| a.to_string()),
    )
}

fn signing_key() -> Option<String> {
    Some(base64::engine::general_purpose::STANDARD.encode([9u8; 32]))
}

fn apply(old: &[u8], patch: &[u8]) -> Vec<u8> {
    let mut target = Vec::new();
    qbsdiff::Bspatch::new(patch)
        .unwrap()
        .apply(old, std::io::Cursor::new(&mut target))
        .unwrap();
    target
}

#[test]
fn patch_from_an_encrypted_version_to_a_plain_one() {
    let mut store = store(vec![
        (published("1.0.0", true, Some("abcd1234")), sealed(1, KEY_A)),
        (published("1.1.0", false, None), plain(2)),
    ]);
    let settings = config(ring(&[("abcd1234", KEY_A)], Some("abcd1234")), None);
    let (pipeline, last) =
        drive(&mut store, request("1.0.0", "1.1.0"), Some(settings), signing_key()).unwrap();
    assert!(pipeline.is_finished());
    assert_eq!(store.patches.len(), 1);
    let (summary, delta) = &store.patches[0];
    assert_eq!(summary.base_version, "1.0.0");
    assert_eq!(summary.release_id, "id-1.1.0");
    assert_eq!(summary.hash, sha256_file(delta));
    assert_eq!(summary.signature, sign_file(delta, &signing_key()).unwrap());
    assert_eq!(summary.size, delta.len() as u64);
    assert_eq!(apply(&plain(1), delta), plain(2));
    assert_eq!(last, Action::PatchDone(summary.clone()));
}

#[test]
fn patch_between_versions_under_different_keys() {
    let mut store = store(vec![
        (published("1.0.0", true, Some("k1")), sealed(1, KEY_A)),
        (published("1.1.0", true, Some("k2")), sealed(2, KEY_B)),
    ]);
    let settings = config(ring(&[("k1", KEY_A), ("k2", KEY_B)], Some("k2")), None);
    drive(&mut store, request("1.0.0", "1.1.0"), Some(settings), signing_key()).unwrap();
    assert_eq!(apply(&plain(1), &store.patches[0].1), plain(2));
}

#[test]
fn patch_with_a_legacy_encrypted_version() {
    let mut store = store(vec![
        (published("1.0.0", false, None), plain(1)),
        (published("1.1.0", true, None), sealed(2, KEY_B)),
    ]);
    let settings = config(Keyring::new(), Some(KEY_B));
    drive(&mut store, request("1.0.0", "1.1.0"), Some(settings), signing_key()).unwrap();
    assert_eq!(apply(&plain(1), &store.patches[0].1), plain(2));
}

#[test]
fn patch_backwards_is_possible() {
    let mut store = store(vec![
        (published("1.0.0", false, None), plain(1)),
        (published("1.1.0", false, None), plain(2)),
    ]);
    drive(&mut store, request("1.1.0", "1.0.0"), Some(config(Keyring::new(), None)), signing_key())
        .unwrap();
    assert_eq!(store.patches[0].0.base_version, "1.1.0");
    assert_eq!(store.patches[0].0.release_id, "id-1.0.0");
    assert_eq!(apply(&plain(2), &store.patches[0].1), plain(1));
}

#[test]
fn old_version_is_downloaded_first() {
    let mut store = store(vec![
        (published("1.0.0", false, None), plain(1)),
        (published("1.1.0", false, None), plain(2)),
    ]);
    drive(&mut store, request("1.0.0", "1.1.0"), Some(config(Keyring::new(), None)), signing_key())
        .unwrap();
    assert_eq!(
        store.downloads,
        vec!["https://cdn.example/1.0.0".to_string(), "https://cdn.example/1.1.0".to_string()]
    );
}

#[test]
fn missing_old_version_is_not_found() {
    let mut store = store(vec![(published("1.1.0", false, None), plain(2))]);
    let (pipeline, last) =
        drive(&mut store, request("1.0.0", "1.1.0"), Some(config(Keyring::new(), None)), signing_key())
            .unwrap();
    assert!(pipeline.is_finished());
    assert!(store.downloads.is_empty());
    assert_eq!(
        last,
        Action::Abort(Failure {
            step: Step::SelectVersions,
            kind: ErrorKind::NotFound,
            detail: "1.0.0".to_string(),
        })
    );
}

#[test]
fn missing_new_version_is_not_found() {
    let mut store = store(vec![(published("1.0.0", false, None), plain(1))]);
    let (_, last) =
        drive(&mut store, request("1.0.0", "1.1.0"), Some(config(Keyring::new(), None)), signing_key())
            .unwrap();
    assert!(store.downloads.is_empty());
    assert_eq!(
        last,
        Action::Abort(Failure {
            step: Step::SelectVersions,
            kind: ErrorKind::NotFound,
            detail: "1.1.0".to_string(),
        })
    );
}

#[test]
fn both_versions_missing_names_the_old_one() {
    let mut store = store(Vec::new());
    let (_, last) =
        drive(&mut store, request("1.0.0", "1.1.0"), Some(config(Keyring::new(), None)), signing_key())
            .unwrap();
    match last {
        Action::Abort(failure) => assert_eq!(failure.detail, "1.0.0"),
        other => panic!("unexpected end: {:?}", other),
    }
}

#[test]
fn patch_without_configuration_is_not_authenticated() {
    let failure = execute(request("1.0.0", "1.1.0"), None, signing_key()).unwrap_err();
    assert_eq!(failure.kind, ErrorKind::NotAuthenticated);
    assert_eq!(failure.step, Step::LoadConfig);
}

#[test]
fn patch_pipeline_starts_by_listing_the_channel() {
    let (pipeline, action) =
        execute(request("1.0.0", "1.1.0"), Some(config(Keyring::new(), None)), signing_key())
            .unwrap();
    assert_eq!(pipeline.state(), &PatchState::FetchingReleases);
    assert_eq!(action, Action::ListReleases { channel: "production".to_string() });
}

#[test]
fn missing_key_of_the_old_version_aborts() {
    let mut store = store(vec![
        (published("1.0.0", true, Some("k1")), sealed(1, KEY_A)),
        (published("1.1.0", false, None), plain(2)),
    ]);
    let settings = config(ring(&[("k2", KEY_B)], None), None);
    let (_, last) =
        drive(&mut store, request("1.0.0", "1.1.0"), Some(settings), signing_key()).unwrap();
    assert!(store.patches.is_empty());
    assert_eq!(store.downloads.len(), 1);
    assert_eq!(
        last,
        Action::Abort(Failure {
            step: Step::ResolvePlaintext,
            kind: ErrorKind::NotFound,
            detail: String::new(),
        })
    );
}

#[test]
fn absent_keyring_for_a_keyed_version_is_not_found() {
    let mut store = store(vec![
        (published("1.0.0", false, None), plain(1)),
        (published("1.1.0", true, Some("k1")), sealed(2, KEY_A)),
    ]);
    let (_, last) =
        drive(&mut store, request("1.0.0", "1.1.0"), Some(config(Keyring::new(), None)), signing_key())
            .unwrap();
    match last {
        Action::Abort(failure) => {
            assert_eq!(failure.kind, ErrorKind::NotFound);
            assert_eq!(failure.step, Step::ResolvePlaintext);
        }
        other => panic!("unexpected end: {:?}", other),
    }
}

#[test]
fn truncated_download_is_input_too_small() {
    let mut store = store(vec![
        (published("1.0.0", true, Some("k1")), vec![1, 2, 3]),
        (published("1.1.0", false, None), plain(2)),
    ]);
    let settings = config(ring(&[("k1", KEY_A)], None), None);
    let (_, last) =
        drive(&mut store, request("1.0.0", "1.1.0"), Some(settings), signing_key()).unwrap();
    match last {
        Action::Abort(failure) => assert_eq!(failure.kind, ErrorKind::InputTooSmall),
        other => panic!("unexpected end: {:?}", other),
    }
}

#[test]
fn failed_download_aborts_with_what_was_reported() {
    let mut store = store(vec![
        (published("1.0.0", false, None), plain(1)),
        (published("1.1.0", false, None), plain(2)),
    ]);
    store.artifacts.remove(1);
    let (_, last) =
        drive(&mut store, request("1.0.0", "1.1.0"), Some(config(Keyring::new(), None)), signing_key())
            .unwrap();
    assert_eq!(
        last,
        Action::Abort(Failure {
            step: Step::Download,
            kind: ErrorKind::Remote,
            detail: "HTTP 404".to_string(),
        })
    );
}

#[test]
fn patch_without_signing_key_is_not_configured() {
    let mut store = store(vec![
        (published("1.0.0", false, None), plain(1)),
        (published("1.1.0", false, None), plain(2)),
    ]);
    let (_, last) =
        drive(&mut store, request("1.0.0", "1.1.0"), Some(config(Keyring::new(), None)), None)
            .unwrap();
    assert!(store.patches.is_empty());
    assert_eq!(
        last,
        Action::Abort(Failure {
            step: Step::SignPatch,
            kind: ErrorKind::NotConfigured,
            detail: String::new(),
        })
    );
}

#[test]
fn first_release_with_a_version_is_taken() {
    let mut first = published("1.0.0", false, None);
    first.id = "newer".to_string();
    first.bundle_url = "https://cdn.example/newer".to_string();
    let mut second = published("1.0.0", false, None);
    second.id = "older".to_string();
    second.bundle_url = "https://cdn.example/older".to_string();
    let mut store = Store {
        releases: vec![first, second, published("1.1.0", false, None)],
        artifacts: vec![
            ("https://cdn.example/newer".to_string(), plain(1)),
            ("https://cdn.example/older".to_string(), plain(3)),
            ("https://cdn.example/1.1.0".to_string(), plain(2)),
        ],
        patches: Vec::new(),
        downloads: Vec::new(),
    };
    drive(&mut store, request("1.0.0", "1.1.0"), Some(config(Keyring::new(), None)), signing_key())
        .unwrap();
    assert_eq!(store.downloads[0], "https://cdn.example/newer");
    assert_eq!(apply(&plain(1), &store.patches[0].1), plain(2));
}

#[test]
fn unexpected_event_aborts_the_patch_pipeline() {
    let (pipeline, _) =
        execute(request("1.0.0", "1.1.0"), Some(config(Keyring::new(), None)), signing_key())
            .unwrap();
    let (pipeline, action) = pipeline.advance(Event::Built);
    assert!(pipeline.is_finished());
    assert_eq!(
        action,
        Action::Abort(Failure {
            step: Step::FetchReleases,
            kind: ErrorKind::OutOfOrder,
            detail: String::new(),
        })
    );
    let (_, action) = pipeline.advance(Event::PatchPublished);
    assert_eq!(
        action,
        Action::Abort(Failure {
            step: Step::Finished,
            kind: ErrorKind::OutOfOrder,
            detail: String::new(),
        })
    );
}

#[test]
fn default_patch_file_name() {
    assert_eq!(default_patch_name("1.0.0", "1.1.0"), "1.0.0_to_1.1.0.patch");
    assert_eq!(default_patch_name("", ""), "_to_.patch");
}
