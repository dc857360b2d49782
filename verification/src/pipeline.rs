//! What the release and patch pipelines share: the events they are fed,
//! the actions they ask for, and the steps between download and upload
//! that both go through.
//!
//! A pipeline never touches the network, the disk or the build tool. It is
//! handed an event, decides, and answers with the next action; whoever
//! drives it performs the action and reports back what came of it.

use vstd::prelude::*;
use crate::api::{ReleaseMetadata, ReleaseResponse, ReleaseView, MetadataView, release_views};
use crate::config::{Config, ConfigView, ReleaseKey};
use crate::encoding::{
    bytes_result, hex_bytes, hex_decode, hex_text, is_hex_text, lemma_hex_round_trip, text_view,
};
use crate::error::ErrorKind;
use crate::signing::{sign_file, signature_of};
use crate::utils::diff::{create_patch, diffed, patched};
use crate::utils::encryption::{decrypt_file, decrypted, encrypt_with_nonce, encrypted};
use crate::utils::{content_hash, sha256_file};

verus! {

/// The steps of the two pipelines, for telling where a failure arose.
#[derive(Clone, Copy, Debug, PartialEq, Eq, Structural)]
pub enum Step {
    Validate,
    LoadConfig,
    Build,
    Compress,
    ResolveEncryption,
    Encrypt,
    Sign,
    PublishRelease,
    FetchReleases,
    SelectVersions,
    Download,
    ResolvePlaintext,
    Diff,
    SignPatch,
    PublishPatch,
    Finished,
}

/// A failure, with the step it arose in.
#[derive(Clone, Debug, PartialEq, Eq)]
pub struct Failure {
    pub step: Step,
    pub kind: ErrorKind,
    /// What the failing collaborator said, or the name that was not found.
    pub detail: String,
}

/// The mathematical content of a [`Failure`].
pub struct FailureView {
    pub step: Step,
    pub kind: ErrorKind,
    pub detail: Seq<char>,
}

impl View for Failure {
    type V = FailureView;

    open spec fn view(&self) -> FailureView {
        FailureView { step: self.step, kind: self.kind, detail: self.detail@ }
    }
}

/// A failure that has nothing to add to its kind.
pub open spec fn plain_failure(step: Step, kind: ErrorKind) -> FailureView {
    FailureView { step, kind, detail: Seq::empty() }
}

impl Failure {
    /// A failure that has nothing to add to its kind.
    pub fn new(step: Step, kind: ErrorKind) -> (failure: Failure)
        ensures
            failure@ == plain_failure(step, kind),
    {
        Failure { step, kind, detail: String::new() }
    }
}

/// A patch as the registry records it, without its bytes.
#[derive(Debug, PartialEq, Eq)]
pub struct PatchSummary {
    /// The id of the release that the patch leads to.
    pub release_id: String,
    /// The version that the patch starts from, within the release's channel.
    pub base_version: String,
    pub hash: String,
    pub signature: String,
    pub size: u64,
}

/// The mathematical content of a [`PatchSummary`].
pub struct PatchView {
    pub release_id: Seq<char>,
    pub base_version: Seq<char>,
    pub hash: Seq<char>,
    pub signature: Seq<char>,
    pub size: u64,
}

impl View for PatchSummary {
    type V = PatchView;

    open spec fn view(&self) -> PatchView {
        PatchView {
            release_id: self.release_id@,
            base_version: self.base_version@,
            hash: self.hash@,
            signature: self.signature@,
            size: self.size,
        }
    }
}

impl Clone for PatchSummary {
    fn clone(&self) -> (copy: PatchSummary)
        ensures
            copy@ == self@,
    {
        PatchSummary {
            release_id: self.release_id.clone(),
            base_version: self.base_version.clone(),
            hash: self.hash.clone(),
            signature: self.signature.clone(),
            size: self.size,
        }
    }
}

/// How the patch stage of a release ended.
#[derive(Clone, Debug, PartialEq, Eq)]
pub enum PatchStage {
    /// The channel held no other release to diff against.
    Skipped,
    /// A patch from the most recent other release was published.
    Published(PatchSummary),
    /// The release stands, but no patch could be published for it.
    Failed(Failure),
}

/// The mathematical content of a [`PatchStage`].
pub enum PatchStageView {
    Skipped,
    Published(PatchView),
    Failed(FailureView),
}

impl View for PatchStage {
    type V = PatchStageView;

    open spec fn view(&self) -> PatchStageView {
        match self {
            PatchStage::Skipped => PatchStageView::Skipped,
            PatchStage::Published(p) => PatchStageView::Published(p@),
            PatchStage::Failed(f) => PatchStageView::Failed(f@),
        }
    }
}

/// A published release together with the fate of its patch.
#[derive(Clone, Debug, PartialEq, Eq)]
pub struct ReleaseOutcome {
    pub release: ReleaseResponse,
    pub patch: PatchStage,
}

/// The mathematical content of a [`ReleaseOutcome`].
pub struct OutcomeView {
    pub release: ReleaseView,
    pub patch: PatchStageView,
}

impl View for ReleaseOutcome {
    type V = OutcomeView;

    open spec fn view(&self) -> OutcomeView {
        OutcomeView { release: self.release@, patch: self.patch@ }
    }
}

/// What a pipeline is told once the action it asked for has been carried
/// out.
#[derive(Clone, Debug, PartialEq, Eq)]
pub enum Event {
    /// The build tool produced the raw artifact.
    Built,
    /// The artifact was compressed into these bytes.
    Compressed(Vec<u8>),
    /// The registry recorded the release.
    ReleasePublished(ReleaseResponse),
    /// The registry listed the channel's releases, in whatever order.
    ReleasesListed(Vec<ReleaseResponse>),
    /// An artifact was downloaded.
    Downloaded(Vec<u8>),
    /// The registry recorded the patch.
    PatchPublished,
    /// The action failed.
    Failed { kind: ErrorKind, detail: String },
}

/// The mathematical content of an [`Event`].
pub enum EventView {
    Built,
    Compressed(Seq<u8>),
    ReleasePublished(ReleaseView),
    ReleasesListed(Seq<ReleaseView>),
    Downloaded(Seq<u8>),
    PatchPublished,
    Failed { kind: ErrorKind, detail: Seq<char> },
}

impl View for Event {
    type V = EventView;

    open spec fn view(&self) -> EventView {
        match self {
            Event::Built => EventView::Built,
            Event::Compressed(bytes) => EventView::Compressed(bytes@),
            Event::ReleasePublished(release) => EventView::ReleasePublished(release@),
            Event::ReleasesListed(releases) => EventView::ReleasesListed(release_views(releases@)),
            Event::Downloaded(bytes) => EventView::Downloaded(bytes@),
            Event::PatchPublished => EventView::PatchPublished,
            Event::Failed { kind, detail } => EventView::Failed { kind: *kind, detail: detail@ },
        }
    }
}

/// What a pipeline asks its driver to do next.
#[derive(Clone, Debug, PartialEq, Eq)]
pub enum Action {
    /// Run the build tool.
    Build { platform: String, entry_file: String, build_dir: String },
    /// Compress what the build tool left in `build_dir`.
    Compress { build_dir: String },
    /// Upload a release: these bytes, described by this metadata.
    UploadRelease { metadata: ReleaseMetadata, bundle: Vec<u8> },
    /// List the releases of a channel.
    ListReleases { channel: String },
    /// Download the artifact at `url`.
    Download { url: String },
    /// Upload a patch: these bytes, recorded as this summary says.
    UploadPatch { patch: PatchSummary, delta: Vec<u8> },
    /// Nothing more: the release is published; report it with the fate of
    /// its patch.
    ReleaseDone(ReleaseOutcome),
    /// Nothing more: the patch is published.
    PatchDone(PatchSummary),
    /// Nothing more: the pipeline failed.
    Abort(Failure),
}

/// The mathematical content of an [`Action`].
pub enum ActionView {
    Build { platform: Seq<char>, entry_file: Seq<char>, build_dir: Seq<char> },
    Compress { build_dir: Seq<char> },
    UploadRelease { metadata: MetadataView, bundle: Seq<u8> },
    ListReleases { channel: Seq<char> },
    Download { url: Seq<char> },
    UploadPatch { patch: PatchView, delta: Seq<u8> },
    ReleaseDone(OutcomeView),
    PatchDone(PatchView),
    Abort(FailureView),
}

impl View for Action {
    type V = ActionView;

    open spec fn view(&self) -> ActionView {
        match self {
            Action::Build { platform, entry_file, build_dir } => ActionView::Build {
                platform: platform@,
                entry_file: entry_file@,
                build_dir: build_dir@,
            },
            Action::Compress { build_dir } => ActionView::Compress { build_dir: build_dir@ },
            Action::UploadRelease { metadata, bundle } => ActionView::UploadRelease {
                metadata: metadata@,
                bundle: bundle@,
            },
            Action::ListReleases { channel } => ActionView::ListReleases { channel: channel@ },
            Action::Download { url } => ActionView::Download { url: url@ },
            Action::UploadPatch { patch, delta } => ActionView::UploadPatch {
                patch: patch@,
                delta: delta@,
            },
            Action::ReleaseDone(outcome) => ActionView::ReleaseDone(outcome@),
            Action::PatchDone(patch) => ActionView::PatchDone(patch@),
            Action::Abort(failure) => ActionView::Abort(failure@),
        }
    }
}

impl ActionView {
    /// Whether the action reaches out to the registry.
    pub open spec fn calls_registry(self) -> bool {
        self is UploadRelease || self is ListReleases || self is Download || self is UploadPatch
    }

    /// Whether the action ends the pipeline.
    pub open spec fn is_final(self) -> bool {
        self is ReleaseDone || self is PatchDone || self is Abort
    }
}

/// The failure that an event stands for when it is not the one awaited:
/// what it reports if it reports a failure, else that it came out of order.
pub open spec fn failure_from(step: Step, event: EventView) -> FailureView {
    match event {
        EventView::Failed { kind, detail } => FailureView { step, kind, detail },
        _ => plain_failure(step, ErrorKind::OutOfOrder),
    }
}

/// The failure that an event stands for when it is not the one awaited.
pub fn unexpected(step: Step, event: Event) -> (failure: Failure)
    ensures
        failure@ == failure_from(step, event@),
{
    match event {
        Event::Failed { kind, detail } => Failure { step, kind, detail },
        _ => Failure::new(step, ErrorKind::OutOfOrder),
    }
}

/// The bytes of a key kept as hexadecimal text.
pub open spec fn key_bytes(key_hex: Seq<char>) -> Result<Seq<u8>, ErrorKind> {
    if is_hex_text(key_hex) {
        Ok(hex_bytes(key_hex))
    } else {
        Err(ErrorKind::InvalidKey)
    }
}

/// A key that was stored as the hexadecimal text of its bytes decodes to
/// those bytes: what the keyring generates, the cipher can use.
pub proof fn lemma_stored_key_decodes(key: Seq<u8>)
    ensures
        key_bytes(hex_text(key)) == Ok::<Seq<u8>, ErrorKind>(key),
{
    lemma_hex_round_trip(key);
}

/// The bytes that are uploaded for a bundle: the bundle itself without a
/// key, else its ciphertext blob under the key and nonce.
pub open spec fn sealed_bundle(
    plaintext: Seq<u8>,
    key_hex: Option<Seq<char>>,
    nonce: Seq<u8>,
) -> Result<Seq<u8>, ErrorKind> {
    match key_hex {
        None => Ok(plaintext),
        Some(text) => match key_bytes(text) {
            Err(kind) => Err(kind),
            Ok(key) => encrypted(plaintext, key, nonce),
        },
    }
}

/// The plaintext of a published release, from the bytes the registry
/// stores for it: those bytes themselves unless the release is encrypted,
/// else their decryption under the release's own key.
pub open spec fn published_plaintext(
    config: ConfigView,
    release: ReleaseView,
    artifact: Seq<u8>,
) -> Result<Seq<u8>, ErrorKind> {
    if !release.is_encrypted {
        Ok(artifact)
    } else {
        match config.published_key(release.key_id) {
            Err(kind) => Err(kind),
            Ok(text) => match key_bytes(text) {
                Err(kind) => Err(kind),
                Ok(key) => decrypted(artifact, key),
            },
        }
    }
}

/// Whether one text comes before another in character order: at the
/// first place where they differ it holds the lesser character, or it ends
/// there while the other goes on. Timestamps of one format and one time
/// zone, written from the year down, are in this order as they are in
/// time.
pub open spec fn text_before(a: Seq<char>, b: Seq<char>) -> bool
    decreases a.len(),
{
    if b.len() == 0 {
        false
    } else if a.len() == 0 {
        true
    } else if a.first() != b.first() {
        a.first() < b.first()
    } else {
        text_before(a.drop_first(), b.drop_first())
    }
}

/// No text comes before itself.
pub proof fn lemma_text_before_irreflexive(a: Seq<char>)
    ensures
        !text_before(a, a),
    decreases a.len(),
{
    if a.len() > 0 {
        lemma_text_before_irreflexive(a.drop_first());
    }
}

/// What comes before a text comes before all that the text comes before.
pub proof fn lemma_text_before_transitive(a: Seq<char>, b: Seq<char>, c: Seq<char>)
    requires
        text_before(a, b),
        text_before(b, c),
    ensures
        text_before(a, c),
    decreases a.len(),
{
    if a.len() > 0 && a.first() == b.first() && b.first() == c.first() {
        lemma_text_before_transitive(a.drop_first(), b.drop_first(), c.drop_first());
    }
}

/// Of two different texts one comes before the other.
pub proof fn lemma_text_order_total(a: Seq<char>, b: Seq<char>)
    requires
        !text_before(a, b),
        !text_before(b, a),
    ensures
        a == b,
    decreases a.len(),
{
    if a.len() > 0 && b.len() > 0 {
        lemma_text_order_total(a.drop_first(), b.drop_first());
        assert(a =~= seq![a.first()] + a.drop_first());
        assert(b =~= seq![b.first()] + b.drop_first());
    } else {
        assert(a =~= b);
    }
}

/// The most recent release in a list that is not the one with the given
/// id, by creation time; of several created at the same time, the one
/// listed first. The list may come in any order.
pub open spec fn most_recent_other(releases: Seq<ReleaseView>, id: Seq<char>) -> Option<int>
    decreases releases.len(),
{
    if releases.len() == 0 {
        None
    } else {
        let before = most_recent_other(releases.drop_last(), id);
        if releases.last().id == id {
            before
        } else {
            match before {
                None => Some(releases.len() - 1),
                Some(i) => if text_before(releases[i].created_at, releases.last().created_at) {
                    Some(releases.len() - 1)
                } else {
                    Some(i)
                },
            }
        }
    }
}

/// The first release in a list that carries the given version.
pub open spec fn first_with_version(releases: Seq<ReleaseView>, version: Seq<char>) -> Option<int>
    decreases releases.len(),
{
    if releases.len() == 0 {
        None
    } else if releases.first().version == version {
        Some(0)
    } else {
        match first_with_version(releases.drop_first(), version) {
            Some(i) => Some(i + 1),
            None => None,
        }
    }
}

/// What [`most_recent_other`] finds is in range and differs from the id;
/// no release with another id was created after it, and each one listed
/// before it was created earlier. It finds nothing only where every
/// release carries the id.
pub proof fn lemma_most_recent_other(releases: Seq<ReleaseView>, id: Seq<char>)
    ensures
        match most_recent_other(releases, id) {
            Some(i) => {
                &&& 0 <= i < releases.len()
                &&& releases[i].id != id
                &&& forall|j: int|
                    0 <= j < releases.len() && (#[trigger] releases[j]).id != id ==> !text_before(
                        releases[i].created_at,
                        releases[j].created_at,
                    )
                &&& forall|j: int|
                    0 <= j < i && (#[trigger] releases[j]).id != id ==> text_before(
                        releases[j].created_at,
                        releases[i].created_at,
                    )
            },
            None => forall|j: int| 0 <= j < releases.len() ==> (#[trigger] releases[j]).id == id,
        },
    decreases releases.len(),
{
    if releases.len() > 0 {
        let front = releases.drop_last();
        let last = releases.len() - 1;
        lemma_most_recent_other(front, id);
        assert forall|j: int| 0 <= j < front.len() implies front[j] == releases[j] by {}
        match most_recent_other(front, id) {
            None => {
                assert forall|j: int| 0 <= j < last implies (#[trigger] releases[j]).id == id by {
                    assert(front[j].id == id);
                }
                if releases.last().id != id {
                    lemma_text_before_irreflexive(releases[last].created_at);
                }
            },
            Some(i) => {
                if releases.last().id != id {
                    let kept = releases[i].created_at;
                    let new = releases[last].created_at;
                    if text_before(kept, new) {
                        lemma_text_before_irreflexive(new);
                        assert forall|j: int|
                            0 <= j < releases.len() && (#[trigger] releases[j]).id
                                != id implies !text_before(new, releases[j].created_at) by {
                            if j < last {
                                assert(front[j].id != id);
                                if text_before(new, releases[j].created_at) {
                                    lemma_text_before_transitive(
                                        kept,
                                        new,
                                        releases[j].created_at,
                                    );
                                }
                            }
                        }
                        assert forall|j: int|
                            0 <= j < last && (#[trigger] releases[j]).id != id implies text_before(
                            releases[j].created_at,
                            new,
                        ) by {
                            assert(front[j].id != id);
                            if j != i {
                                if text_before(releases[j].created_at, kept) {
                                    lemma_text_before_transitive(
                                        releases[j].created_at,
                                        kept,
                                        new,
                                    );
                                } else {
                                    lemma_text_order_total(releases[j].created_at, kept);
                                }
                            }
                        }
                    } else {
                        assert forall|j: int|
                            0 <= j < releases.len() && (#[trigger] releases[j]).id
                                != id implies !text_before(kept, releases[j].created_at) by {
                            if j < last {
                                assert(front[j].id != id);
                            }
                        }
                        assert forall|j: int|
                            0 <= j < i && (#[trigger] releases[j]).id != id implies text_before(
                            releases[j].created_at,
                            kept,
                        ) by {
                            assert(front[j].id != id);
                        }
                    }
                } else {
                    assert forall|j: int|
                        0 <= j < releases.len() && (#[trigger] releases[j]).id
                            != id implies !text_before(
                        releases[i].created_at,
                        releases[j].created_at,
                    ) by {
                        assert(front[j].id != id);
                    }
                    assert forall|j: int|
                        0 <= j < i && (#[trigger] releases[j]).id != id implies text_before(
                        releases[j].created_at,
                        releases[i].created_at,
                    ) by {
                        assert(front[j].id != id);
                    }
                }
            },
        }
    }
}

/// What [`first_with_version`] finds is in range, carries the version, and
/// has no such release before it; and it finds nothing only where there is
/// nothing to find.
pub proof fn lemma_first_with_version(releases: Seq<ReleaseView>, version: Seq<char>)
    ensures
        match first_with_version(releases, version) {
            Some(i) => {
                &&& 0 <= i < releases.len()
                &&& releases[i].version == version
                &&& forall|j: int| 0 <= j < i ==> (#[trigger] releases[j]).version != version
            },
            None => forall|j: int|
                0 <= j < releases.len() ==> (#[trigger] releases[j]).version != version,
        },
    decreases releases.len(),
{
    if releases.len() > 0 && releases.first().version != version {
        let rest = releases.drop_first();
        lemma_first_with_version(rest, version);
        match first_with_version(rest, version) {
            Some(i) => {
                assert forall|j: int| 0 <= j < i + 1 implies (#[trigger] releases[j]).version
                    != version by {
                    if j > 0 {
                        assert(rest[j - 1].version != version);
                    }
                }
            },
            None => {
                assert forall|j: int| 0 <= j < releases.len() implies (
                #[trigger] releases[j]).version != version by {
                    if j > 0 {
                        assert(rest[j - 1].version != version);
                    }
                }
            },
        }
    }
}

/// The view of an optional position.
pub open spec fn position_view(at: Option<usize>) -> Option<int> {
    match at {
        Some(i) => Some(i as int),
        None => None,
    }
}

/// Tells whether one text comes before another in character order.
pub fn comes_before(a: &str, b: &str) -> (before: bool)
    ensures
        before == text_before(a@, b@),
{
    let n = a.unicode_len();
    let m = b.unicode_len();
    let mut i: usize = 0;
    proof {
        assert(a@.skip(0) =~= a@);
        assert(b@.skip(0) =~= b@);
    }
    while i < n && i < m
        invariant
            i <= n,
            i <= m,
            n == a@.len(),
            m == b@.len(),
            text_before(a@, b@) == text_before(a@.skip(i as int), b@.skip(i as int)),
        decreases n - i,
    {
        let x = a.get_char(i);
        let y = b.get_char(i);
        proof {
            assert(a@.skip(i as int).first() == x);
            assert(b@.skip(i as int).first() == y);
            assert(a@.skip(i as int).drop_first() =~= a@.skip(i + 1));
            assert(b@.skip(i as int).drop_first() =~= b@.skip(i + 1));
        }
        if x != y {
            return x < y;
        }
        i += 1;
    }
    i < m
}

/// Finds the most recent release other than the one with the given id, by
/// creation time, in a list that may come in any order.
pub fn select_sibling(releases: &Vec<ReleaseResponse>, id: &String) -> (at: Option<usize>)
    ensures
        position_view(at) == most_recent_other(release_views(releases@), id@),
        at matches Some(i) ==> i < releases@.len(),
{
    let ghost views = release_views(releases@);
    let mut at: Option<usize> = None;
    let mut i: usize = 0;
    while i < releases.len()
        invariant
            i <= releases@.len(),
            views == release_views(releases@),
            position_view(at) == most_recent_other(views.take(i as int), id@),
            at matches Some(k) ==> k < i,
        decreases releases@.len() - i,
    {
        proof {
            assert(views.take(i + 1).drop_last() =~= views.take(i as int));
            assert(views.take(i + 1).last() == releases@[i as int]@);
            if let Some(k) = at {
                assert(views.take(i + 1)[k as int] == releases@[k as int]@);
            }
        }
        if releases[i].id != *id {
            let later = match at {
                None => true,
                Some(k) => comes_before(
                    releases[k].created_at.as_str(),
                    releases[i].created_at.as_str(),
                ),
            };
            if later {
                at = Some(i);
            }
        }
        i += 1;
    }
    proof {
        assert(views.take(releases@.len() as int) =~= views);
    }
    at
}

/// Finds the first release that carries the given version.
pub fn find_version(releases: &Vec<ReleaseResponse>, version: &String) -> (at: Option<usize>)
    ensures
        position_view(at) == first_with_version(release_views(releases@), version@),
        at matches Some(i) ==> i < releases@.len(),
{
    let ghost views = release_views(releases@);
    let mut i: usize = 0;
    proof {
        assert(views.skip(0) =~= views);
    }
    while i < releases.len()
        invariant
            i <= releases@.len(),
            views == release_views(releases@),
            first_with_version(views, version@) == match first_with_version(
                views.skip(i as int),
                version@,
            ) {
                Some(k) => Some(k + i),
                None => None,
            },
        decreases releases@.len() - i,
    {
        proof {
            assert(views.skip(i as int).first() == releases@[i as int]@);
            assert(views.skip(i as int).drop_first() =~= views.skip(i + 1));
        }
        if releases[i].version == *version {
            return Some(i);
        }
        i += 1;
    }
    None
}

/// A copy of a byte string.
pub fn copy_bytes(bytes: &Vec<u8>) -> (copy: Vec<u8>)
    ensures
        copy@ == bytes@,
{
    let mut copy: Vec<u8> = Vec::new();
    copy.extend_from_slice(bytes.as_slice());
    assert(copy@ =~= bytes@);
    copy
}

/// Decodes a key kept as hexadecimal text.
pub fn decode_key(key_hex: &String) -> (key: Result<Vec<u8>, ErrorKind>)
    ensures
        bytes_result(key) == key_bytes(key_hex@),
{
    match hex_decode(key_hex.as_str()) {
        Some(bytes) => Ok(bytes),
        None => Err(ErrorKind::InvalidKey),
    }
}

/// Produces the bytes to upload for a bundle: a copy of it when no key is
/// given, else its ciphertext blob under that key and nonce.
pub fn seal_bundle(plaintext: &Vec<u8>, key: &Option<ReleaseKey>, nonce: &[u8; 12]) -> (bundle:
    Result<Vec<u8>, ErrorKind>)
    ensures
        bytes_result(bundle) == sealed_bundle(
            plaintext@,
            match *key {
                Some(k) => Some(k.key_hex@),
                None => None,
            },
            nonce@,
        ),
        key is Some ==> (bundle matches Ok(b) ==> {
            &&& key_bytes(key->0.key_hex@) is Ok
            &&& decrypted(b@, key_bytes(key->0.key_hex@)->Ok_0) == Ok::<Seq<u8>, ErrorKind>(
                plaintext@,
            )
        }),
{
    match key {
        None => Ok(copy_bytes(plaintext)),
        Some(k) => match decode_key(&k.key_hex) {
            Err(kind) => Err(kind),
            Ok(bytes) => encrypt_with_nonce(plaintext.as_slice(), bytes.as_slice(), nonce),
        },
    }
}

/// Recovers the plaintext of a published release from the bytes that the
/// registry stores for it, with the release's own key.
pub fn resolve_plaintext(config: &Config, release: &ReleaseResponse, artifact: Vec<u8>) -> (plaintext:
    Result<Vec<u8>, ErrorKind>)
    ensures
        bytes_result(plaintext) == published_plaintext(config@, release@, artifact@),
{
    if !release.is_encrypted {
        return Ok(artifact);
    }
    match config.published_key(&release.key_id) {
        Err(kind) => Err(kind),
        Ok(key_hex) => match decode_key(&key_hex) {
            Err(kind) => Err(kind),
            Ok(key) => decrypt_file(artifact.as_slice(), key.as_slice()),
        },
    }
}

/// What is uploaded for a patch.
pub struct PatchUploadView {
    pub patch: PatchView,
    pub delta: Seq<u8>,
}

/// The patch that is uploaded for a delta: hashed and signed over exactly
/// the delta's bytes, and tied to the target release and the base version.
pub open spec fn packaged_patch(
    delta: Seq<u8>,
    signing_key: Option<Seq<char>>,
    release_id: Seq<char>,
    base_version: Seq<char>,
) -> Result<PatchUploadView, FailureView> {
    match signature_of(delta, signing_key) {
        Err(kind) => Err(plain_failure(Step::SignPatch, kind)),
        Ok(signature) => Ok(
            PatchUploadView {
                patch: PatchView {
                    release_id,
                    base_version,
                    hash: content_hash(delta),
                    signature,
                    size: delta.len() as u64,
                },
                delta,
            },
        ),
    }
}

/// The patch that is uploaded for two plaintexts, or why there is none:
/// the differ's patch from the old one to the new one, packaged.
pub open spec fn patch_between(
    old_plaintext: Seq<u8>,
    new_plaintext: Seq<u8>,
    signing_key: Option<Seq<char>>,
    release_id: Seq<char>,
    base_version: Seq<char>,
) -> Result<PatchUploadView, FailureView> {
    match diffed(old_plaintext, new_plaintext) {
        Err(kind) => Err(plain_failure(Step::Diff, kind)),
        Ok(delta) => packaged_patch(delta, signing_key, release_id, base_version),
    }
}

/// The view of a patch upload or a failure.
pub open spec fn upload_view(r: Result<(PatchSummary, Vec<u8>), Failure>) -> Result<
    PatchUploadView,
    FailureView,
> {
    match r {
        Ok((patch, delta)) => Ok(PatchUploadView { patch: patch@, delta: delta@ }),
        Err(failure) => Err(failure@),
    }
}

/// Hashes and signs a delta and ties it to its target release and base
/// version.
pub fn package_patch(
    delta: Vec<u8>,
    signing_key: &Option<String>,
    release_id: &String,
    base_version: &String,
) -> (upload: Result<(PatchSummary, Vec<u8>), Failure>)
    ensures
        upload_view(upload) == packaged_patch(
            delta@,
            text_view(*signing_key),
            release_id@,
            base_version@,
        ),
{
    let hash = sha256_file(delta.as_slice());
    match sign_file(delta.as_slice(), signing_key) {
        Err(kind) => Err(Failure::new(Step::SignPatch, kind)),
        Ok(signature) => {
            let patch = PatchSummary {
                release_id: release_id.clone(),
                base_version: base_version.clone(),
                hash,
                signature,
                size: delta.len() as u64,
            };
            Ok((patch, delta))
        },
    }
}

/// Diffs two plaintexts and packages the patch.
///
/// A patch that is returned leads from the old plaintext to the new one:
/// applied to the old one it yields the new one byte for byte.
pub fn prepare_patch(
    old_plaintext: &Vec<u8>,
    new_plaintext: &Vec<u8>,
    signing_key: &Option<String>,
    release_id: &String,
    base_version: &String,
) -> (upload: Result<(PatchSummary, Vec<u8>), Failure>)
    ensures
        upload_view(upload) == patch_between(
            old_plaintext@,
            new_plaintext@,
            text_view(*signing_key),
            release_id@,
            base_version@,
        ),
        upload matches Ok(sent) ==> patched(old_plaintext@, sent.1@) == Ok::<Seq<u8>, ErrorKind>(
            new_plaintext@,
        ),
{
    match create_patch(old_plaintext.as_slice(), new_plaintext.as_slice()) {
        Err(kind) => Err(Failure::new(Step::Diff, kind)),
        Ok(delta) => package_patch(delta, signing_key, release_id, base_version),
    }
}

} // verus!
