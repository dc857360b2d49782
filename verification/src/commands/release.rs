//! Publishing a release: build, compress, encrypt if asked, hash, sign,
//! upload; then a patch from the most recent other release on the channel.
//!
//! The pipeline is strictly sequential and never retries. A failure before
//! the release is recorded aborts it; a failure after that leaves the
//! release standing and is reported beside it.

use vstd::prelude::*;
use vstd::string::StringExecFns;
use crate::api::{MetadataView, ReleaseMetadata, ReleaseResponse, ReleaseView};
use crate::config::{Config, ConfigView};
use crate::encoding::text_view;
use crate::error::ErrorKind;
use crate::pipeline::{
    failure_from, key_bytes, lemma_most_recent_other, most_recent_other, patch_between,
    plain_failure, prepare_patch, published_plaintext, resolve_plaintext, seal_bundle,
    sealed_bundle, select_sibling, text_before, unexpected, Action, ActionView, Event,
    EventView, Failure, FailureView, OutcomeView, PatchStage, PatchStageView, PatchSummary,
    PatchView, ReleaseOutcome, Step,
};
use crate::signing::{sign_file, signature_of};
use crate::utils::diff::{bsdiff_patch, patched};
use crate::utils::encryption::{decrypted, encrypted_blob, random_bytes, NONCE_LEN};
use crate::utils::{content_hash, sha256_file};

verus! {

/// What the operator asks for.
#[derive(Clone, Debug, PartialEq, Eq)]
pub struct ReleaseRequest {
    pub platform: String,
    pub version: String,
    pub channel: String,
    pub mandatory: bool,
    /// The share of installs, in percent, that the release is offered to.
    pub rollout: u8,
    pub entry_file: String,
    pub build_dir: String,
    pub encrypt: bool,
}

/// The mathematical content of a [`ReleaseRequest`].
pub struct RequestView {
    pub platform: Seq<char>,
    pub version: Seq<char>,
    pub channel: Seq<char>,
    pub mandatory: bool,
    pub rollout: u8,
    pub entry_file: Seq<char>,
    pub build_dir: Seq<char>,
    pub encrypt: bool,
}

impl View for ReleaseRequest {
    type V = RequestView;

    open spec fn view(&self) -> RequestView {
        RequestView {
            platform: self.platform@,
            version: self.version@,
            channel: self.channel@,
            mandatory: self.mandatory,
            rollout: self.rollout,
            entry_file: self.entry_file@,
            build_dir: self.build_dir@,
            encrypt: self.encrypt,
        }
    }
}

/// Where a release pipeline stands, with what it carries along.
#[derive(Debug, PartialEq, Eq)]
pub enum ReleaseState {
    /// Waiting for the build tool.
    Building,
    /// Waiting for the compressed bundle.
    Compressing,
    /// Waiting for the registry to record the release.
    Publishing { plaintext: Vec<u8> },
    /// Waiting for the channel's releases.
    FetchingSiblings { plaintext: Vec<u8>, release: ReleaseResponse },
    /// Waiting for the sibling's stored bytes.
    DownloadingSibling { plaintext: Vec<u8>, release: ReleaseResponse, sibling: ReleaseResponse },
    /// Waiting for the registry to record the patch.
    PublishingPatch { release: ReleaseResponse, patch: PatchSummary },
    /// Over.
    Finished,
}

/// The mathematical content of a [`ReleaseState`].
pub enum StateView {
    Building,
    Compressing,
    Publishing { plaintext: Seq<u8> },
    FetchingSiblings { plaintext: Seq<u8>, release: ReleaseView },
    DownloadingSibling { plaintext: Seq<u8>, release: ReleaseView, sibling: ReleaseView },
    PublishingPatch { release: ReleaseView, patch: PatchView },
    Finished,
}

impl View for ReleaseState {
    type V = StateView;

    open spec fn view(&self) -> StateView {
        match self {
            ReleaseState::Building => StateView::Building,
            ReleaseState::Compressing => StateView::Compressing,
            ReleaseState::Publishing { plaintext } => StateView::Publishing {
                plaintext: plaintext@,
            },
            ReleaseState::FetchingSiblings { plaintext, release } => StateView::FetchingSiblings {
                plaintext: plaintext@,
                release: release@,
            },
            ReleaseState::DownloadingSibling {
                plaintext,
                release,
                sibling,
            } => StateView::DownloadingSibling {
                plaintext: plaintext@,
                release: release@,
                sibling: sibling@,
            },
            ReleaseState::PublishingPatch { release, patch } => StateView::PublishingPatch {
                release: release@,
                patch: patch@,
            },
            ReleaseState::Finished => StateView::Finished,
        }
    }
}

impl StateView {
    /// Whether the registry has recorded the release.
    pub open spec fn release_stands(self) -> bool {
        self is FetchingSiblings || self is DownloadingSibling || self is PublishingPatch
    }
}

/// A release pipeline: the request, the configuration and signing key that
/// were loaded for it once, and where it stands.
#[derive(Debug, PartialEq, Eq)]
pub struct ReleasePipeline {
    request: ReleaseRequest,
    config: Config,
    signing_key: Option<String>,
    state: ReleaseState,
}

/// The mathematical content of a [`ReleasePipeline`].
pub struct PipelineView {
    pub request: RequestView,
    pub config: ConfigView,
    pub signing_key: Option<Seq<char>>,
    pub state: StateView,
}

impl View for ReleasePipeline {
    type V = PipelineView;

    closed spec fn view(&self) -> PipelineView {
        PipelineView {
            request: self.request@,
            config: self.config@,
            signing_key: text_view(self.signing_key),
            state: self.state@,
        }
    }
}

impl PipelineView {
    /// The same pipeline in another state.
    pub open spec fn at(self, state: StateView) -> PipelineView {
        PipelineView {
            request: self.request,
            config: self.config,
            signing_key: self.signing_key,
            state,
        }
    }
}

/// Whether a rollout percentage is between 1 and 100.
pub open spec fn valid_rollout(rollout: u8) -> bool {
    1 <= rollout <= 100
}

/// Whether a platform is one that releases are built for.
pub open spec fn supported_platform(platform: Seq<char>) -> bool {
    platform == "android"@ || platform == "ios"@
}

/// What is wrong with a request, if anything: the rollout is looked at
/// before the platform.
pub open spec fn request_failure(request: RequestView) -> Option<FailureView> {
    if !valid_rollout(request.rollout) {
        Some(
            FailureView {
                step: Step::Validate,
                kind: ErrorKind::Validation,
                detail: "rollout percentage must be between 1 and 100"@,
            },
        )
    } else if !supported_platform(request.platform) {
        Some(
            FailureView {
                step: Step::Validate,
                kind: ErrorKind::Validation,
                detail: "platform must be 'android' or 'ios'"@,
            },
        )
    } else {
        None
    }
}

/// How a pipeline starts: with a failure and nothing done for an invalid
/// request or a missing configuration, else with the order to build.
pub open spec fn started(
    request: RequestView,
    config: Option<ConfigView>,
    signing_key: Option<Seq<char>>,
) -> Result<(PipelineView, ActionView), FailureView> {
    match request_failure(request) {
        Some(failure) => Err(failure),
        None => match config {
            None => Err(plain_failure(Step::LoadConfig, ErrorKind::NotAuthenticated)),
            Some(c) => Ok(
                (
                    PipelineView { request, config: c, signing_key, state: StateView::Building },
                    ActionView::Build {
                        platform: request.platform,
                        entry_file: request.entry_file,
                        build_dir: request.build_dir,
                    },
                ),
            ),
        },
    }
}

/// The text of a chosen key, if one was chosen.
pub open spec fn chosen_key_text(chosen: Option<(Option<Seq<char>>, Seq<char>)>) -> Option<
    Seq<char>,
> {
    match chosen {
        Some(k) => Some(k.1),
        None => None,
    }
}

/// The keyring id of a chosen key, if one was chosen from the keyring.
pub open spec fn chosen_key_id(chosen: Option<(Option<Seq<char>>, Seq<char>)>) -> Option<
    Seq<char>,
> {
    match chosen {
        Some(k) => k.0,
        None => None,
    }
}

/// What is uploaded for a compressed bundle: the bundle, encrypted if the
/// request says so, with metadata whose hash, signature and size are taken
/// from exactly the bytes that go up.
pub open spec fn release_upload(
    p: PipelineView,
    plaintext: Seq<u8>,
    nonce: Seq<u8>,
) -> Result<(MetadataView, Seq<u8>), FailureView> {
    match p.config.release_key(p.request.encrypt) {
        Err(kind) => Err(plain_failure(Step::ResolveEncryption, kind)),
        Ok(chosen) => match sealed_bundle(plaintext, chosen_key_text(chosen), nonce) {
            Err(kind) => Err(plain_failure(Step::Encrypt, kind)),
            Ok(bundle) => match signature_of(bundle, p.signing_key) {
                Err(kind) => Err(plain_failure(Step::Sign, kind)),
                Ok(signature) => Ok(
                    (
                        MetadataView {
                            version: p.request.version,
                            channel: p.request.channel,
                            platform: p.request.platform,
                            mandatory: p.request.mandatory,
                            rollout_percentage: p.request.rollout,
                            hash: content_hash(bundle),
                            signature,
                            is_encrypted: p.request.encrypt,
                            is_patch: false,
                            base_version: None,
                            key_id: chosen_key_id(chosen),
                            size: bundle.len() as u64,
                        },
                        bundle,
                    ),
                ),
            },
        },
    }
}

/// The end of a pipeline whose release was never recorded.
pub open spec fn aborted(failure: FailureView) -> (StateView, ActionView) {
    (StateView::Finished, ActionView::Abort(failure))
}

/// The end of a pipeline whose release stands.
pub open spec fn concluded(release: ReleaseView, patch: PatchStageView) -> (StateView, ActionView) {
    (StateView::Finished, ActionView::ReleaseDone(OutcomeView { release, patch }))
}

/// The step taken on the compressed bundle.
pub open spec fn after_compress(p: PipelineView, plaintext: Seq<u8>, nonce: Seq<u8>) -> (
    StateView,
    ActionView,
) {
    match release_upload(p, plaintext, nonce) {
        Err(failure) => aborted(failure),
        Ok((metadata, bundle)) => (
            StateView::Publishing { plaintext },
            ActionView::UploadRelease { metadata, bundle },
        ),
    }
}

/// The step taken on the channel's releases: the most recent one that is
/// not the new release is fetched; if there is none, the patch is skipped.
pub open spec fn after_listing(
    plaintext: Seq<u8>,
    release: ReleaseView,
    releases: Seq<ReleaseView>,
) -> (StateView, ActionView) {
    match most_recent_other(releases, release.id) {
        None => concluded(release, PatchStageView::Skipped),
        Some(i) => (
            StateView::DownloadingSibling { plaintext, release, sibling: releases[i] },
            ActionView::Download { url: releases[i].bundle_url },
        ),
    }
}

/// The step taken on the sibling's stored bytes: they are brought to
/// plaintext with the sibling's own key, and the patch leads from that
/// plaintext to the new release's plaintext.
pub open spec fn after_download(
    p: PipelineView,
    plaintext: Seq<u8>,
    release: ReleaseView,
    sibling: ReleaseView,
    artifact: Seq<u8>,
) -> (StateView, ActionView) {
    match published_plaintext(p.config, sibling, artifact) {
        Err(kind) => concluded(
            release,
            PatchStageView::Failed(plain_failure(Step::ResolvePlaintext, kind)),
        ),
        Ok(old_plaintext) => match patch_between(
            old_plaintext,
            plaintext,
            p.signing_key,
            release.id,
            sibling.version,
        ) {
            Err(failure) => concluded(release, PatchStageView::Failed(failure)),
            Ok(upload) => (
                StateView::PublishingPatch { release, patch: upload.patch },
                ActionView::UploadPatch { patch: upload.patch, delta: upload.delta },
            ),
        },
    }
}

/// The step a pipeline takes on an event: its next state and the action it
/// asks for. The nonce is the one at hand should the step encrypt.
pub open spec fn release_step(p: PipelineView, event: EventView, nonce: Seq<u8>) -> (
    StateView,
    ActionView,
) {
    match p.state {
        StateView::Building => match event {
            EventView::Built => (
                StateView::Compressing,
                ActionView::Compress { build_dir: p.request.build_dir },
            ),
            _ => aborted(failure_from(Step::Build, event)),
        },
        StateView::Compressing => match event {
            EventView::Compressed(plaintext) => after_compress(p, plaintext, nonce),
            _ => aborted(failure_from(Step::Compress, event)),
        },
        StateView::Publishing { plaintext } => match event {
            EventView::ReleasePublished(release) => (
                StateView::FetchingSiblings { plaintext, release },
                ActionView::ListReleases { channel: p.request.channel },
            ),
            _ => aborted(failure_from(Step::PublishRelease, event)),
        },
        StateView::FetchingSiblings { plaintext, release } => match event {
            EventView::ReleasesListed(releases) => after_listing(plaintext, release, releases),
            _ => concluded(
                release,
                PatchStageView::Failed(failure_from(Step::FetchReleases, event)),
            ),
        },
        StateView::DownloadingSibling { plaintext, release, sibling } => match event {
            EventView::Downloaded(artifact) => after_download(
                p,
                plaintext,
                release,
                sibling,
                artifact,
            ),
            _ => concluded(release, PatchStageView::Failed(failure_from(Step::Download, event))),
        },
        StateView::PublishingPatch { release, patch } => match event {
            EventView::PatchPublished => concluded(release, PatchStageView::Published(patch)),
            _ => concluded(
                release,
                PatchStageView::Failed(failure_from(Step::PublishPatch, event)),
            ),
        },
        StateView::Finished => aborted(plain_failure(Step::Finished, ErrorKind::OutOfOrder)),
    }
}

/// Whether the step that a pipeline takes on an event encrypts: only the
/// step on the compressed bundle does, and only if the request asks for it.
pub open spec fn encrypts_on(p: PipelineView, event: EventView) -> bool {
    p.state is Compressing && event is Compressed && p.request.encrypt
}

/// Whether an action, if it uploads a release that was to be encrypted,
/// uploads bytes that decrypt to the compressed bundle under the key that
/// the configuration resolves to.
pub open spec fn uploads_what_decrypts(p: PipelineView, event: EventView, action: ActionView) -> bool {
    action matches ActionView::UploadRelease { bundle, .. } ==> (p.request.encrypt ==> {
        &&& event matches EventView::Compressed(plaintext)
        &&& p.config.release_key(true) matches Ok(Some(chosen))
        &&& key_bytes(chosen.1) matches Ok(key)
        &&& decrypted(bundle, key) == Ok::<Seq<u8>, ErrorKind>(plaintext)
    })
}

/// Whether an action, if it uploads a patch, uploads one that, applied to
/// the sibling's plaintext, yields the new release's plaintext.
pub open spec fn uploads_what_applies(p: PipelineView, event: EventView, action: ActionView) -> bool {
    action matches ActionView::UploadPatch { delta, .. } ==> {
        &&& p.state matches StateView::DownloadingSibling { plaintext, sibling, .. }
        &&& event matches EventView::Downloaded(artifact)
        &&& published_plaintext(p.config, sibling, artifact) matches Ok(old_plaintext)
        &&& patched(old_plaintext, delta) == Ok::<Seq<u8>, ErrorKind>(plaintext)
    }
}

/// Checks a request before anything is done for it.
pub fn validate(request: &ReleaseRequest) -> (failure: Option<Failure>)
    ensures
        match failure {
            Some(f) => Some(f@),
            None => None,
        } == request_failure(request@),
{
    if request.rollout == 0 || request.rollout > 100 {
        return Some(
            Failure {
                step: Step::Validate,
                kind: ErrorKind::Validation,
                detail: String::from_str("rollout percentage must be between 1 and 100"),
            },
        );
    }
    let android = String::from_str("android");
    let ios = String::from_str("ios");
    if request.platform != android && request.platform != ios {
        return Some(
            Failure {
                step: Step::Validate,
                kind: ErrorKind::Validation,
                detail: String::from_str("platform must be 'android' or 'ios'"),
            },
        );
    }
    None
}

/// The view of a started pipeline or a failure.
pub open spec fn start_view(r: Result<(ReleasePipeline, Action), Failure>) -> Result<
    (PipelineView, ActionView),
    FailureView,
> {
    match r {
        Ok((pipeline, action)) => Ok((pipeline@, action@)),
        Err(failure) => Err(failure@),
    }
}

/// Starts the publication of a release.
///
/// `config` is the stored configuration if there is one, `signing_key` the
/// content of the signing key file if there is one. An invalid request
/// fails with `Validation`, and a missing configuration with
/// `NotAuthenticated`, before anything else is looked at and with no action
/// asked for. Otherwise the pipeline asks for the build.
pub fn execute(request: ReleaseRequest, config: Option<Config>, signing_key: Option<String>) -> (begun:
    Result<(ReleasePipeline, Action), Failure>)
    ensures
        start_view(begun) == started(
            request@,
            match config {
                Some(c) => Some(c@),
                None => None,
            },
            text_view(signing_key),
        ),
{
    if let Some(failure) = validate(&request) {
        return Err(failure);
    }
    match Config::load_or_exit(config) {
        Err(kind) => Err(Failure::new(Step::LoadConfig, kind)),
        Ok(config) => {
            let action = Action::Build {
                platform: request.platform.clone(),
                entry_file: request.entry_file.clone(),
                build_dir: request.build_dir.clone(),
            };
            Ok((ReleasePipeline { request, config, signing_key, state: ReleaseState::Building }, action))
        },
    }
}

/// The view of an upload or a failure.
pub open spec fn release_upload_view(r: Result<(ReleaseMetadata, Vec<u8>), Failure>) -> Result<
    (MetadataView, Seq<u8>),
    FailureView,
> {
    match r {
        Ok((metadata, bundle)) => Ok((metadata@, bundle@)),
        Err(failure) => Err(failure@),
    }
}

impl ReleasePipeline {
    /// Where the pipeline stands.
    pub fn state(&self) -> (state: &ReleaseState)
        ensures
            state@ == self@.state,
    {
        &self.state
    }

    /// Whether the pipeline is over.
    pub fn is_finished(&self) -> (over: bool)
        ensures
            over == (self@.state is Finished),
    {
        match &self.state {
            ReleaseState::Finished => true,
            _ => false,
        }
    }

    /// Prepares the upload of a compressed bundle under a given nonce.
    pub fn prepare_upload(&self, plaintext: &Vec<u8>, nonce: &[u8; 12]) -> (upload: Result<
        (ReleaseMetadata, Vec<u8>),
        Failure,
    >)
        ensures
            release_upload_view(upload) == release_upload(self@, plaintext@, nonce@),
            self@.request.encrypt ==> (upload matches Ok((_, bundle)) ==> {
                &&& self@.config.release_key(true) matches Ok(Some(chosen))
                &&& key_bytes(chosen.1) matches Ok(key)
                &&& decrypted(bundle@, key) == Ok::<Seq<u8>, ErrorKind>(plaintext@)
            }),
    {
        let chosen = match self.config.release_key(self.request.encrypt) {
            Err(kind) => {
                return Err(Failure::new(Step::ResolveEncryption, kind));
            },
            Ok(chosen) => chosen,
        };
        let bundle = match seal_bundle(plaintext, &chosen, nonce) {
            Err(kind) => {
                return Err(Failure::new(Step::Encrypt, kind));
            },
            Ok(bundle) => bundle,
        };
        let hash = sha256_file(bundle.as_slice());
        let signature = match sign_file(bundle.as_slice(), &self.signing_key) {
            Err(kind) => {
                return Err(Failure::new(Step::Sign, kind));
            },
            Ok(signature) => signature,
        };
        let key_id = match chosen {
            Some(key) => key.key_id,
            None => None,
        };
        let metadata = ReleaseMetadata {
            version: self.request.version.clone(),
            channel: self.request.channel.clone(),
            platform: self.request.platform.clone(),
            mandatory: self.request.mandatory,
            rollout_percentage: self.request.rollout,
            hash,
            signature,
            is_encrypted: self.request.encrypt,
            is_patch: false,
            base_version: None,
            key_id,
            size: bundle.len() as u64,
        };
        Ok((metadata, bundle))
    }

    /// Takes the step that an event calls for, encrypting under the given
    /// nonce if the step encrypts.
    ///
    /// The result is [`release_step`] of the pipeline, the event and the
    /// nonce. Beyond that: a bundle that goes up encrypted decrypts to the
    /// compressed bundle under the key that the configuration resolves to,
    /// and a patch that goes up, applied to the sibling's plaintext, gives
    /// the new release's plaintext byte for byte.
    pub fn advance_with(self, event: Event, nonce: &[u8; 12]) -> (next: (ReleasePipeline, Action))
        ensures
            next.0@ == self@.at(release_step(self@, event@, nonce@).0),
            next.1@ == release_step(self@, event@, nonce@).1,
            uploads_what_decrypts(self@, event@, next.1@),
            uploads_what_applies(self@, event@, next.1@),
    {
        let ReleasePipeline { request, config, signing_key, state } = self;
        let base = ReleasePipeline { request, config, signing_key, state: ReleaseState::Finished };
        match state {
            ReleaseState::Building => match event {
                Event::Built => {
                    let action = Action::Compress { build_dir: base.request.build_dir.clone() };
                    (base.moved_to(ReleaseState::Compressing), action)
                },
                other => (base, Action::Abort(unexpected(Step::Build, other))),
            },
            ReleaseState::Compressing => match event {
                Event::Compressed(plaintext) => {
                    proof {
                        assert(release_upload(base@, plaintext@, nonce@) == release_upload(
                            self@,
                            plaintext@,
                            nonce@,
                        ));
                    }
                    match base.prepare_upload(&plaintext, nonce) {
                        Err(failure) => (base, Action::Abort(failure)),
                        Ok((metadata, bundle)) => (
                            base.moved_to(ReleaseState::Publishing { plaintext }),
                            Action::UploadRelease { metadata, bundle },
                        ),
                    }
                },
                other => (base, Action::Abort(unexpected(Step::Compress, other))),
            },
            ReleaseState::Publishing { plaintext } => match event {
                Event::ReleasePublished(release) => {
                    let action = Action::ListReleases { channel: base.request.channel.clone() };
                    (base.moved_to(ReleaseState::FetchingSiblings { plaintext, release }), action)
                },
                other => (base, Action::Abort(unexpected(Step::PublishRelease, other))),
            },
            ReleaseState::FetchingSiblings { plaintext, release } => match event {
                Event::ReleasesListed(releases) => match select_sibling(&releases, &release.id) {
                    None => (
                        base,
                        Action::ReleaseDone(ReleaseOutcome { release, patch: PatchStage::Skipped }),
                    ),
                    Some(i) => {
                        let sibling = releases[i].clone();
                        let action = Action::Download { url: sibling.bundle_url.clone() };
                        (
                            base.moved_to(
                                ReleaseState::DownloadingSibling { plaintext, release, sibling },
                            ),
                            action,
                        )
                    },
                },
                other => {
                    let failure = unexpected(Step::FetchReleases, other);
                    (
                        base,
                        Action::ReleaseDone(
                            ReleaseOutcome { release, patch: PatchStage::Failed(failure) },
                        ),
                    )
                },
            },
            ReleaseState::DownloadingSibling { plaintext, release, sibling } => match event {
                Event::Downloaded(artifact) => {
                    match resolve_plaintext(&base.config, &sibling, artifact) {
                        Err(kind) => {
                            let failure = Failure::new(Step::ResolvePlaintext, kind);
                            (
                                base,
                                Action::ReleaseDone(
                                    ReleaseOutcome { release, patch: PatchStage::Failed(failure) },
                                ),
                            )
                        },
                        Ok(old_plaintext) => match prepare_patch(
                            &old_plaintext,
                            &plaintext,
                            &base.signing_key,
                            &release.id,
                            &sibling.version,
                        ) {
                            Err(failure) => (
                                base,
                                Action::ReleaseDone(
                                    ReleaseOutcome { release, patch: PatchStage::Failed(failure) },
                                ),
                            ),
                            Ok((patch, delta)) => {
                                let recorded = patch.clone();
                                (
                                    base.moved_to(
                                        ReleaseState::PublishingPatch { release, patch: recorded },
                                    ),
                                    Action::UploadPatch { patch, delta },
                                )
                            },
                        },
                    }
                },
                other => {
                    let failure = unexpected(Step::Download, other);
                    (
                        base,
                        Action::ReleaseDone(
                            ReleaseOutcome { release, patch: PatchStage::Failed(failure) },
                        ),
                    )
                },
            },
            ReleaseState::PublishingPatch { release, patch } => match event {
                Event::PatchPublished => (
                    base,
                    Action::ReleaseDone(
                        ReleaseOutcome { release, patch: PatchStage::Published(patch) },
                    ),
                ),
                other => {
                    let failure = unexpected(Step::PublishPatch, other);
                    (
                        base,
                        Action::ReleaseDone(
                            ReleaseOutcome { release, patch: PatchStage::Failed(failure) },
                        ),
                    )
                },
            },
            ReleaseState::Finished => (
                base,
                Action::Abort(Failure::new(Step::Finished, ErrorKind::OutOfOrder)),
            ),
        }
    }

    /// The same pipeline in another state.
    fn moved_to(self, state: ReleaseState) -> (moved: ReleasePipeline)
        ensures
            moved@ == self@.at(state@),
    {
        ReleasePipeline {
            request: self.request,
            config: self.config,
            signing_key: self.signing_key,
            state,
        }
    }

    /// Takes the step that an event calls for, drawing a fresh nonce for
    /// it if it encrypts.
    ///
    /// Whatever nonce is drawn, the result is [`release_step`] of the
    /// pipeline, the event and that nonce, with the same two guarantees as
    /// [`ReleasePipeline::advance_with`] gives.
    pub fn advance(self, event: Event) -> (next: (ReleasePipeline, Action))
        ensures
            exists|nonce: Seq<u8>|
                {
                    let step = #[trigger] release_step(self@, event@, nonce);
                    &&& nonce.len() == NONCE_LEN
                    &&& next.0@ == self@.at(step.0)
                    &&& next.1@ == step.1
                },
            uploads_what_decrypts(self@, event@, next.1@),
            uploads_what_applies(self@, event@, next.1@),
    {
        let nonce: [u8; 12] = if self.will_encrypt(&event) {
            random_bytes::<12>()
        } else {
            [0u8; 12]
        };
        let ghost before = self@;
        let ghost seen = event@;
        let next = self.advance_with(event, &nonce);
        proof {
            let step = release_step(before, seen, nonce@);
            assert(nonce@.len() == NONCE_LEN && next.0@ == before.at(step.0) && next.1@ == step.1);
        }
        next
    }

    /// Whether the step that an event calls for encrypts.
    pub fn will_encrypt(&self, event: &Event) -> (encrypts: bool)
        ensures
            encrypts == encrypts_on(self@, event@),
    {
        let awaited = match (&self.state, event) {
            (ReleaseState::Compressing, Event::Compressed(_)) => true,
            _ => false,
        };
        awaited && self.request.encrypt
    }
}

/// A request that is out of range, in its rollout or in its platform,
/// starts nothing: it fails with `Validation` at the first step, whatever
/// configuration and signing key are at hand, and no action is asked for.
pub proof fn lemma_invalid_request_starts_nothing(
    request: RequestView,
    config: Option<ConfigView>,
    signing_key: Option<Seq<char>>,
)
    requires
        !valid_rollout(request.rollout) || !supported_platform(request.platform),
    ensures
        started(request, config, signing_key) is Err,
        started(request, config, signing_key)->Err_0.kind == ErrorKind::Validation,
        started(request, config, signing_key)->Err_0.step == Step::Validate,
{
}

/// A pipeline that does start, starts with the build: nothing reaches the
/// registry before the request has been validated and built.
pub proof fn lemma_start_asks_for_build(
    request: RequestView,
    config: Option<ConfigView>,
    signing_key: Option<Seq<char>>,
)
    requires
        started(request, config, signing_key) is Ok,
    ensures
        valid_rollout(request.rollout),
        supported_platform(request.platform),
        config is Some,
        started(request, config, signing_key)->Ok_0.0.state is Building,
        started(request, config, signing_key)->Ok_0.1 is Build,
        !started(request, config, signing_key)->Ok_0.1.calls_registry(),
{
}

/// Whenever a release is uploaded, its metadata describes exactly the bytes
/// that go up: the hash is theirs, the signature is over them, the size is
/// their length, and the encryption flag is the request's.
pub proof fn lemma_upload_describes_its_bytes(p: PipelineView, event: EventView, nonce: Seq<u8>)
    requires
        release_step(p, event, nonce).1 is UploadRelease,
    ensures
        ({
            let metadata = release_step(p, event, nonce).1->UploadRelease_metadata;
            let bundle = release_step(p, event, nonce).1->UploadRelease_bundle;
            &&& p.state is Compressing
            &&& event is Compressed
            &&& release_step(p, event, nonce).0 == (StateView::Publishing {
                plaintext: event->Compressed_0,
            })
            &&& metadata.hash == content_hash(bundle)
            &&& signature_of(bundle, p.signing_key) == Ok::<Seq<char>, ErrorKind>(
                metadata.signature,
            )
            &&& metadata.size == bundle.len() as u64
            &&& metadata.is_encrypted == p.request.encrypt
            &&& !metadata.is_patch
            &&& metadata.version == p.request.version
            &&& metadata.channel == p.request.channel
        }),
{
}

/// Encryption fails closed: when the request asks for it, whatever is
/// uploaded is the ciphertext blob of the bundle under the key that the
/// configuration resolves to, never the bundle itself; and where no key
/// resolves, nothing is uploaded.
pub proof fn lemma_encryption_fails_closed(p: PipelineView, plaintext: Seq<u8>, nonce: Seq<u8>)
    requires
        p.state is Compressing,
        p.request.encrypt,
    ensures
        ({
            let step = release_step(p, EventView::Compressed(plaintext), nonce);
            match p.config.keyring.release_key(p.config.encryption_key) {
                Err(kind) => step == aborted(plain_failure(Step::ResolveEncryption, kind)),
                Ok(chosen) => step.1 is UploadRelease ==> {
                    &&& key_bytes(chosen.1) is Ok
                    &&& step.1->UploadRelease_bundle == encrypted_blob(
                        plaintext,
                        key_bytes(chosen.1)->Ok_0,
                        nonce,
                    )
                    &&& step.1->UploadRelease_metadata.key_id == chosen.0
                    &&& step.1->UploadRelease_metadata.is_encrypted
                },
            }
        }),
{
}

/// Whenever a patch is uploaded, it is the differ's patch from the
/// sibling's plaintext to the new release's plaintext, whether or not
/// either was stored encrypted; it is hashed and signed over exactly its
/// own bytes, and tied to the new release's id and the sibling's version.
/// (That applying it gives the new plaintext back is promised by the step
/// itself, [`ReleasePipeline::advance`]: it is known of a patch only once
/// the differ has made it.)
pub proof fn lemma_patch_leads_between_plaintexts(p: PipelineView, event: EventView, nonce: Seq<u8>)
    requires
        release_step(p, event, nonce).1 is UploadPatch,
    ensures
        ({
            let patch = release_step(p, event, nonce).1->UploadPatch_patch;
            let delta = release_step(p, event, nonce).1->UploadPatch_delta;
            &&& p.state is DownloadingSibling
            &&& event is Downloaded
            &&& published_plaintext(
                p.config,
                p.state->DownloadingSibling_sibling,
                event->Downloaded_0,
            ) is Ok
            &&& delta == bsdiff_patch(
                published_plaintext(
                    p.config,
                    p.state->DownloadingSibling_sibling,
                    event->Downloaded_0,
                )->Ok_0,
                p.state->DownloadingSibling_plaintext,
            )
            &&& patch.release_id == p.state->DownloadingSibling_release.id
            &&& patch.base_version == p.state->DownloadingSibling_sibling.version
            &&& patch.hash == content_hash(delta)
            &&& signature_of(delta, p.signing_key) == Ok::<Seq<char>, ErrorKind>(patch.signature)
            &&& patch.size == delta.len() as u64
        }),
{
}

/// If the registry does not record the release, for a version conflict or
/// for any other reason, the pipeline is over: it aborts with what the
/// registry said, and the patch stage never runs.
pub proof fn lemma_rejected_release_ends_pipeline(p: PipelineView, event: EventView, nonce: Seq<u8>)
    requires
        p.state is Publishing,
        !(event is ReleasePublished),
    ensures
        release_step(p, event, nonce) == aborted(failure_from(Step::PublishRelease, event)),
        event matches EventView::Failed { kind, detail } ==> release_step(
            p,
            event,
            nonce,
        ).1->Abort_0.kind == kind,
{
}

/// Once the registry has recorded the release, the pipeline never aborts:
/// every end reports the release, and a failure on the way to the patch is
/// reported beside it.
pub proof fn lemma_standing_release_is_reported(p: PipelineView, event: EventView, nonce: Seq<u8>)
    requires
        p.state.release_stands(),
    ensures
        !(release_step(p, event, nonce).1 is Abort),
        release_step(p, event, nonce).1.is_final() ==> {
            &&& release_step(p, event, nonce).1 is ReleaseDone
            &&& release_step(p, event, nonce).1->ReleaseDone_0.release == match p.state {
                StateView::FetchingSiblings { release, .. } => release,
                StateView::DownloadingSibling { release, .. } => release,
                StateView::PublishingPatch { release, .. } => release,
                _ => arbitrary(),
            }
        },
        event is Failed ==> {
            &&& release_step(p, event, nonce).1 is ReleaseDone
            &&& release_step(p, event, nonce).1->ReleaseDone_0.patch is Failed
            &&& release_step(p, event, nonce).1->ReleaseDone_0.patch->Failed_0.kind
                == event->Failed_kind
        },
{
}

/// With no other release on the channel the patch stage is skipped, which
/// is no failure; with one, the most recent other release is fetched: no
/// other release on the list was created after it, whatever order the
/// list is in.
pub proof fn lemma_sibling_selection(
    p: PipelineView,
    releases: Seq<ReleaseView>,
    nonce: Seq<u8>,
)
    requires
        p.state is FetchingSiblings,
    ensures
        ({
            let release = p.state->FetchingSiblings_release;
            let step = release_step(p, EventView::ReleasesListed(releases), nonce);
            if forall|j: int| 0 <= j < releases.len() ==> (#[trigger] releases[j]).id == release.id {
                step == concluded(release, PatchStageView::Skipped)
            } else {
                &&& step.1 is Download
                &&& step.0 is DownloadingSibling
                &&& step.0->DownloadingSibling_sibling.id != release.id
                &&& step.0->DownloadingSibling_release == release
                &&& step.1->Download_url == step.0->DownloadingSibling_sibling.bundle_url
                &&& exists|i: int|
                    0 <= i < releases.len() && #[trigger] releases[i]
                        == step.0->DownloadingSibling_sibling
                &&& forall|j: int|
                    0 <= j < releases.len() && (#[trigger] releases[j]).id != release.id
                        ==> !text_before(
                        step.0->DownloadingSibling_sibling.created_at,
                        releases[j].created_at,
                    )
            }
        }),
{
    let release = p.state->FetchingSiblings_release;
    lemma_most_recent_other(releases, release.id);
    match most_recent_other(releases, release.id) {
        Some(i) => {
            assert(releases[i].id != release.id);
        },
        None => {},
    }
}

/// A nonce is used by no step but one that encrypts: every other step is
/// the same whatever nonce is at hand.
pub proof fn lemma_nonce_is_used_only_to_encrypt(
    p: PipelineView,
    event: EventView,
    one: Seq<u8>,
    other: Seq<u8>,
)
    requires
        !encrypts_on(p, event),
    ensures
        release_step(p, event, one) == release_step(p, event, other),
{
}

/// The pipeline is over exactly when it has asked for nothing more, and
/// once over it stays over.
pub proof fn lemma_final_action_ends_pipeline(p: PipelineView, event: EventView, nonce: Seq<u8>)
    ensures
        release_step(p, event, nonce).1.is_final() <==> release_step(p, event, nonce).0
            is Finished,
        p.state is Finished ==> release_step(p, event, nonce) == aborted(
            plain_failure(Step::Finished, ErrorKind::OutOfOrder),
        ),
{
}

/// How far a pipeline has come.
pub open spec fn progress(state: StateView) -> nat {
    match state {
        StateView::Building => 0,
        StateView::Compressing => 1,
        StateView::Publishing { .. } => 2,
        StateView::FetchingSiblings { .. } => 3,
        StateView::DownloadingSibling { .. } => 4,
        StateView::PublishingPatch { .. } => 5,
        StateView::Finished => 6,
    }
}

/// No step goes back or stays: each one takes the pipeline further, until
/// it is over. A release is uploaded only by the step that leaves the
/// compressing state, and a patch only by the step that leaves the
/// downloading state.
pub proof fn lemma_every_step_advances(p: PipelineView, event: EventView, nonce: Seq<u8>)
    ensures
        p.state is Finished || progress(release_step(p, event, nonce).0) > progress(p.state),
        release_step(p, event, nonce).1 is UploadRelease ==> p.state is Compressing,
        release_step(p, event, nonce).1 is UploadPatch ==> p.state is DownloadingSibling,
        release_step(p, event, nonce).1.calls_registry() ==> progress(p.state) >= 1,
{
}

/// The actions that a pipeline asks for, one after the other, as it is fed
/// a run of events.
pub open spec fn run_actions(
    p: PipelineView,
    events: Seq<EventView>,
    nonces: Seq<Seq<u8>>,
) -> Seq<ActionView>
    decreases events.len(),
{
    if events.len() == 0 || nonces.len() != events.len() {
        Seq::empty()
    } else {
        let step = release_step(p, events.first(), nonces.first());
        seq![step.1] + run_actions(p.at(step.0), events.drop_first(), nonces.drop_first())
    }
}

/// How many of the actions upload a release.
pub open spec fn release_uploads(actions: Seq<ActionView>) -> nat
    decreases actions.len(),
{
    if actions.len() == 0 {
        0
    } else {
        release_uploads(actions.drop_first()) + if actions.first() is UploadRelease {
            1nat
        } else {
            0nat
        }
    }
}

/// How many of the actions upload a patch.
pub open spec fn patch_uploads(actions: Seq<ActionView>) -> nat
    decreases actions.len(),
{
    if actions.len() == 0 {
        0
    } else {
        patch_uploads(actions.drop_first()) + if actions.first() is UploadPatch {
            1nat
        } else {
            0nat
        }
    }
}

/// Whatever events a pipeline is fed and whatever nonces are at hand, it
/// uploads at most one release and at most one patch; once the release is
/// up it uploads no other, and once the patch is up no other either.
pub proof fn lemma_one_release_and_one_patch_at_most(
    p: PipelineView,
    events: Seq<EventView>,
    nonces: Seq<Seq<u8>>,
)
    ensures
        release_uploads(run_actions(p, events, nonces)) <= 1,
        patch_uploads(run_actions(p, events, nonces)) <= 1,
        progress(p.state) >= 2 ==> release_uploads(run_actions(p, events, nonces)) == 0,
        progress(p.state) >= 5 ==> patch_uploads(run_actions(p, events, nonces)) == 0,
    decreases events.len(),
{
    if events.len() > 0 && nonces.len() == events.len() {
        let step = release_step(p, events.first(), nonces.first());
        let rest = run_actions(p.at(step.0), events.drop_first(), nonces.drop_first());
        let all = run_actions(p, events, nonces);
        lemma_every_step_advances(p, events.first(), nonces.first());
        lemma_one_release_and_one_patch_at_most(
            p.at(step.0),
            events.drop_first(),
            nonces.drop_first(),
        );
        assert(all == seq![step.1] + rest);
        assert(all.first() == step.1);
        assert(all.drop_first() =~= rest);
    }
}

} // verus!
