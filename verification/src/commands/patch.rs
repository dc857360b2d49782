//! Generating a patch between two published versions of a channel, on
//! demand: both are fetched, each is brought to plaintext with its own
//! key, and the patch between the plaintexts is signed and uploaded for the
//! newer one.

use vstd::prelude::*;
use vstd::string::StringExecFns;
use crate::api::{release_views, ReleaseResponse, ReleaseView};
use crate::config::{Config, ConfigView};
use crate::encoding::text_view;
use crate::error::ErrorKind;
use crate::pipeline::{
    failure_from, find_version, first_with_version, lemma_first_with_version, patch_between,
    plain_failure, prepare_patch, published_plaintext, resolve_plaintext, unexpected, Action,
    ActionView, Event, EventView, Failure, FailureView, PatchSummary, PatchView, Step,
};
use crate::signing::signature_of;
use crate::utils::content_hash;
use crate::utils::diff::{bsdiff_patch, patched};

verus! {

/// What the operator asks for: a patch from one version of a channel to
/// another.
#[derive(Clone, Debug, PartialEq, Eq)]
pub struct PatchRequest {
    pub old_version: String,
    pub new_version: String,
    pub channel: String,
}

/// The mathematical content of a [`PatchRequest`].
pub struct PatchRequestView {
    pub old_version: Seq<char>,
    pub new_version: Seq<char>,
    pub channel: Seq<char>,
}

impl View for PatchRequest {
    type V = PatchRequestView;

    open spec fn view(&self) -> PatchRequestView {
        PatchRequestView {
            old_version: self.old_version@,
            new_version: self.new_version@,
            channel: self.channel@,
        }
    }
}

/// Where a patch pipeline stands, with what it carries along.
#[derive(Debug, PartialEq, Eq)]
pub enum PatchState {
    /// Waiting for the channel's releases.
    FetchingReleases,
    /// Waiting for the stored bytes of the version the patch starts from.
    DownloadingBase { base: ReleaseResponse, target: ReleaseResponse },
    /// Waiting for the stored bytes of the version the patch leads to.
    DownloadingTarget { base: ReleaseResponse, target: ReleaseResponse, base_plaintext: Vec<u8> },
    /// Waiting for the registry to record the patch.
    PublishingPatch { patch: PatchSummary },
    /// Over.
    Finished,
}

/// The mathematical content of a [`PatchState`].
pub enum PatchStateView {
    FetchingReleases,
    DownloadingBase { base: ReleaseView, target: ReleaseView },
    DownloadingTarget { base: ReleaseView, target: ReleaseView, base_plaintext: Seq<u8> },
    PublishingPatch { patch: PatchView },
    Finished,
}

impl View for PatchState {
    type V = PatchStateView;

    open spec fn view(&self) -> PatchStateView {
        match self {
            PatchState::FetchingReleases => PatchStateView::FetchingReleases,
            PatchState::DownloadingBase { base, target } => PatchStateView::DownloadingBase {
                base: base@,
                target: target@,
            },
            PatchState::DownloadingTarget {
                base,
                target,
                base_plaintext,
            } => PatchStateView::DownloadingTarget {
                base: base@,
                target: target@,
                base_plaintext: base_plaintext@,
            },
            PatchState::PublishingPatch { patch } => PatchStateView::PublishingPatch {
                patch: patch@,
            },
            PatchState::Finished => PatchStateView::Finished,
        }
    }
}

/// A patch pipeline: the request, the configuration and signing key that
/// were loaded for it once, and where it stands.
#[derive(Debug, PartialEq, Eq)]
pub struct PatchPipeline {
    request: PatchRequest,
    config: Config,
    signing_key: Option<String>,
    state: PatchState,
}

/// The mathematical content of a [`PatchPipeline`].
pub struct PatchPipelineView {
    pub request: PatchRequestView,
    pub config: ConfigView,
    pub signing_key: Option<Seq<char>>,
    pub state: PatchStateView,
}

impl View for PatchPipeline {
    type V = PatchPipelineView;

    closed spec fn view(&self) -> PatchPipelineView {
        PatchPipelineView {
            request: self.request@,
            config: self.config@,
            signing_key: text_view(self.signing_key),
            state: self.state@,
        }
    }
}

impl PatchPipelineView {
    /// The same pipeline in another state.
    pub open spec fn at(self, state: PatchStateView) -> PatchPipelineView {
        PatchPipelineView {
            request: self.request,
            config: self.config,
            signing_key: self.signing_key,
            state,
        }
    }
}

/// The name under which a patch is kept when the operator names no file.
pub open spec fn patch_file_name(old_version: Seq<char>, new_version: Seq<char>) -> Seq<char> {
    old_version + "_to_"@ + new_version + ".patch"@
}

/// How a pipeline starts: with a failure for a missing configuration, else
/// with the order to list the channel's releases.
pub open spec fn started(
    request: PatchRequestView,
    config: Option<ConfigView>,
    signing_key: Option<Seq<char>>,
) -> Result<(PatchPipelineView, ActionView), FailureView> {
    match config {
        None => Err(plain_failure(Step::LoadConfig, ErrorKind::NotAuthenticated)),
        Some(c) => Ok(
            (
                PatchPipelineView {
                    request,
                    config: c,
                    signing_key,
                    state: PatchStateView::FetchingReleases,
                },
                ActionView::ListReleases { channel: request.channel },
            ),
        ),
    }
}

/// The end of a pipeline that failed.
pub open spec fn aborted(failure: FailureView) -> (PatchStateView, ActionView) {
    (PatchStateView::Finished, ActionView::Abort(failure))
}

/// A version that the channel does not hold.
pub open spec fn missing_version(version: Seq<char>) -> FailureView {
    FailureView { step: Step::SelectVersions, kind: ErrorKind::NotFound, detail: version }
}

/// The step taken on the channel's releases: both versions are looked up,
/// the old one first, and the old one's stored bytes are fetched.
pub open spec fn after_listing(request: PatchRequestView, releases: Seq<ReleaseView>) -> (
    PatchStateView,
    ActionView,
) {
    match first_with_version(releases, request.old_version) {
        None => aborted(missing_version(request.old_version)),
        Some(i) => match first_with_version(releases, request.new_version) {
            None => aborted(missing_version(request.new_version)),
            Some(j) => (
                PatchStateView::DownloadingBase { base: releases[i], target: releases[j] },
                ActionView::Download { url: releases[i].bundle_url },
            ),
        },
    }
}

/// The step taken on the old version's stored bytes: they are brought to
/// plaintext with that version's own key, and the new version's are
/// fetched.
pub open spec fn after_base(
    config: ConfigView,
    base: ReleaseView,
    target: ReleaseView,
    artifact: Seq<u8>,
) -> (PatchStateView, ActionView) {
    match published_plaintext(config, base, artifact) {
        Err(kind) => aborted(plain_failure(Step::ResolvePlaintext, kind)),
        Ok(base_plaintext) => (
            PatchStateView::DownloadingTarget { base, target, base_plaintext },
            ActionView::Download { url: target.bundle_url },
        ),
    }
}

/// The step taken on the new version's stored bytes: they are brought to
/// plaintext with that version's own key, and the patch between the two
/// plaintexts is uploaded for the new version.
pub open spec fn after_target(
    p: PatchPipelineView,
    base: ReleaseView,
    target: ReleaseView,
    base_plaintext: Seq<u8>,
    artifact: Seq<u8>,
) -> (PatchStateView, ActionView) {
    match published_plaintext(p.config, target, artifact) {
        Err(kind) => aborted(plain_failure(Step::ResolvePlaintext, kind)),
        Ok(target_plaintext) => match patch_between(
            base_plaintext,
            target_plaintext,
            p.signing_key,
            target.id,
            base.version,
        ) {
            Err(failure) => aborted(failure),
            Ok(upload) => (
                PatchStateView::PublishingPatch { patch: upload.patch },
                ActionView::UploadPatch { patch: upload.patch, delta: upload.delta },
            ),
        },
    }
}

/// The step a pipeline takes on an event: its next state and the action it
/// asks for.
pub open spec fn patch_step(p: PatchPipelineView, event: EventView) -> (
    PatchStateView,
    ActionView,
) {
    match p.state {
        PatchStateView::FetchingReleases => match event {
            EventView::ReleasesListed(releases) => after_listing(p.request, releases),
            _ => aborted(failure_from(Step::FetchReleases, event)),
        },
        PatchStateView::DownloadingBase { base, target } => match event {
            EventView::Downloaded(artifact) => after_base(p.config, base, target, artifact),
            _ => aborted(failure_from(Step::Download, event)),
        },
        PatchStateView::DownloadingTarget { base, target, base_plaintext } => match event {
            EventView::Downloaded(artifact) => after_target(
                p,
                base,
                target,
                base_plaintext,
                artifact,
            ),
            _ => aborted(failure_from(Step::Download, event)),
        },
        PatchStateView::PublishingPatch { patch } => match event {
            EventView::PatchPublished => (PatchStateView::Finished, ActionView::PatchDone(patch)),
            _ => aborted(failure_from(Step::PublishPatch, event)),
        },
        PatchStateView::Finished => aborted(plain_failure(Step::Finished, ErrorKind::OutOfOrder)),
    }
}

/// The view of a started pipeline or a failure.
pub open spec fn start_view(r: Result<(PatchPipeline, Action), Failure>) -> Result<
    (PatchPipelineView, ActionView),
    FailureView,
> {
    match r {
        Ok((pipeline, action)) => Ok((pipeline@, action@)),
        Err(failure) => Err(failure@),
    }
}

/// Names the file a patch is kept in when the operator names none.
pub fn default_patch_name(old_version: &str, new_version: &str) -> (name: String)
    ensures
        name@ == patch_file_name(old_version@, new_version@),
{
    String::from_str(old_version).concat("_to_").concat(new_version).concat(".patch")
}

/// Starts the generation of a patch.
///
/// `config` is the stored configuration if there is one, `signing_key` the
/// content of the signing key file if there is one. A missing
/// configuration fails with `NotAuthenticated` and no action asked for.
/// Otherwise the pipeline asks for the channel's releases.
pub fn execute(request: PatchRequest, config: Option<Config>, signing_key: Option<String>) -> (begun:
    Result<(PatchPipeline, Action), Failure>)
    ensures
        start_view(begun) == started(
            request@,
            match config {
                Some(c) => Some(c@),
                None => None,
            },
            text_view(signing_key),
        ),
{
    match Config::load_or_exit(config) {
        Err(kind) => Err(Failure::new(Step::LoadConfig, kind)),
        Ok(config) => {
            let action = Action::ListReleases { channel: request.channel.clone() };
            Ok(
                (
                    PatchPipeline { request, config, signing_key, state: PatchState::FetchingReleases },
                    action,
                ),
            )
        },
    }
}

impl PatchPipeline {
    /// Where the pipeline stands.
    pub fn state(&self) -> (state: &PatchState)
        ensures
            state@ == self@.state,
    {
        &self.state
    }

    /// Whether the pipeline is over.
    pub fn is_finished(&self) -> (over: bool)
        ensures
            over == (self@.state is Finished),
    {
        match &self.state {
            PatchState::Finished => true,
            _ => false,
        }
    }

    /// The same pipeline in another state.
    fn moved_to(self, state: PatchState) -> (moved: PatchPipeline)
        ensures
            moved@ == self@.at(state@),
    {
        PatchPipeline {
            request: self.request,
            config: self.config,
            signing_key: self.signing_key,
            state,
        }
    }

    /// Looks both versions up in the channel's releases.
    fn select_versions(self, releases: Vec<ReleaseResponse>) -> (next: (PatchPipeline, Action))
        requires
            self@.state is Finished,
        ensures
            next.0@ == self@.at(after_listing(self@.request, release_views(releases@)).0),
            next.1@ == after_listing(self@.request, release_views(releases@)).1,
    {
        let base_at = match find_version(&releases, &self.request.old_version) {
            None => {
                let failure = Failure {
                    step: Step::SelectVersions,
                    kind: ErrorKind::NotFound,
                    detail: self.request.old_version.clone(),
                };
                return (self, Action::Abort(failure));
            },
            Some(i) => i,
        };
        let target_at = match find_version(&releases, &self.request.new_version) {
            None => {
                let failure = Failure {
                    step: Step::SelectVersions,
                    kind: ErrorKind::NotFound,
                    detail: self.request.new_version.clone(),
                };
                return (self, Action::Abort(failure));
            },
            Some(j) => j,
        };
        let base = releases[base_at].clone();
        let target = releases[target_at].clone();
        let action = Action::Download { url: base.bundle_url.clone() };
        (self.moved_to(PatchState::DownloadingBase { base, target }), action)
    }

    /// Takes the step that an event calls for.
    ///
    /// The result is [`patch_step`] of the pipeline and the event. Beyond
    /// that: a patch that goes up, applied to the old version's plaintext,
    /// gives the new version's plaintext byte for byte.
    pub fn advance(self, event: Event) -> (next: (PatchPipeline, Action))
        ensures
            next.0@ == self@.at(patch_step(self@, event@).0),
            next.1@ == patch_step(self@, event@).1,
            uploads_what_applies(self@, event@, next.1@),
    {
        let PatchPipeline { request, config, signing_key, state } = self;
        let base_pipeline = PatchPipeline {
            request,
            config,
            signing_key,
            state: PatchState::Finished,
        };
        match state {
            PatchState::FetchingReleases => match event {
                Event::ReleasesListed(releases) => base_pipeline.select_versions(releases),
                other => (base_pipeline, Action::Abort(unexpected(Step::FetchReleases, other))),
            },
            PatchState::DownloadingBase { base, target } => match event {
                Event::Downloaded(artifact) => {
                    match resolve_plaintext(&base_pipeline.config, &base, artifact) {
                        Err(kind) => (
                            base_pipeline,
                            Action::Abort(Failure::new(Step::ResolvePlaintext, kind)),
                        ),
                        Ok(base_plaintext) => {
                            let action = Action::Download { url: target.bundle_url.clone() };
                            (
                                base_pipeline.moved_to(
                                    PatchState::DownloadingTarget { base, target, base_plaintext },
                                ),
                                action,
                            )
                        },
                    }
                },
                other => (base_pipeline, Action::Abort(unexpected(Step::Download, other))),
            },
            PatchState::DownloadingTarget { base, target, base_plaintext } => match event {
                Event::Downloaded(artifact) => {
                    match resolve_plaintext(&base_pipeline.config, &target, artifact) {
                        Err(kind) => (
                            base_pipeline,
                            Action::Abort(Failure::new(Step::ResolvePlaintext, kind)),
                        ),
                        Ok(target_plaintext) => match prepare_patch(
                            &base_plaintext,
                            &target_plaintext,
                            &base_pipeline.signing_key,
                            &target.id,
                            &base.version,
                        ) {
                            Err(failure) => (base_pipeline, Action::Abort(failure)),
                            Ok((patch, delta)) => {
                                let recorded = patch.clone();
                                (
                                    base_pipeline.moved_to(
                                        PatchState::PublishingPatch { patch: recorded },
                                    ),
                                    Action::UploadPatch { patch, delta },
                                )
                            },
                        },
                    }
                },
                other => (base_pipeline, Action::Abort(unexpected(Step::Download, other))),
            },
            PatchState::PublishingPatch { patch } => match event {
                Event::PatchPublished => (base_pipeline, Action::PatchDone(patch)),
                other => (base_pipeline, Action::Abort(unexpected(Step::PublishPatch, other))),
            },
            PatchState::Finished => (
                base_pipeline,
                Action::Abort(Failure::new(Step::Finished, ErrorKind::OutOfOrder)),
            ),
        }
    }
}

/// Whether an action, if it uploads a patch, uploads one that, applied to
/// the old version's plaintext, yields the new version's plaintext.
pub open spec fn uploads_what_applies(
    p: PatchPipelineView,
    event: EventView,
    action: ActionView,
) -> bool {
    action matches ActionView::UploadPatch { delta, .. } ==> {
        &&& p.state matches PatchStateView::DownloadingTarget { target, base_plaintext, .. }
        &&& event matches EventView::Downloaded(artifact)
        &&& published_plaintext(p.config, target, artifact) matches Ok(target_plaintext)
        &&& patched(base_plaintext, delta) == Ok::<Seq<u8>, ErrorKind>(target_plaintext)
    }
}

/// If either version is not on the channel, the pipeline fails with
/// `NotFound`, naming the version, the old one first; nothing is
/// downloaded.
pub proof fn lemma_missing_version_is_not_found(
    p: PatchPipelineView,
    releases: Seq<ReleaseView>,
)
    requires
        p.state is FetchingReleases,
    ensures
        ({
            let step = patch_step(p, EventView::ReleasesListed(releases));
            let has_old = exists|i: int|
                0 <= i < releases.len() && (#[trigger] releases[i]).version
                    == p.request.old_version;
            let has_new = exists|i: int|
                0 <= i < releases.len() && (#[trigger] releases[i]).version
                    == p.request.new_version;
            &&& !has_old ==> step == aborted(missing_version(p.request.old_version))
            &&& has_old && !has_new ==> step == aborted(missing_version(p.request.new_version))
            &&& has_old && has_new ==> {
                &&& step.0 is DownloadingBase
                &&& step.0->DownloadingBase_base.version == p.request.old_version
                &&& step.0->DownloadingBase_target.version == p.request.new_version
                &&& step.1 == (ActionView::Download {
                    url: step.0->DownloadingBase_base.bundle_url,
                })
            }
        }),
{
    lemma_first_with_version(releases, p.request.old_version);
    lemma_first_with_version(releases, p.request.new_version);
}

/// Whenever a patch is uploaded, it is the differ's patch from the
/// plaintext of the old version to the plaintext of the new one, each
/// resolved with its own encryption flag and key; it is hashed and signed
/// over exactly its own bytes, and tied to the new version's release id and
/// the old version. (That applying it gives the new plaintext back is
/// promised by the step itself, [`PatchPipeline::advance`]: it is known of
/// a patch only once the differ has made it.)
pub proof fn lemma_patch_leads_between_plaintexts(
    p: PatchPipelineView,
    event: EventView,
)
    requires
        patch_step(p, event).1 is UploadPatch,
    ensures
        ({
            let patch = patch_step(p, event).1->UploadPatch_patch;
            let delta = patch_step(p, event).1->UploadPatch_delta;
            &&& p.state is DownloadingTarget
            &&& event is Downloaded
            &&& published_plaintext(
                p.config,
                p.state->DownloadingTarget_target,
                event->Downloaded_0,
            ) is Ok
            &&& delta == bsdiff_patch(
                p.state->DownloadingTarget_base_plaintext,
                published_plaintext(
                    p.config,
                    p.state->DownloadingTarget_target,
                    event->Downloaded_0,
                )->Ok_0,
            )
            &&& patch.release_id == p.state->DownloadingTarget_target.id
            &&& patch.base_version == p.state->DownloadingTarget_base.version
            &&& patch.hash == content_hash(delta)
            &&& signature_of(delta, p.signing_key) == Ok::<Seq<char>, ErrorKind>(patch.signature)
            &&& patch.size == delta.len() as u64
            &&& patch_step(p, event).0 == (PatchStateView::PublishingPatch { patch })
        }),
{
}

/// The base plaintext that the pipeline carries is the old version's
/// stored bytes resolved with the old version's own key.
pub proof fn lemma_base_is_resolved_with_its_own_key(
    p: PatchPipelineView,
    artifact: Seq<u8>,
)
    requires
        p.state is DownloadingBase,
    ensures
        ({
            let step = patch_step(p, EventView::Downloaded(artifact));
            let base = p.state->DownloadingBase_base;
            match published_plaintext(p.config, base, artifact) {
                Ok(plaintext) => {
                    &&& step.0 == (PatchStateView::DownloadingTarget {
                        base,
                        target: p.state->DownloadingBase_target,
                        base_plaintext: plaintext,
                    })
                    &&& step.1 == (ActionView::Download {
                        url: p.state->DownloadingBase_target.bundle_url,
                    })
                },
                Err(kind) => step == aborted(plain_failure(Step::ResolvePlaintext, kind)),
            }
        }),
{
}

/// The pipeline is over exactly when it has asked for nothing more; it
/// ends well only by reporting the patch that the registry recorded.
pub proof fn lemma_final_action_ends_pipeline(p: PatchPipelineView, event: EventView)
    ensures
        patch_step(p, event).1.is_final() <==> patch_step(p, event).0 is Finished,
        !(patch_step(p, event).1 is ReleaseDone),
        patch_step(p, event).1 is PatchDone ==> p.state is PublishingPatch && event
            is PatchPublished && patch_step(p, event).1->PatchDone_0
            == p.state->PublishingPatch_patch,
{
}

/// How far a pipeline has come.
pub open spec fn progress(state: PatchStateView) -> nat {
    match state {
        PatchStateView::FetchingReleases => 0,
        PatchStateView::DownloadingBase { .. } => 1,
        PatchStateView::DownloadingTarget { .. } => 2,
        PatchStateView::PublishingPatch { .. } => 3,
        PatchStateView::Finished => 4,
    }
}

/// No step goes back or stays: each one takes the pipeline further, until
/// it is over. A patch is uploaded only by the step that leaves the state
/// in which the new version's bytes are awaited.
pub proof fn lemma_every_step_advances(p: PatchPipelineView, event: EventView)
    ensures
        p.state is Finished || progress(patch_step(p, event).0) > progress(p.state),
        patch_step(p, event).1 is UploadPatch ==> p.state is DownloadingTarget,
        !(patch_step(p, event).1 is UploadRelease),
        !(patch_step(p, event).1 is Build),
        !(patch_step(p, event).1 is Compress),
{
}

/// The actions that a pipeline asks for, one after the other, as it is fed
/// a run of events.
pub open spec fn run_actions(
    p: PatchPipelineView,
    events: Seq<EventView>,
) -> Seq<ActionView>
    decreases events.len(),
{
    if events.len() == 0 {
        Seq::empty()
    } else {
        let step = patch_step(p, events.first());
        seq![step.1] + run_actions(p.at(step.0), events.drop_first())
    }
}

/// How many of the actions upload a patch.
pub open spec fn patch_uploads(actions: Seq<ActionView>) -> nat
    decreases actions.len(),
{
    if actions.len() == 0 {
        0
    } else {
        patch_uploads(actions.drop_first()) + if actions.first() is UploadPatch {
            1nat
        } else {
            0nat
        }
    }
}

/// Whatever events a pipeline is fed, it uploads at most one patch.
pub proof fn lemma_one_patch_at_most(
    p: PatchPipelineView,
    events: Seq<EventView>,
)
    ensures
        patch_uploads(run_actions(p, events)) <= 1,
        progress(p.state) >= 3 ==> patch_uploads(run_actions(p, events)) == 0,
    decreases events.len(),
{
    if events.len() > 0 {
        let step = patch_step(p, events.first());
        let rest = run_actions(p.at(step.0), events.drop_first());
        let all = run_actions(p, events);
        lemma_every_step_advances(p, events.first());
        lemma_one_patch_at_most(p.at(step.0), events.drop_first());
        assert(all == seq![step.1] + rest);
        assert(all.first() == step.1);
        assert(all.drop_first() =~= rest);
    }
}

} // verus!
