//! The registry's vocabulary: the records it sends and accepts, the
//! addresses of its endpoints, and how its status codes are read.

use vstd::prelude::*;
use vstd::string::StringExecFns;
use crate::encoding::text_view;
use crate::error::ErrorKind;

verus! {

/// The registry's answer to an API-key exchange.
#[derive(Clone, Debug, PartialEq, Eq)]
pub struct TokenResponse {
    pub access_token: String,
    pub token_type: String,
    pub expires_in: u64,
}

/// A release as the registry records it.
#[derive(Debug, PartialEq, Eq)]
pub struct ReleaseResponse {
    pub id: String,
    pub version: String,
    pub channel: String,
    pub bundle_url: String,
    pub rollout_percentage: u8,
    pub is_active: bool,
    pub is_encrypted: bool,
    pub key_id: Option<String>,
    pub created_at: String,
}

/// The mathematical content of a [`ReleaseResponse`].
pub struct ReleaseView {
    pub id: Seq<char>,
    pub version: Seq<char>,
    pub channel: Seq<char>,
    pub bundle_url: Seq<char>,
    pub rollout_percentage: u8,
    pub is_active: bool,
    pub is_encrypted: bool,
    pub key_id: Option<Seq<char>>,
    pub created_at: Seq<char>,
}

impl View for ReleaseResponse {
    type V = ReleaseView;

    open spec fn view(&self) -> ReleaseView {
        ReleaseView {
            id: self.id@,
            version: self.version@,
            channel: self.channel@,
            bundle_url: self.bundle_url@,
            rollout_percentage: self.rollout_percentage,
            is_active: self.is_active,
            is_encrypted: self.is_encrypted,
            key_id: text_view(self.key_id),
            created_at: self.created_at@,
        }
    }
}

impl Clone for ReleaseResponse {
    fn clone(&self) -> (copy: ReleaseResponse)
        ensures
            copy@ == self@,
    {
        ReleaseResponse {
            id: self.id.clone(),
            version: self.version.clone(),
            channel: self.channel.clone(),
            bundle_url: self.bundle_url.clone(),
            rollout_percentage: self.rollout_percentage,
            is_active: self.is_active,
            is_encrypted: self.is_encrypted,
            key_id: match &self.key_id {
                Some(id) => Some(id.clone()),
                None => None,
            },
            created_at: self.created_at.clone(),
        }
    }
}

/// The views of a list of releases, in the registry's order.
pub open spec fn release_views(releases: Seq<ReleaseResponse>) -> Seq<ReleaseView> {
    Seq::new(releases.len(), |i: int| releases[i]@)
}

/// The registry's answer to a rollback.
#[derive(Clone, Debug, PartialEq, Eq)]
pub struct RollbackResponse {
    pub message: String,
    pub release: ReleaseResponse,
}

/// What accompanies an uploaded release artifact.
#[derive(Clone, Debug, PartialEq, Eq)]
pub struct ReleaseMetadata {
    pub version: String,
    pub channel: String,
    pub platform: String,
    pub mandatory: bool,
    pub rollout_percentage: u8,
    pub hash: String,
    pub signature: String,
    pub is_encrypted: bool,
    pub is_patch: bool,
    pub base_version: Option<String>,
    pub key_id: Option<String>,
    pub size: u64,
}

/// The mathematical content of a [`ReleaseMetadata`].
pub struct MetadataView {
    pub version: Seq<char>,
    pub channel: Seq<char>,
    pub platform: Seq<char>,
    pub mandatory: bool,
    pub rollout_percentage: u8,
    pub hash: Seq<char>,
    pub signature: Seq<char>,
    pub is_encrypted: bool,
    pub is_patch: bool,
    pub base_version: Option<Seq<char>>,
    pub key_id: Option<Seq<char>>,
    pub size: u64,
}

impl View for ReleaseMetadata {
    type V = MetadataView;

    open spec fn view(&self) -> MetadataView {
        MetadataView {
            version: self.version@,
            channel: self.channel@,
            platform: self.platform@,
            mandatory: self.mandatory,
            rollout_percentage: self.rollout_percentage,
            hash: self.hash@,
            signature: self.signature@,
            is_encrypted: self.is_encrypted,
            is_patch: self.is_patch,
            base_version: text_view(self.base_version),
            key_id: text_view(self.key_id),
            size: self.size,
        }
    }
}

/// The file name under which a release's bytes are uploaded: that of the
/// ciphertext if the release is encrypted, else that of the archive.
pub open spec fn upload_name(is_encrypted: bool) -> Seq<char> {
    if is_encrypted {
        "bundle.enc"@
    } else {
        "bundle.zip"@
    }
}

impl ReleaseMetadata {
    /// Names the file that the release's bytes are uploaded as.
    pub fn file_name(&self) -> (name: &'static str)
        ensures
            name@ == upload_name(self.is_encrypted),
    {
        if self.is_encrypted {
            "bundle.enc"
        } else {
            "bundle.zip"
        }
    }
}

/// The registry's description of a failure.
#[derive(Clone, Debug, PartialEq, Eq)]
pub struct ErrorResponse {
    pub error: String,
}

/// The calls the registry offers.
#[derive(Clone, Copy, Debug, PartialEq, Eq, Structural)]
pub enum Operation {
    Authenticate,
    UploadRelease,
    Rollback,
    ListReleases,
    DownloadBundle,
    UploadPatch,
}

/// Whether an HTTP status code reports success.
pub open spec fn is_success(status: u16) -> bool {
    200 <= status < 300
}

/// How the answer to a call is read from its status code: success, a
/// version conflict (the registry's 409 to a release upload), or a
/// failure of the registry's own.
pub open spec fn status_failure(operation: Operation, status: u16) -> Option<ErrorKind> {
    if operation == Operation::UploadRelease && status == 409 {
        Some(ErrorKind::VersionConflict)
    } else if is_success(status) {
        None
    } else {
        Some(ErrorKind::Remote)
    }
}

/// Reads the status code of the registry's answer to a call.
pub fn classify_status(operation: Operation, status: u16) -> (failure: Option<ErrorKind>)
    ensures
        failure == status_failure(operation, status),
{
    let conflict = match operation {
        Operation::UploadRelease => status == 409,
        _ => false,
    };
    if conflict {
        Some(ErrorKind::VersionConflict)
    } else if 200 <= status && status < 300 {
        None
    } else {
        Some(ErrorKind::Remote)
    }
}

/// A text without the slashes at its end.
pub open spec fn without_trailing_slashes(text: Seq<char>) -> Seq<char>
    decreases text.len(),
{
    if text.len() > 0 && text.last() == '/' {
        without_trailing_slashes(text.drop_last())
    } else {
        text
    }
}

/// The HTTP methods the registry is called with.
#[derive(Clone, Copy, Debug, PartialEq, Eq, Structural)]
pub enum Method {
    Get,
    Post,
    Patch,
}

/// A call to the registry, ready to be sent: what it is for, how and
/// where it goes, and the bearer token it carries, if it carries one.
#[derive(Clone, Debug, PartialEq, Eq)]
pub struct Request {
    pub operation: Operation,
    pub method: Method,
    pub url: String,
    pub bearer: Option<String>,
}

/// The mathematical content of a [`Request`].
pub struct RequestView {
    pub operation: Operation,
    pub method: Method,
    pub url: Seq<char>,
    pub bearer: Option<Seq<char>>,
}

impl View for Request {
    type V = RequestView;

    open spec fn view(&self) -> RequestView {
        RequestView {
            operation: self.operation,
            method: self.method,
            url: self.url@,
            bearer: text_view(self.bearer),
        }
    }
}

/// Where the registry is reached and the token that authorises calls to it.
#[derive(Clone, Debug, PartialEq, Eq)]
pub struct ApiClient {
    base_url: String,
    token: String,
}

/// The mathematical content of an [`ApiClient`].
pub struct ApiClientView {
    pub base_url: Seq<char>,
    pub token: Seq<char>,
}

impl ApiClientView {
    /// The exchange of an API key for a token: the one call that carries
    /// no token yet.
    pub open spec fn authenticate(self) -> RequestView {
        RequestView {
            operation: Operation::Authenticate,
            method: Method::Post,
            url: self.base_url + "/auth/token"@,
            bearer: None,
        }
    }

    /// The upload of a release.
    pub open spec fn upload_release(self) -> RequestView {
        RequestView {
            operation: Operation::UploadRelease,
            method: Method::Post,
            url: self.base_url + "/releases"@,
            bearer: Some(self.token),
        }
    }

    /// The rollback to a release.
    pub open spec fn rollback(self, release_id: Seq<char>) -> RequestView {
        RequestView {
            operation: Operation::Rollback,
            method: Method::Patch,
            url: self.base_url + "/releases/"@ + release_id + "/rollback"@,
            bearer: Some(self.token),
        }
    }

    /// The listing of a channel's releases.
    pub open spec fn list_releases(self, channel: Seq<char>) -> RequestView {
        RequestView {
            operation: Operation::ListReleases,
            method: Method::Get,
            url: self.base_url + "/releases?channel="@ + channel,
            bearer: Some(self.token),
        }
    }

    /// The download of a published bundle from where the registry said it
    /// is; the token stays at home.
    pub open spec fn download_bundle(self, url: Seq<char>) -> RequestView {
        RequestView {
            operation: Operation::DownloadBundle,
            method: Method::Get,
            url,
            bearer: None,
        }
    }

    /// The upload of a patch for a release.
    pub open spec fn upload_patch(self, release_id: Seq<char>) -> RequestView {
        RequestView {
            operation: Operation::UploadPatch,
            method: Method::Post,
            url: self.base_url + "/releases/"@ + release_id + "/patches"@,
            bearer: Some(self.token),
        }
    }
}

impl View for ApiClient {
    type V = ApiClientView;

    closed spec fn view(&self) -> ApiClientView {
        ApiClientView { base_url: self.base_url@, token: self.token@ }
    }
}

impl ApiClient {
    /// A client for the registry at `base_url`, whose trailing slashes are
    /// dropped, authorised by `token`.
    pub fn new(base_url: &str, token: &str) -> (client: ApiClient)
        ensures
            client@.base_url == without_trailing_slashes(base_url@),
            client@.token == token@,
    {
        let mut end: usize = base_url.unicode_len();
        proof {
            assert(base_url@.subrange(0, end as int) =~= base_url@);
        }
        while end > 0 && base_url.get_char(end - 1) == '/'
            invariant
                end <= base_url@.len(),
                without_trailing_slashes(base_url@) == without_trailing_slashes(
                    base_url@.subrange(0, end as int),
                ),
            decreases end,
        {
            proof {
                assert(base_url@.subrange(0, end as int).drop_last() =~= base_url@.subrange(
                    0,
                    end - 1,
                ));
            }
            end -= 1;
        }
        ApiClient {
            base_url: String::from_str(base_url.substring_char(0, end)),
            token: String::from_str(token),
        }
    }

    /// The registry's address, without trailing slashes.
    pub fn base_url(&self) -> (url: &String)
        ensures
            url@ == self@.base_url,
    {
        &self.base_url
    }

    /// The bearer token that authorises calls.
    pub fn token(&self) -> (token: &String)
        ensures
            token@ == self@.token,
    {
        &self.token
    }

    /// Prepares the exchange of an API key for a token.
    pub fn authenticate(&self) -> (request: Request)
        ensures
            request@ == self@.authenticate(),
    {
        Request {
            operation: Operation::Authenticate,
            method: Method::Post,
            url: self.base_url.clone().concat("/auth/token"),
            bearer: None,
        }
    }

    /// Prepares the upload of a release.
    pub fn upload_release(&self) -> (request: Request)
        ensures
            request@ == self@.upload_release(),
    {
        Request {
            operation: Operation::UploadRelease,
            method: Method::Post,
            url: self.base_url.clone().concat("/releases"),
            bearer: Some(self.token.clone()),
        }
    }

    /// Prepares the rollback to the release `release_id`.
    pub fn rollback(&self, release_id: &str) -> (request: Request)
        ensures
            request@ == self@.rollback(release_id@),
    {
        Request {
            operation: Operation::Rollback,
            method: Method::Patch,
            url: self.base_url.clone().concat("/releases/").concat(release_id).concat(
                "/rollback",
            ),
            bearer: Some(self.token.clone()),
        }
    }

    /// Prepares the listing of the releases of `channel`.
    pub fn list_releases(&self, channel: &str) -> (request: Request)
        ensures
            request@ == self@.list_releases(channel@),
    {
        Request {
            operation: Operation::ListReleases,
            method: Method::Get,
            url: self.base_url.clone().concat("/releases?channel=").concat(channel),
            bearer: Some(self.token.clone()),
        }
    }

    /// Prepares the download of the bundle at `url`.
    pub fn download_bundle(&self, url: &str) -> (request: Request)
        ensures
            request@ == self@.download_bundle(url@),
    {
        Request {
            operation: Operation::DownloadBundle,
            method: Method::Get,
            url: String::from_str(url),
            bearer: None,
        }
    }

    /// Prepares the upload of a patch for the release `release_id`.
    pub fn upload_patch(&self, release_id: &str) -> (request: Request)
        ensures
            request@ == self@.upload_patch(release_id@),
    {
        Request {
            operation: Operation::UploadPatch,
            method: Method::Post,
            url: self.base_url.clone().concat("/releases/").concat(release_id).concat("/patches"),
            bearer: Some(self.token.clone()),
        }
    }
}

/// Only the registry itself is ever handed the token: every call to it
/// but the key exchange carries it, and a download, which goes wherever
/// the registry pointed, does not.
pub proof fn lemma_token_goes_to_the_registry_only(
    client: ApiClientView,
    text: Seq<char>,
)
    ensures
        client.authenticate().bearer is None,
        client.download_bundle(text).bearer is None,
        client.upload_release().bearer == Some(client.token),
        client.rollback(text).bearer == Some(client.token),
        client.list_releases(text).bearer == Some(client.token),
        client.upload_patch(text).bearer == Some(client.token),
        client.upload_release().url.subrange(0, client.base_url.len() as int) == client.base_url,
        client.rollback(text).url.subrange(0, client.base_url.len() as int) == client.base_url,
        client.list_releases(text).url.subrange(0, client.base_url.len() as int)
            == client.base_url,
        client.upload_patch(text).url.subrange(0, client.base_url.len() as int)
            == client.base_url,
{
}

} // verus!
