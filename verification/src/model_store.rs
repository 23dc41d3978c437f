//! Model acquisition: path resolution, the cross-process lock protocol, and
//! the download decision machine.
//!
//! The filesystem and network steps themselves happen outside this crate:
//! `ModelAcquisition` names each step as an action, the caller performs it
//! and feeds the observed outcome back as an event, and every decision in
//! between — fast paths, lock polling and timeout, response classification,
//! the empty-download check, and the guarantee that an acquired lock is
//! always released — is verified.

use vstd::prelude::*;

use crate::config::AppConfig;
use crate::error::AppError;
use crate::text::{
    last_index_of, rfind_char, spec_trim_char, str_eq, trim_char,
};

verus! {

/// How long to keep polling for the download lock before giving up.
pub const LOCK_TIMEOUT_MS: u64 = 120_000;

/// How long to sleep between lock-creation attempts.
pub const LOCK_POLL_INTERVAL_MS: u64 = 250;

/// The path of the model file to download: the configured path itself when
/// it was given explicitly, else the cache directory plus the remote
/// filename.
pub open spec fn spec_target_path(cfg: AppConfig) -> Seq<char> {
    if cfg.whisper_model_explicit {
        cfg.whisper_model@
    } else {
        cfg.whisper_cache_dir@ + "/"@ + cfg.whisper_hf_filename@
    }
}

/// Computes the download target path for the configured model.
pub fn model_target_path(cfg: &AppConfig) -> (r: String)
    ensures
        r@ == spec_target_path(*cfg),
{
    if cfg.whisper_model_explicit {
        cfg.whisper_model.clone()
    } else {
        let mut p = cfg.whisper_cache_dir.clone();
        p.append("/");
        p.append(cfg.whisper_hf_filename.as_str());
        p
    }
}

/// The lock-file path derived from a target path: a sibling file whose name
/// is the target's file name (everything after the last `/`; `model` when
/// that is empty or a relative-directory name) with `.lock` appended.
pub open spec fn spec_lock_path(t: Seq<char>) -> Seq<char> {
    let i = last_index_of(t, '/');
    let dir = t.subrange(0, i + 1);
    let name = t.subrange(i + 1, t.len() as int);
    let base = if name.len() == 0 || name == ".."@ || name == "."@ {
        "model"@
    } else {
        name
    };
    dir + base + ".lock"@
}

/// Derives the sibling lock-file path for a target path.
pub fn lock_path_for(target_path: &str) -> (r: String)
    ensures
        r@ == spec_lock_path(target_path@),
{
    let n = target_path.unicode_len();
    proof {
        crate::text::lemma_last_index_of(target_path@, '/');
    }
    let split: usize = match rfind_char(target_path, '/') {
        Some(i) => i + 1,
        None => 0,
    };
    let dir = target_path.substring_char(0, split);
    let name = target_path.substring_char(split, n);
    let base: &str = if name.unicode_len() == 0 || str_eq(name, "..") || str_eq(name, ".") {
        "model"
    } else {
        name
    };
    let mut out = String::from_str(dir);
    out.append(base);
    out.append(".lock");
    out
}

/// The temporary download path for a target: the target with its file
/// extension (the part after the final dot of the file name, when that dot
/// is not the name's first character) replaced by `part`, or with `.part`
/// appended when the name has no extension.
pub open spec fn spec_part_path(t: Seq<char>) -> Seq<char> {
    let i = last_index_of(t, '/');
    let name = t.subrange(i + 1, t.len() as int);
    let d = last_index_of(name, '.');
    if d <= 0 {
        t + ".part"@
    } else {
        t.subrange(0, i + 1 + d) + ".part"@
    }
}

/// Derives the temporary download path for a target path.
pub fn part_path_for(target_path: &str) -> (r: String)
    ensures
        r@ == spec_part_path(target_path@),
{
    let n = target_path.unicode_len();
    proof {
        crate::text::lemma_last_index_of(target_path@, '/');
    }
    let split: usize = match rfind_char(target_path, '/') {
        Some(i) => i + 1,
        None => 0,
    };
    let name = target_path.substring_char(split, n);
    proof {
        crate::text::lemma_last_index_of(name@, '.');
    }
    let stem_end: usize = match rfind_char(name, '.') {
        Some(d) => if d == 0 {
            n
        } else {
            split + d
        },
        None => n,
    };
    let mut out = String::from_str(target_path.substring_char(0, stem_end));
    out.append(".part");
    proof {
        assert(target_path@.subrange(0, n as int) =~= target_path@);
    }
    out
}

/// The remote URL a model is fetched from: the repository and filename with
/// surrounding slashes trimmed, under the fixed resolver layout.
pub open spec fn spec_resolve_url(repo: Seq<char>, filename: Seq<char>) -> Seq<char> {
    "https://huggingface.co/"@ + spec_trim_char(repo, '/') + "/resolve/main/"@ + spec_trim_char(
        filename,
        '/',
    )
}

/// Builds the download URL for a repository and filename.
pub fn hf_resolve_url(repo: &str, filename: &str) -> (r: String)
    ensures
        r@ == spec_resolve_url(repo@, filename@),
{
    let mut out = String::from_str("https://huggingface.co/");
    out.append(trim_char(repo, '/'));
    out.append("/resolve/main/");
    out.append(trim_char(filename, '/'));
    out
}

/// What an HTTP response status means for a model download.
#[derive(Debug, Clone, Copy, PartialEq, Eq, Structural)]
pub enum DownloadClass {
    /// A success status: stream the body.
    Success,
    /// `401` or `403`: authentication is required.
    AuthRequired,
    /// `404`: the model does not exist at the source.
    NotFound,
    /// Any other non-success status.
    OtherFailure,
}

/// The classification of a download response status.
pub open spec fn spec_classify_status(status: u16) -> DownloadClass {
    if 200 <= status && status <= 299 {
        DownloadClass::Success
    } else if status == 401 || status == 403 {
        DownloadClass::AuthRequired
    } else if status == 404 {
        DownloadClass::NotFound
    } else {
        DownloadClass::OtherFailure
    }
}

/// Classifies a download response status.
pub fn classify_download_status(status: u16) -> (r: DownloadClass)
    ensures
        r == spec_classify_status(status),
{
    if 200 <= status && status <= 299 {
        DownloadClass::Success
    } else if status == 401 || status == 403 {
        DownloadClass::AuthRequired
    } else if status == 404 {
        DownloadClass::NotFound
    } else {
        DownloadClass::OtherFailure
    }
}

/// Where an acquisition attempt stands, named by the event it waits for.
#[derive(Debug, Clone, Copy, PartialEq, Eq, Structural)]
pub enum AcqPhase {
    /// Waiting to hear whether the configured model file exists.
    ProbeConfigured,
    /// Waiting to hear whether the download target already exists.
    ProbeTarget,
    /// Waiting for the target's parent directory to be created.
    MakingParent,
    /// Waiting for a lock-file creation attempt.
    Locking,
    /// Waiting out the poll interval before retrying the lock.
    Sleeping,
    /// Lock held; waiting for the post-lock re-check of the target.
    Rechecking,
    /// Lock held; waiting for the download response status.
    Downloading,
    /// Lock held; waiting for the body to be streamed to the temp file.
    Streaming,
    /// Lock held; waiting for the temp file to be renamed onto the target.
    Renaming,
    /// Waiting for the lock file to be removed.
    Releasing,
    /// The attempt is over; the concluding action carried the outcome.
    Complete,
}

/// A step the caller must perform for the acquisition.
#[derive(Debug)]
pub enum AcquireAction {
    /// Report whether `path` is an existing, non-empty regular file.
    CheckConfigured { path: String },
    /// Report whether `path` is an existing, non-empty regular file.
    CheckTarget { path: String },
    /// Create the parent directory of `target_path`, recursively.
    CreateParentDir { target_path: String },
    /// Try to create `lock_path` with create-only semantics.
    TryCreateLock { lock_path: String },
    /// Sleep for `millis` milliseconds.
    SleepPollInterval { millis: u64 },
    /// Report whether `path` is an existing, non-empty regular file.
    RecheckTarget { path: String },
    /// Issue a GET to `url`, with `bearer_token` when given.
    Download { url: String, bearer_token: Option<String> },
    /// Stream the response body into `tmp_path` and report the size.
    StreamBody { tmp_path: String },
    /// Atomically rename `tmp_path` onto `target_path`.
    RenameTmp { tmp_path: String, target_path: String },
    /// Remove the lock file (and `remove_tmp` when given), unconditionally.
    ReleaseLock { lock_path: String, remove_tmp: Option<String> },
    /// The attempt is over with this outcome: the resolved model path, or
    /// the error to report.
    Conclude { outcome: Result<String, AppError> },
}

/// What the caller observed for the action it performed.
#[derive(Debug)]
pub enum AcquireEvent {
    /// Answer to a file check: the file exists and is non-empty.
    FileStatus { exists_nonempty: bool },
    /// Answer to directory creation; `Some` carries the failure text.
    DirCreated { error: Option<String> },
    /// The lock file was created; the lock is now held.
    LockCreated,
    /// The lock file already exists.
    LockBusy,
    /// Lock creation failed for another reason.
    LockFailed { message: String },
    /// The poll-interval sleep finished.
    Slept,
    /// The download request came back with this HTTP status.
    DownloadStatus { status: u16 },
    /// The download request itself failed.
    NetworkFailed { message: String },
    /// The body was streamed; `bytes` is the temp file's size.
    Streamed { bytes: u64 },
    /// Streaming the body failed.
    StreamFailed { message: String },
    /// Answer to the rename; `Some` carries the failure text.
    Renamed { error: Option<String> },
    /// The lock file (and any temp file) was removed.
    LockRemoved,
}

/// Which event answers the action of each phase.
pub open spec fn expects(p: AcqPhase, ev: AcquireEvent) -> bool {
    match p {
        AcqPhase::ProbeConfigured => ev is FileStatus,
        AcqPhase::ProbeTarget => ev is FileStatus,
        AcqPhase::MakingParent => ev is DirCreated,
        AcqPhase::Locking => ev is LockCreated || ev is LockBusy || ev is LockFailed,
        AcqPhase::Sleeping => ev is Slept,
        AcqPhase::Rechecking => ev is FileStatus,
        AcqPhase::Downloading => ev is DownloadStatus || ev is NetworkFailed,
        AcqPhase::Streaming => ev is Streamed || ev is StreamFailed,
        AcqPhase::Renaming => ev is Renamed,
        AcqPhase::Releasing => ev is LockRemoved,
        AcqPhase::Complete => false,
    }
}

/// One model-acquisition attempt, as a decision machine over the caller's
/// filesystem and network observations.
pub struct ModelAcquisition {
    configured_model: String,
    auto_download: bool,
    target: String,
    lock_path: String,
    tmp_path: String,
    url: String,
    token: Option<String>,
    phase: AcqPhase,
    waited_ms: u64,
    lock_held: bool,
    pending: Option<Result<String, AppError>>,
}

impl ModelAcquisition {
    /// The phase the attempt is in.
    pub closed spec fn phase(&self) -> AcqPhase {
        self.phase
    }

    /// Whether the machine believes the lock file exists right now.
    pub closed spec fn lock_held(&self) -> bool {
        self.lock_held
    }

    /// How long the attempt has waited for the lock, in milliseconds.
    pub closed spec fn waited(&self) -> u64 {
        self.waited_ms
    }

    /// The attempt is over.
    pub open spec fn finished(&self) -> bool {
        self.phase() == AcqPhase::Complete
    }

    /// The configured model path.
    pub closed spec fn spec_configured(&self) -> Seq<char> {
        self.configured_model@
    }

    /// The resolved download target path.
    pub closed spec fn spec_target(&self) -> Seq<char> {
        self.target@
    }

    /// The derived lock-file path.
    pub closed spec fn spec_lock(&self) -> Seq<char> {
        self.lock_path@
    }

    /// The derived temporary download path.
    pub closed spec fn spec_tmp(&self) -> Seq<char> {
        self.tmp_path@
    }

    /// The download URL.
    pub closed spec fn spec_url(&self) -> Seq<char> {
        self.url@
    }

    /// Whether downloading is enabled.
    pub closed spec fn download_allowed(&self) -> bool {
        self.auto_download
    }

    /// The outcome queued to be delivered once the lock is released.
    pub closed spec fn pending_outcome(&self) -> Option<Result<String, AppError>> {
        self.pending
    }

    /// The download token handed to the remote source, when one was given.
    pub closed spec fn spec_token(&self) -> Option<String> {
        self.token
    }

    /// The machine's invariant. In particular: the lock is held exactly in
    /// the phases between its creation and its release, so a completed
    /// attempt — success or failure — never leaves the lock file behind.
    pub open spec fn wf(&self) -> bool {
        &&& self.waited() <= LOCK_TIMEOUT_MS + LOCK_POLL_INTERVAL_MS
        &&& self.lock_held() <==> (self.phase() == AcqPhase::Rechecking || self.phase()
            == AcqPhase::Downloading || self.phase() == AcqPhase::Streaming || self.phase()
            == AcqPhase::Renaming || self.phase() == AcqPhase::Releasing)
        &&& (self.phase() == AcqPhase::Releasing ==> self.pending_outcome() is Some)
    }

    /// Starts an acquisition attempt for the configured model. The first
    /// action probes the configured path: when that file already exists the
    /// attempt concludes immediately, touching neither lock nor network.
    pub fn start(cfg: &AppConfig) -> (r: (ModelAcquisition, AcquireAction))
        ensures
            r.0.wf(),
            !r.0.finished(),
            !r.0.lock_held(),
            r.0.phase() == AcqPhase::ProbeConfigured,
            r.0.waited() == 0,
            r.0.spec_configured() == cfg.whisper_model@,
            r.0.spec_target() == spec_target_path(*cfg),
            r.0.spec_lock() == spec_lock_path(spec_target_path(*cfg)),
            r.0.spec_tmp() == spec_part_path(spec_target_path(*cfg)),
            r.0.spec_url() == spec_resolve_url(cfg.whisper_hf_repo@, cfg.whisper_hf_filename@),
            r.0.download_allowed() == cfg.whisper_auto_download,
            (r.1 matches AcquireAction::CheckConfigured { path } && path@ == cfg.whisper_model@),
    {
        let target = model_target_path(cfg);
        let lock_path = lock_path_for(target.as_str());
        let tmp_path = part_path_for(target.as_str());
        let url = hf_resolve_url(cfg.whisper_hf_repo.as_str(), cfg.whisper_hf_filename.as_str());
        let machine = ModelAcquisition {
            configured_model: cfg.whisper_model.clone(),
            auto_download: cfg.whisper_auto_download,
            target,
            lock_path,
            tmp_path,
            url,
            token: cfg.hf_token.clone(),
            phase: AcqPhase::ProbeConfigured,
            waited_ms: 0,
            lock_held: false,
            pending: None,
        };
        let action = AcquireAction::CheckConfigured { path: cfg.whisper_model.clone() };
        (machine, action)
    }

    /// Feeds the observed outcome of the previous action into the machine
    /// and returns the next action. The transitions implement the
    /// acquisition protocol exactly:
    ///
    /// - an existing configured or target file concludes the attempt at
    ///   once (the multi-process fast paths);
    /// - with downloading disabled, a missing model is a configuration
    ///   error;
    /// - the lock is polled until created, sleeping a fixed interval, and
    ///   gives up fatally once the accumulated wait reaches the timeout;
    /// - after the lock, the target is re-checked before downloading;
    /// - the response status is classified (success; authentication
    ///   required; not found; other failure), an empty download is refused
    ///   and its temp file removed, and a streamed body is renamed onto the
    ///   target atomically;
    /// - every path that acquired the lock releases it before concluding,
    ///   success or failure.
    pub fn on_event(&mut self, ev: AcquireEvent) -> (a: AcquireAction)
        requires
            old(self).wf(),
            expects(old(self).phase(), ev),
        ensures
            final(self).wf(),
            final(self).spec_configured() == old(self).spec_configured(),
            final(self).spec_target() == old(self).spec_target(),
            final(self).spec_lock() == old(self).spec_lock(),
            final(self).spec_tmp() == old(self).spec_tmp(),
            final(self).spec_url() == old(self).spec_url(),
            final(self).spec_token() == old(self).spec_token(),
            final(self).download_allowed() == old(self).download_allowed(),
            old(self).phase() == AcqPhase::ProbeConfigured ==> (match ev {
                AcquireEvent::FileStatus { exists_nonempty } => {
                    if exists_nonempty {
                        &&& final(self).phase() == AcqPhase::Complete
                        &&& (a matches AcquireAction::Conclude { outcome } && outcome matches Ok(
                            p,
                        ) && p@ == old(self).spec_configured())
                    } else if old(self).download_allowed() {
                        &&& final(self).phase() == AcqPhase::ProbeTarget
                        &&& (a matches AcquireAction::CheckTarget { path } && path@ == old(
                            self,
                        ).spec_target())
                    } else {
                        &&& final(self).phase() == AcqPhase::Complete
                        &&& (a matches AcquireAction::Conclude { outcome } && outcome matches Err(
                            e,
                        ) && e matches AppError::Internal(msg) && msg@ == "model file not found at "@
                            + old(self).spec_configured()
                            + "; set WHISPER_MODEL to an existing file or enable WHISPER_AUTO_DOWNLOAD"@)
                    }
                },
                _ => false,
            }),
            old(self).phase() == AcqPhase::ProbeTarget ==> (match ev {
                AcquireEvent::FileStatus { exists_nonempty } => {
                    if exists_nonempty {
                        &&& final(self).phase() == AcqPhase::Complete
                        &&& (a matches AcquireAction::Conclude { outcome } && outcome matches Ok(
                            p,
                        ) && p@ == old(self).spec_target())
                    } else {
                        &&& final(self).phase() == AcqPhase::MakingParent
                        &&& (a matches AcquireAction::CreateParentDir { target_path }
                            && target_path@ == old(self).spec_target())
                    }
                },
                _ => false,
            }),
            old(self).phase() == AcqPhase::MakingParent ==> (match ev {
                AcquireEvent::DirCreated { error } => {
                    if error is Some {
                        &&& final(self).phase() == AcqPhase::Complete
                        &&& (error matches Some(cause) && (a matches AcquireAction::Conclude {
                            outcome,
                        } && outcome matches Err(e) && e matches AppError::Internal(msg) && msg@
                            == "failed to create model cache directory for "@ + old(
                            self,
                        ).spec_target() + ": "@ + cause@))
                    } else {
                        &&& final(self).phase() == AcqPhase::Locking
                        &&& (a matches AcquireAction::TryCreateLock { lock_path } && lock_path@
                            == old(self).spec_lock())
                    }
                },
                _ => false,
            }),
            old(self).phase() == AcqPhase::Locking ==> (match ev {
                AcquireEvent::LockCreated => {
                    &&& final(self).phase() == AcqPhase::Rechecking
                    &&& final(self).lock_held()
                    &&& (a matches AcquireAction::RecheckTarget { path } && path@ == old(
                        self,
                    ).spec_target())
                },
                AcquireEvent::LockBusy => {
                    if old(self).waited() >= LOCK_TIMEOUT_MS {
                        &&& final(self).phase() == AcqPhase::Complete
                        &&& (a matches AcquireAction::Conclude { outcome } && outcome matches Err(
                            e,
                        ) && e matches AppError::Internal(msg) && msg@
                            == "timed out waiting for model download lock at "@ + old(
                            self,
                        ).spec_lock())
                    } else {
                        &&& final(self).phase() == AcqPhase::Sleeping
                        &&& final(self).waited() == old(self).waited() + LOCK_POLL_INTERVAL_MS
                        &&& (a matches AcquireAction::SleepPollInterval { millis } && millis
                            == LOCK_POLL_INTERVAL_MS)
                    }
                },
                AcquireEvent::LockFailed { message } => {
                    &&& final(self).phase() == AcqPhase::Complete
                    &&& (a matches AcquireAction::Conclude { outcome } && outcome matches Err(e)
                        && e matches AppError::Internal(msg) && msg@
                        == "failed to acquire model download lock at "@ + old(self).spec_lock()
                        + ": "@ + message@)
                },
                _ => false,
            }),
            old(self).phase() == AcqPhase::Sleeping ==> (match ev {
                AcquireEvent::Slept => {
                    &&& final(self).phase() == AcqPhase::Locking
                    &&& final(self).waited() == old(self).waited()
                    &&& (a matches AcquireAction::TryCreateLock { lock_path } && lock_path@ == old(
                        self,
                    ).spec_lock())
                },
                _ => false,
            }),
            old(self).phase() == AcqPhase::Rechecking ==> (match ev {
                AcquireEvent::FileStatus { exists_nonempty } => {
                    if exists_nonempty {
                        &&& final(self).phase() == AcqPhase::Releasing
                        &&& (final(self).pending_outcome() matches Some(o) && o matches Ok(p)
                            && p@ == old(self).spec_target())
                        &&& (a matches AcquireAction::ReleaseLock { lock_path, remove_tmp }
                            && lock_path@ == old(self).spec_lock() && remove_tmp is None)
                    } else {
                        &&& final(self).phase() == AcqPhase::Downloading
                        &&& (a matches AcquireAction::Download { url, bearer_token } && url@
                            == old(self).spec_url() && bearer_token == old(self).spec_token())
                    }
                },
                _ => false,
            }),
            old(self).phase() == AcqPhase::Downloading ==> (match ev {
                AcquireEvent::DownloadStatus { status } => {
                    if spec_classify_status(status) == DownloadClass::Success {
                        &&& final(self).phase() == AcqPhase::Streaming
                        &&& (a matches AcquireAction::StreamBody { tmp_path } && tmp_path@ == old(
                            self,
                        ).spec_tmp())
                    } else {
                        &&& final(self).phase() == AcqPhase::Releasing
                        &&& (final(self).pending_outcome() matches Some(o) && o matches Err(e)
                            && e matches AppError::Internal(msg) && (spec_classify_status(status)
                            == DownloadClass::AuthRequired ==> msg@
                            == "the model source rejected the download from "@ + old(
                            self,
                        ).spec_url() + " with status "@ + crate::text::spec_u64_string(
                            status as int,
                        ) + "; set HF_TOKEN for authenticated access"@) && (spec_classify_status(
                            status,
                        ) == DownloadClass::NotFound ==> msg@ == "model not found at "@ + old(
                            self,
                        ).spec_url() + "; verify WHISPER_HF_REPO and WHISPER_HF_FILENAME"@) && (
                        spec_classify_status(status) == DownloadClass::OtherFailure ==> msg@
                            == "model download failed from "@ + old(self).spec_url()
                            + " with HTTP status "@ + crate::text::spec_u64_string(status as int)))
                        &&& (a matches AcquireAction::ReleaseLock { lock_path, remove_tmp }
                            && lock_path@ == old(self).spec_lock() && remove_tmp is None)
                    }
                },
                AcquireEvent::NetworkFailed { message } => {
                    &&& final(self).phase() == AcqPhase::Releasing
                    &&& (final(self).pending_outcome() matches Some(o) && o matches Err(e)
                        && e matches AppError::Internal(msg) && msg@
                        == "failed to download model from "@ + old(self).spec_url() + ": "@
                        + message@ + "; check network connectivity"@)
                    &&& (a matches AcquireAction::ReleaseLock { lock_path, remove_tmp }
                        && lock_path@ == old(self).spec_lock() && remove_tmp is None)
                },
                _ => false,
            }),
            old(self).phase() == AcqPhase::Streaming ==> (match ev {
                AcquireEvent::Streamed { bytes } => {
                    if bytes == 0 {
                        &&& final(self).phase() == AcqPhase::Releasing
                        &&& (final(self).pending_outcome() matches Some(o) && o matches Err(e)
                            && e matches AppError::Internal(msg) && msg@
                            == "downloaded empty model file from "@ + old(self).spec_url()
                            + "; refusing to continue"@)
                        &&& (a matches AcquireAction::ReleaseLock { lock_path, remove_tmp }
                            && lock_path@ == old(self).spec_lock() && (remove_tmp matches Some(t)
                            && t@ == old(self).spec_tmp()))
                    } else {
                        &&& final(self).phase() == AcqPhase::Renaming
                        &&& (a matches AcquireAction::RenameTmp { tmp_path, target_path }
                            && tmp_path@ == old(self).spec_tmp() && target_path@ == old(
                            self,
                        ).spec_target())
                    }
                },
                AcquireEvent::StreamFailed { message } => {
                    &&& final(self).phase() == AcqPhase::Releasing
                    &&& (final(self).pending_outcome() matches Some(o) && o matches Err(e)
                        && e matches AppError::Internal(msg) && msg@
                        == "failed writing downloaded model to "@ + old(self).spec_tmp() + ": "@
                        + message@)
                    &&& (a matches AcquireAction::ReleaseLock { lock_path, remove_tmp }
                        && lock_path@ == old(self).spec_lock() && remove_tmp is None)
                },
                _ => false,
            }),
            old(self).phase() == AcqPhase::Renaming ==> (match ev {
                AcquireEvent::Renamed { error } => {
                    if error is None {
                        &&& final(self).phase() == AcqPhase::Releasing
                        &&& (final(self).pending_outcome() matches Some(o) && o matches Ok(p)
                            && p@ == old(self).spec_target())
                        &&& (a matches AcquireAction::ReleaseLock { lock_path, remove_tmp }
                            && lock_path@ == old(self).spec_lock() && remove_tmp is None)
                    } else {
                        &&& final(self).phase() == AcqPhase::Releasing
                        &&& (error matches Some(cause) && (final(self).pending_outcome() matches
                            Some(o) && o matches Err(e) && e matches AppError::Internal(msg)
                            && msg@ == "failed to move model from "@ + old(self).spec_tmp()
                            + " to "@ + old(self).spec_target() + ": "@ + cause@))
                        &&& (a matches AcquireAction::ReleaseLock { lock_path, remove_tmp }
                            && lock_path@ == old(self).spec_lock() && remove_tmp is None)
                    }
                },
                _ => false,
            }),
            old(self).phase() == AcqPhase::Releasing ==> (match ev {
                AcquireEvent::LockRemoved => {
                    &&& final(self).phase() == AcqPhase::Complete
                    &&& !final(self).lock_held()
                    &&& (a matches AcquireAction::Conclude { outcome } && Some(outcome) == old(
                        self,
                    ).pending_outcome())
                },
                _ => false,
            }),
    {
        match self.phase {
            AcqPhase::ProbeConfigured => {
                match ev {
                    AcquireEvent::FileStatus { exists_nonempty } => {
                        if exists_nonempty {
                            self.phase = AcqPhase::Complete;
                            AcquireAction::Conclude { outcome: Ok(self.configured_model.clone()) }
                        } else if self.auto_download {
                            self.phase = AcqPhase::ProbeTarget;
                            AcquireAction::CheckTarget { path: self.target.clone() }
                        } else {
                            self.phase = AcqPhase::Complete;
                            let mut m = String::from_str("model file not found at ");
                            m.append(self.configured_model.as_str());
                            m.append(
                                "; set WHISPER_MODEL to an existing file or enable WHISPER_AUTO_DOWNLOAD",
                            );
                            AcquireAction::Conclude { outcome: Err(AppError::internal(m)) }
                        }
                    },
                    _ => unreached(),
                }
            },
            AcqPhase::ProbeTarget => {
                match ev {
                    AcquireEvent::FileStatus { exists_nonempty } => {
                        if exists_nonempty {
                            self.phase = AcqPhase::Complete;
                            AcquireAction::Conclude { outcome: Ok(self.target.clone()) }
                        } else {
                            self.phase = AcqPhase::MakingParent;
                            AcquireAction::CreateParentDir { target_path: self.target.clone() }
                        }
                    },
                    _ => unreached(),
                }
            },
            AcqPhase::MakingParent => {
                match ev {
                    AcquireEvent::DirCreated { error } => {
                        match error {
                            Some(err) => {
                                self.phase = AcqPhase::Complete;
                                let mut m = String::from_str(
                                    "failed to create model cache directory for ",
                                );
                                m.append(self.target.as_str());
                                m.append(": ");
                                m.append(err.as_str());
                                AcquireAction::Conclude { outcome: Err(AppError::internal(m)) }
                            },
                            None => {
                                self.phase = AcqPhase::Locking;
                                AcquireAction::TryCreateLock {
                                    lock_path: self.lock_path.clone(),
                                }
                            },
                        }
                    },
                    _ => unreached(),
                }
            },
            AcqPhase::Locking => {
                match ev {
                    AcquireEvent::LockCreated => {
                        self.lock_held = true;
                        self.phase = AcqPhase::Rechecking;
                        AcquireAction::RecheckTarget { path: self.target.clone() }
                    },
                    AcquireEvent::LockBusy => {
                        if self.waited_ms >= LOCK_TIMEOUT_MS {
                            self.phase = AcqPhase::Complete;
                            let mut m = String::from_str(
                                "timed out waiting for model download lock at ",
                            );
                            m.append(self.lock_path.as_str());
                            AcquireAction::Conclude { outcome: Err(AppError::internal(m)) }
                        } else {
                            self.waited_ms = self.waited_ms + LOCK_POLL_INTERVAL_MS;
                            self.phase = AcqPhase::Sleeping;
                            AcquireAction::SleepPollInterval { millis: LOCK_POLL_INTERVAL_MS }
                        }
                    },
                    AcquireEvent::LockFailed { message } => {
                        self.phase = AcqPhase::Complete;
                        let mut m = String::from_str(
                            "failed to acquire model download lock at ",
                        );
                        m.append(self.lock_path.as_str());
                        m.append(": ");
                        m.append(message.as_str());
                        AcquireAction::Conclude { outcome: Err(AppError::internal(m)) }
                    },
                    _ => unreached(),
                }
            },
            AcqPhase::Sleeping => {
                match ev {
                    AcquireEvent::Slept => {
                        self.phase = AcqPhase::Locking;
                        AcquireAction::TryCreateLock { lock_path: self.lock_path.clone() }
                    },
                    _ => unreached(),
                }
            },
            AcqPhase::Rechecking => {
                match ev {
                    AcquireEvent::FileStatus { exists_nonempty } => {
                        if exists_nonempty {
                            self.pending = Some(Ok(self.target.clone()));
                            self.phase = AcqPhase::Releasing;
                            AcquireAction::ReleaseLock {
                                lock_path: self.lock_path.clone(),
                                remove_tmp: None,
                            }
                        } else {
                            self.phase = AcqPhase::Downloading;
                            AcquireAction::Download {
                                url: self.url.clone(),
                                bearer_token: self.token.clone(),
                            }
                        }
                    },
                    _ => unreached(),
                }
            },
            AcqPhase::Downloading => {
                match ev {
                    AcquireEvent::DownloadStatus { status } => {
                        match classify_download_status(status) {
                            DownloadClass::Success => {
                                self.phase = AcqPhase::Streaming;
                                AcquireAction::StreamBody { tmp_path: self.tmp_path.clone() }
                            },
                            DownloadClass::AuthRequired => {
                                let mut m = String::from_str(
                                    "the model source rejected the download from ",
                                );
                                m.append(self.url.as_str());
                                m.append(" with status ");
                                m.append(crate::text::u64_to_string(status as u64).as_str());
                                m.append("; set HF_TOKEN for authenticated access");
                                self.pending = Some(Err(AppError::internal(m)));
                                self.phase = AcqPhase::Releasing;
                                AcquireAction::ReleaseLock {
                                    lock_path: self.lock_path.clone(),
                                    remove_tmp: None,
                                }
                            },
                            DownloadClass::NotFound => {
                                let mut m = String::from_str("model not found at ");
                                m.append(self.url.as_str());
                                m.append("; verify WHISPER_HF_REPO and WHISPER_HF_FILENAME");
                                self.pending = Some(Err(AppError::internal(m)));
                                self.phase = AcqPhase::Releasing;
                                AcquireAction::ReleaseLock {
                                    lock_path: self.lock_path.clone(),
                                    remove_tmp: None,
                                }
                            },
                            DownloadClass::OtherFailure => {
                                let mut m = String::from_str("model download failed from ");
                                m.append(self.url.as_str());
                                m.append(" with HTTP status ");
                                m.append(crate::text::u64_to_string(status as u64).as_str());
                                self.pending = Some(Err(AppError::internal(m)));
                                self.phase = AcqPhase::Releasing;
                                AcquireAction::ReleaseLock {
                                    lock_path: self.lock_path.clone(),
                                    remove_tmp: None,
                                }
                            },
                        }
                    },
                    AcquireEvent::NetworkFailed { message } => {
                        let mut m = String::from_str("failed to download model from ");
                        m.append(self.url.as_str());
                        m.append(": ");
                        m.append(message.as_str());
                        m.append("; check network connectivity");
                        self.pending = Some(Err(AppError::internal(m)));
                        self.phase = AcqPhase::Releasing;
                        AcquireAction::ReleaseLock {
                            lock_path: self.lock_path.clone(),
                            remove_tmp: None,
                        }
                    },
                    _ => unreached(),
                }
            },
            AcqPhase::Streaming => {
                match ev {
                    AcquireEvent::Streamed { bytes } => {
                        if bytes == 0 {
                            let mut m = String::from_str("downloaded empty model file from ");
                            m.append(self.url.as_str());
                            m.append("; refusing to continue");
                            self.pending = Some(Err(AppError::internal(m)));
                            self.phase = AcqPhase::Releasing;
                            AcquireAction::ReleaseLock {
                                lock_path: self.lock_path.clone(),
                                remove_tmp: Some(self.tmp_path.clone()),
                            }
                        } else {
                            self.phase = AcqPhase::Renaming;
                            AcquireAction::RenameTmp {
                                tmp_path: self.tmp_path.clone(),
                                target_path: self.target.clone(),
                            }
                        }
                    },
                    AcquireEvent::StreamFailed { message } => {
                        let mut m = String::from_str("failed writing downloaded model to ");
                        m.append(self.tmp_path.as_str());
                        m.append(": ");
                        m.append(message.as_str());
                        self.pending = Some(Err(AppError::internal(m)));
                        self.phase = AcqPhase::Releasing;
                        AcquireAction::ReleaseLock {
                            lock_path: self.lock_path.clone(),
                            remove_tmp: None,
                        }
                    },
                    _ => unreached(),
                }
            },
            AcqPhase::Renaming => {
                match ev {
                    AcquireEvent::Renamed { error } => {
                        match error {
                            None => {
                                self.pending = Some(Ok(self.target.clone()));
                                self.phase = AcqPhase::Releasing;
                                AcquireAction::ReleaseLock {
                                    lock_path: self.lock_path.clone(),
                                    remove_tmp: None,
                                }
                            },
                            Some(err) => {
                                let mut m = String::from_str("failed to move model from ");
                                m.append(self.tmp_path.as_str());
                                m.append(" to ");
                                m.append(self.target.as_str());
                                m.append(": ");
                                m.append(err.as_str());
                                self.pending = Some(Err(AppError::internal(m)));
                                self.phase = AcqPhase::Releasing;
                                AcquireAction::ReleaseLock {
                                    lock_path: self.lock_path.clone(),
                                    remove_tmp: None,
                                }
                            },
                        }
                    },
                    _ => unreached(),
                }
            },
            AcqPhase::Releasing => {
                match ev {
                    AcquireEvent::LockRemoved => {
                        self.lock_held = false;
                        self.phase = AcqPhase::Complete;
                        let ghost queued = self.pending;
                        let outcome = match self.pending.take() {
                            Some(o) => o,
                            None => unreached(),
                        };
                        proof {
                            assert(Some(outcome) == queued);
                        }
                        AcquireAction::Conclude { outcome }
                    },
                    _ => unreached(),
                }
            },
            AcqPhase::Complete => unreached(),
        }
    }
}

/// Lock-file cleanup: once an acquisition attempt has concluded — with
/// success or with any failure — the machine no longer holds the lock; the
/// only transition into the completed phase from a lock-holding state is
/// the one that removes the lock file.
pub proof fn lemma_no_lock_after_completion(m: ModelAcquisition)
    requires
        m.wf(),
        m.finished(),
    ensures
        !m.lock_held(),
{
}

} // verus!
