//! An upload request, step by step: the caller's token, the rate limit, the
//! form, the checks, storing the file, recording it, and its download
//! address.

use vstd::prelude::*;
use crate::auth::{bearer_token, claims_user_id, Claims};
use crate::error::{AppError, ErrorView};
use crate::files::{
    allowed_content_type, check_upload, download_permission, storage_key, too_large_message, upload_permission,
    UploadForm,
};
use crate::ids::{hyphenated, uuid_parse, version_of};
use crate::permissions::keys::PermissionKey;
use crate::permissions::resolver::{Decision, PermissionResult};
use crate::permissions::service::{require_allowed, PermissionRequest};
use crate::rate_limit::{decide, exceeded_message, upload_key};
use crate::slug::lowercase;
use crate::text::has_prefix;

verus! {

/// The length of the window in which uploads are counted, in seconds.
pub const UPLOAD_WINDOW_SECS: u64 = 60;

/// What an upload waits for.
#[derive(Debug, Clone, Copy, PartialEq, Eq, Structural)]
pub enum UploadStage {
    AwaitClaims,
    AwaitCount,
    AwaitExpiry,
    AwaitForm,
    AwaitPermission,
    AwaitStored,
    AwaitRecord,
    AwaitAudit,
    AwaitFile,
    AwaitViewCheck,
    AwaitUrl,
    Finished,
}

/// The row that records an uploaded file.
#[derive(Debug)]
pub struct UploadRecord {
    pub space_id: Option<u128>,
    pub channel_id: Option<u128>,
    pub uploader_user_id: u128,
    pub filename: String,
    pub content_type: String,
    pub size_bytes: i64,
    pub storage_key: String,
}

/// What an upload needs next.
#[derive(Debug)]
pub enum UploadStep {
    /// Check the bearer token and read its claims.
    VerifyToken { token: String },
    /// Count the request in its window.
    CountRequest { key: String, window_secs: u64 },
    /// Start the window: the counter expires after it.
    ExpireWindow { key: String, window_secs: u64 },
    /// Read the multipart form.
    ReadForm,
    /// Check a permission that must be granted.
    RequirePermission(PermissionRequest),
    /// Store the file's bytes under the key.
    StoreFile { key: String, content_type: String, data: Vec<u8> },
    /// Record the stored file; the answer is its id.
    CreateRecord(UploadRecord),
    /// Write the upload to the audit log.
    LogUpload { user_id: u128, space_id: Option<u128>, channel_id: Option<u128> },
    /// Look the recorded file up: its space, channel and storage key.
    LookupFile { file_id: u128 },
    /// Ask whether a permission is granted (the answer is not used).
    AskPermission(PermissionRequest),
    /// The address from which the stored file is downloaded.
    DownloadUrl { key: String },
    /// The answer: the download address.
    Done(Result<String, AppError>),
}

/// The state of an upload.
pub struct UploadView {
    pub max_requests: u64,
    pub max_bytes: i64,
    pub user_id: u128,
    pub rate_key: Seq<char>,
    pub refused: Option<ErrorView>,
    pub filename: Seq<char>,
    pub content_type: Seq<char>,
    pub data: Seq<u8>,
    pub size: i64,
    pub space_id: Option<u128>,
    pub channel_id: Option<u128>,
    pub storage_key: Seq<char>,
    pub file_id: u128,
    pub stage: UploadStage,
}

/// An upload in progress.
pub struct UploadFlow {
    max_requests: u64,
    max_bytes: i64,
    user_id: u128,
    rate_key: String,
    refused: Option<AppError>,
    filename: String,
    content_type: String,
    data: Vec<u8>,
    size: i64,
    space_id: Option<u128>,
    channel_id: Option<u128>,
    storage_key: String,
    file_id: u128,
    stage: UploadStage,
}

pub open spec fn refusal_view(e: Option<AppError>) -> Option<ErrorView> {
    match e {
        Some(x) => Some(x@),
        None => None,
    }
}

impl View for UploadFlow {
    type V = UploadView;

    closed spec fn view(&self) -> UploadView {
        UploadView {
            max_requests: self.max_requests,
            max_bytes: self.max_bytes,
            user_id: self.user_id,
            rate_key: self.rate_key@,
            refused: refusal_view(self.refused),
            filename: self.filename@,
            content_type: self.content_type@,
            data: self.data@,
            size: self.size,
            space_id: self.space_id,
            channel_id: self.channel_id,
            storage_key: self.storage_key@,
            file_id: self.file_id,
            stage: self.stage,
        }
    }
}

/// The upload ends with this error.
pub open spec fn upload_fails(step: UploadStep, e: ErrorView) -> bool {
    step matches UploadStep::Done(Err(x)) && x@ == e
}

/// The size of a file of `n` bytes, as stored (at most `i64::MAX`).
pub open spec fn size_of_len(n: nat) -> i64 {
    if n > i64::MAX { i64::MAX } else { n as i64 }
}

/// The refusal of a window's request beyond the limit.
pub open spec fn over_limit() -> ErrorView {
    ErrorView::TooManyRequests(exceeded_message(UPLOAD_WINDOW_SECS), UPLOAD_WINDOW_SECS)
}

/// The file's bytes go to storage, under a fresh key of the uploader.
pub open spec fn stores(v: UploadView, step: UploadStep, data: Seq<u8>) -> bool {
    &&& v.stage == UploadStage::AwaitStored
    &&& step matches UploadStep::StoreFile { key, content_type, data: d } && key@ == v.storage_key
        && content_type@ == v.content_type && d@ == data
    &&& exists|id: u128| #![trigger hyphenated(id)]
        v.storage_key == hyphenated(v.user_id) + "/"@ + hyphenated(id) && version_of(id) == 7
}

/// The fields of an upload that a step keeps.
pub open spec fn same_request(a: UploadView, b: UploadView) -> bool {
    &&& a.max_requests == b.max_requests
    &&& a.max_bytes == b.max_bytes
    &&& a.user_id == b.user_id
}

/// The fields of the file that a step keeps.
pub open spec fn same_file(a: UploadView, b: UploadView) -> bool {
    &&& same_request(a, b)
    &&& a.filename == b.filename
    &&& a.content_type == b.content_type
    &&& a.size == b.size
    &&& a.space_id == b.space_id
    &&& a.channel_id == b.channel_id
}

impl UploadFlow {
    fn ended(&mut self, e: AppError) -> (step: UploadStep)
        ensures
            final(self)@ == (UploadView { stage: UploadStage::Finished, ..old(self)@ }),
            upload_fails(step, e@),
    {
        self.stage = UploadStage::Finished;
        UploadStep::Done(Err(e))
    }

    /// Starts an upload from the request's `Authorization` header: it must
    /// carry a bearer token, whose claims are then read.
    pub fn start(header: Option<&str>, max_requests: u64, max_bytes: i64) -> (r: (UploadFlow, UploadStep))
        ensures
            r.0@.max_requests == max_requests,
            r.0@.max_bytes == max_bytes,
            match header {
                Some(h) => if has_prefix(h@, "Bearer "@) {
                    &&& r.0@.stage == UploadStage::AwaitClaims
                    &&& r.1 matches UploadStep::VerifyToken { token } && h@ == "Bearer "@ + token@
                } else {
                    r.0@.stage == UploadStage::Finished && upload_fails(
                        r.1,
                        ErrorView::Unauthorized("Missing authorization header"@),
                    )
                },
                None => r.0@.stage == UploadStage::Finished && upload_fails(
                    r.1,
                    ErrorView::Unauthorized("Missing authorization header"@),
                ),
            },
    {
        let mut flow = UploadFlow {
            max_requests,
            max_bytes,
            user_id: 0,
            rate_key: String::new(),
            refused: None,
            filename: String::new(),
            content_type: String::new(),
            data: Vec::new(),
            size: 0,
            space_id: None,
            channel_id: None,
            storage_key: String::new(),
            file_id: 0,
            stage: UploadStage::AwaitClaims,
        };
        match bearer_token(header) {
            Ok(t) => (flow, UploadStep::VerifyToken { token: t.to_owned() }),
            Err(e) => {
                let step = flow.ended(e);
                (flow, step)
            },
        }
    }

    /// What the upload waits for.
    pub fn stage(&self) -> (s: UploadStage)
        ensures
            s == self@.stage,
    {
        self.stage
    }

    /// Takes the token's claims: they must name the user by a UUID; the
    /// request is then counted against the user's upload limit.
    pub fn on_claims(&mut self, claims: Result<Claims, AppError>) -> (step: UploadStep)
        requires
            old(self)@.stage == UploadStage::AwaitClaims,
        ensures
            final(self)@.max_requests == old(self)@.max_requests,
            final(self)@.max_bytes == old(self)@.max_bytes,
            match claims {
                Err(e) => final(self)@.stage == UploadStage::Finished && upload_fails(step, e@),
                Ok(c) => match uuid_parse(c.sub@) {
                    Ok(u) => {
                        &&& final(self)@.stage == UploadStage::AwaitCount
                        &&& final(self)@.user_id == u
                        &&& final(self)@.rate_key == "ratelimit:upload:"@ + hyphenated(u)
                        &&& step matches UploadStep::CountRequest { key, window_secs } && key@ == final(self)@.rate_key
                            && window_secs == UPLOAD_WINDOW_SECS
                    },
                    Err(_) => final(self)@.stage == UploadStage::Finished && upload_fails(
                        step,
                        ErrorView::Unauthorized("Invalid user"@),
                    ),
                },
            },
    {
        let c = match claims {
            Ok(c) => c,
            Err(e) => return self.ended(e),
        };
        match claims_user_id(&c) {
            Ok(u) => {
                let text = crate::ids::uuid_to_string(u);
                let key = upload_key(text.as_str());
                self.user_id = u;
                self.rate_key = key.clone();
                self.stage = UploadStage::AwaitCount;
                UploadStep::CountRequest { key, window_secs: UPLOAD_WINDOW_SECS }
            },
            Err(e) => self.ended(e),
        }
    }

    /// Takes the counter after the increment: the window's first request
    /// starts its expiry; a request beyond the limit is refused; otherwise
    /// the form is read.
    pub fn on_count(&mut self, count: Result<u64, AppError>) -> (step: UploadStep)
        requires
            old(self)@.stage == UploadStage::AwaitCount,
        ensures
            same_file(final(self)@, old(self)@),
            final(self)@.rate_key == old(self)@.rate_key,
            match count {
                Err(e) => final(self)@.stage == UploadStage::Finished && upload_fails(step, e@),
                Ok(n) => if n == 1 {
                    &&& final(self)@.stage == UploadStage::AwaitExpiry
                    &&& final(self)@.refused == if n > old(self)@.max_requests {
                        Some(over_limit())
                    } else {
                        None
                    }
                    &&& step matches UploadStep::ExpireWindow { key, window_secs } && key@ == old(self)@.rate_key
                        && window_secs == UPLOAD_WINDOW_SECS
                } else if n > old(self)@.max_requests {
                    final(self)@.stage == UploadStage::Finished && upload_fails(step, over_limit())
                } else {
                    final(self)@.stage == UploadStage::AwaitForm && step is ReadForm
                },
            },
    {
        let n = match count {
            Ok(n) => n,
            Err(e) => return self.ended(e),
        };
        let d = decide(n, self.max_requests, UPLOAD_WINDOW_SECS);
        if d.start_window {
            self.refused = match d.outcome {
                Ok(()) => None,
                Err(e) => Some(e),
            };
            self.stage = UploadStage::AwaitExpiry;
            return UploadStep::ExpireWindow { key: self.rate_key.clone(), window_secs: UPLOAD_WINDOW_SECS };
        }
        match d.outcome {
            Ok(()) => {
                self.stage = UploadStage::AwaitForm;
                UploadStep::ReadForm
            },
            Err(e) => self.ended(e),
        }
    }

    /// Once the window is started: the refusal decided on the count, if
    /// any, or else the form is read.
    pub fn on_expired(&mut self) -> (step: UploadStep)
        requires
            old(self)@.stage == UploadStage::AwaitExpiry,
        ensures
            same_file(final(self)@, old(self)@),
            match old(self)@.refused {
                Some(e) => final(self)@.stage == UploadStage::Finished && upload_fails(step, e),
                None => final(self)@.stage == UploadStage::AwaitForm && step is ReadForm,
            },
    {
        let mut refused = None;
        std::mem::swap(&mut refused, &mut self.refused);
        match refused {
            Some(e) => self.ended(e),
            None => {
                self.stage = UploadStage::AwaitForm;
                UploadStep::ReadForm
            },
        }
    }

    /// Moves the file's bytes to storage under a fresh key.
    fn store(&mut self) -> (step: UploadStep)
        ensures
            same_file(final(self)@, old(self)@),
            stores(final(self)@, step, old(self)@.data),
    {
        let id = crate::ids::now_v7();
        let key = storage_key(self.user_id, id);
        self.storage_key = key.clone();
        let mut data = Vec::new();
        std::mem::swap(&mut data, &mut self.data);
        self.stage = UploadStage::AwaitStored;
        UploadStep::StoreFile { key, content_type: self.content_type.clone(), data }
    }

    /// Takes the form: it must carry bytes; the file must not be too large
    /// and its type must be allowed; a file for a channel needs the right to
    /// send files there; then it is stored.
    pub fn on_form(&mut self, form: Result<UploadForm, AppError>) -> (step: UploadStep)
        requires
            old(self)@.stage == UploadStage::AwaitForm,
        ensures
            same_request(final(self)@, old(self)@),
            match form {
                Err(e) => final(self)@.stage == UploadStage::Finished && upload_fails(step, e@),
                Ok(f) => if f.data@.len() == 0 {
                    final(self)@.stage == UploadStage::Finished && upload_fails(
                        step,
                        ErrorView::BadRequest("No file data provided"@),
                    )
                } else if size_of_len(f.data@.len()) > old(self)@.max_bytes {
                    final(self)@.stage == UploadStage::Finished && upload_fails(
                        step,
                        ErrorView::BadRequest(too_large_message(size_of_len(f.data@.len()), old(self)@.max_bytes)),
                    )
                } else if !allowed_content_type(lowercase(f.content_type@)) {
                    final(self)@.stage == UploadStage::Finished && upload_fails(
                        step,
                        ErrorView::BadRequest("Content type not allowed: "@ + f.content_type@),
                    )
                } else {
                    &&& final(self)@.filename == f.filename@
                    &&& final(self)@.content_type == f.content_type@
                    &&& final(self)@.size == size_of_len(f.data@.len())
                    &&& final(self)@.space_id == f.space_id
                    &&& final(self)@.channel_id == f.channel_id
                    &&& match f.channel_id {
                        Some(_) => {
                            &&& final(self)@.stage == UploadStage::AwaitPermission
                            &&& final(self)@.data == f.data@
                            &&& step matches UploadStep::RequirePermission(q) && q == (PermissionRequest {
                                user_id: old(self)@.user_id,
                                permission: PermissionKey::SendFiles,
                                space_id: f.space_id,
                                channel_id: f.channel_id,
                            })
                        },
                        None => stores(final(self)@, step, f.data@),
                    }
                },
            },
    {
        let f = match form {
            Ok(f) => f,
            Err(e) => return self.ended(e),
        };
        if let Err(e) = f.check_has_data() {
            return self.ended(e);
        }
        let n = f.data.len();
        let size: i64 = if n as u64 > i64::MAX as u64 { i64::MAX } else { n as i64 };
        if let Err(e) = check_upload(size, self.max_bytes, f.content_type.as_str()) {
            return self.ended(e);
        }
        self.filename = f.filename;
        self.content_type = f.content_type;
        self.data = f.data;
        self.size = size;
        self.space_id = f.space_id;
        self.channel_id = f.channel_id;
        match upload_permission(self.user_id, self.space_id, self.channel_id) {
            Some(q) => {
                self.stage = UploadStage::AwaitPermission;
                UploadStep::RequirePermission(q)
            },
            None => self.store(),
        }
    }

    /// Takes the outcome of the check of the right to send files: a denial
    /// is forbidden with its reason; otherwise the file is stored.
    pub fn on_permission(&mut self, outcome: Result<PermissionResult, AppError>) -> (step: UploadStep)
        requires
            old(self)@.stage == UploadStage::AwaitPermission,
        ensures
            same_file(final(self)@, old(self)@),
            match outcome {
                Err(e) => final(self)@.stage == UploadStage::Finished && upload_fails(step, e@),
                Ok(r) => match r@ {
                    Decision::Denied(reason) => final(self)@.stage == UploadStage::Finished && upload_fails(
                        step,
                        ErrorView::Forbidden(reason),
                    ),
                    Decision::Allowed => stores(final(self)@, step, old(self)@.data),
                },
            },
    {
        let r = match outcome {
            Ok(r) => r,
            Err(e) => return self.ended(e),
        };
        match require_allowed(r) {
            Ok(()) => self.store(),
            Err(e) => self.ended(e),
        }
    }

    /// Takes the outcome of storing: a failure is an internal error with its
    /// text; otherwise the file is recorded.
    pub fn on_stored(&mut self, result: Result<(), String>) -> (step: UploadStep)
        requires
            old(self)@.stage == UploadStage::AwaitStored,
        ensures
            same_file(final(self)@, old(self)@),
            final(self)@.storage_key == old(self)@.storage_key,
            match result {
                Err(m) => final(self)@.stage == UploadStage::Finished && upload_fails(
                    step,
                    ErrorView::InternalServerError(m@),
                ),
                Ok(_) => {
                    &&& final(self)@.stage == UploadStage::AwaitRecord
                    &&& step matches UploadStep::CreateRecord(rec) && rec.space_id == old(self)@.space_id
                        && rec.channel_id == old(self)@.channel_id && rec.uploader_user_id == old(self)@.user_id
                        && rec.filename@ == old(self)@.filename && rec.content_type@ == old(self)@.content_type
                        && rec.size_bytes == old(self)@.size && rec.storage_key@ == old(self)@.storage_key
                },
            },
    {
        match result {
            Err(m) => self.ended(AppError::InternalServerError(m)),
            Ok(()) => {
                self.stage = UploadStage::AwaitRecord;
                UploadStep::CreateRecord(
                    UploadRecord {
                        space_id: self.space_id,
                        channel_id: self.channel_id,
                        uploader_user_id: self.user_id,
                        filename: self.filename.clone(),
                        content_type: self.content_type.clone(),
                        size_bytes: self.size,
                        storage_key: self.storage_key.clone(),
                    },
                )
            },
        }
    }

    /// Takes the recorded file's id; the upload is then written to the
    /// audit log.
    pub fn on_record(&mut self, result: Result<u128, AppError>) -> (step: UploadStep)
        requires
            old(self)@.stage == UploadStage::AwaitRecord,
        ensures
            same_file(final(self)@, old(self)@),
            match result {
                Err(e) => final(self)@.stage == UploadStage::Finished && upload_fails(step, e@),
                Ok(id) => {
                    &&& final(self)@.stage == UploadStage::AwaitAudit
                    &&& final(self)@.file_id == id
                    &&& step matches UploadStep::LogUpload { user_id, space_id, channel_id } && user_id
                        == old(self)@.user_id && space_id == old(self)@.space_id && channel_id == old(self)@.channel_id
                },
            },
    {
        match result {
            Err(e) => self.ended(e),
            Ok(id) => {
                self.file_id = id;
                self.stage = UploadStage::AwaitAudit;
                UploadStep::LogUpload { user_id: self.user_id, space_id: self.space_id, channel_id: self.channel_id }
            },
        }
    }

    /// Once the upload is in the audit log, the recorded file is looked up
    /// for its download address.
    pub fn on_logged(&mut self, result: Result<(), AppError>) -> (step: UploadStep)
        requires
            old(self)@.stage == UploadStage::AwaitAudit,
        ensures
            same_file(final(self)@, old(self)@),
            final(self)@.file_id == old(self)@.file_id,
            match result {
                Err(e) => final(self)@.stage == UploadStage::Finished && upload_fails(step, e@),
                Ok(_) => {
                    &&& final(self)@.stage == UploadStage::AwaitFile
                    &&& step matches UploadStep::LookupFile { file_id } && file_id == old(self)@.file_id
                },
            },
    {
        match result {
            Err(e) => self.ended(e),
            Ok(()) => {
                self.stage = UploadStage::AwaitFile;
                UploadStep::LookupFile { file_id: self.file_id }
            },
        }
    }

    /// Takes the recorded file's space, channel and storage key: a file of a
    /// channel asks whether the uploader may view it (the answer does not
    /// change the outcome); then its download address is asked for.
    pub fn on_file(&mut self, found: Result<(Option<u128>, Option<u128>, String), AppError>) -> (step: UploadStep)
        requires
            old(self)@.stage == UploadStage::AwaitFile,
        ensures
            same_request(final(self)@, old(self)@),
            match found {
                Err(e) => final(self)@.stage == UploadStage::Finished && upload_fails(step, e@),
                Ok((s, c, key)) => {
                    &&& final(self)@.storage_key == key@
                    &&& match c {
                        Some(_) => {
                            &&& final(self)@.stage == UploadStage::AwaitViewCheck
                            &&& step matches UploadStep::AskPermission(q) && q == (PermissionRequest {
                                user_id: old(self)@.user_id,
                                permission: PermissionKey::ViewChannel,
                                space_id: s,
                                channel_id: c,
                            })
                        },
                        None => {
                            &&& final(self)@.stage == UploadStage::AwaitUrl
                            &&& step matches UploadStep::DownloadUrl { key: k } && k@ == key@
                        },
                    }
                },
            },
    {
        let (s, c, key) = match found {
            Ok(t) => t,
            Err(e) => return self.ended(e),
        };
        self.storage_key = key;
        match download_permission(self.user_id, s, c) {
            Some(q) => {
                self.stage = UploadStage::AwaitViewCheck;
                UploadStep::AskPermission(q)
            },
            None => {
                self.stage = UploadStage::AwaitUrl;
                UploadStep::DownloadUrl { key: self.storage_key.clone() }
            },
        }
    }

    /// Takes the outcome of the view check: only a failure to check ends the
    /// upload; otherwise the download address is asked for.
    pub fn on_view(&mut self, outcome: Result<bool, AppError>) -> (step: UploadStep)
        requires
            old(self)@.stage == UploadStage::AwaitViewCheck,
        ensures
            same_request(final(self)@, old(self)@),
            match outcome {
                Err(e) => final(self)@.stage == UploadStage::Finished && upload_fails(step, e@),
                Ok(_) => {
                    &&& final(self)@.stage == UploadStage::AwaitUrl
                    &&& step matches UploadStep::DownloadUrl { key } && key@ == old(self)@.storage_key
                },
            },
    {
        match outcome {
            Err(e) => self.ended(e),
            Ok(_) => {
                self.stage = UploadStage::AwaitUrl;
                UploadStep::DownloadUrl { key: self.storage_key.clone() }
            },
        }
    }

    /// Takes the download address, which answers the upload; a failure is
    /// an internal error with its text.
    pub fn on_url(&mut self, url: Result<String, String>) -> (step: UploadStep)
        requires
            old(self)@.stage == UploadStage::AwaitUrl,
        ensures
            final(self)@.stage == UploadStage::Finished,
            match url {
                Err(m) => upload_fails(step, ErrorView::InternalServerError(m@)),
                Ok(u) => step matches UploadStep::Done(Ok(x)) && x@ == u@,
            },
    {
        self.stage = UploadStage::Finished;
        match url {
            Err(m) => UploadStep::Done(Err(AppError::InternalServerError(m))),
            Ok(u) => UploadStep::Done(Ok(u)),
        }
    }
}

} // verus!
