//! File uploads: the form that carries them, the checks they pass, and the
//! key under which they are stored.

use vstd::prelude::*;
use crate::error::{AppError, ErrorView};
use crate::ids::{hyphenated, push_uuid, uuid_parse};
use crate::permissions::keys::PermissionKey;
use crate::permissions::service::PermissionRequest;
use crate::slug::{all_ascii, ascii_lower, is_ascii_char, lowercase, to_lowercase};
use crate::text::{push_char, push_signed_decimal, push_str, signed_decimal, str_equal};

verus! {

/// The content types that may be uploaded.
pub open spec fn allowed_content_type(t: Seq<char>) -> bool {
    ||| t == "image/jpeg"@
    ||| t == "image/png"@
    ||| t == "image/gif"@
    ||| t == "image/webp"@
    ||| t == "application/pdf"@
    ||| t == "text/plain"@
    ||| t == "application/zip"@
    ||| t == "application/x-tar"@
    ||| t == "application/gzip"@
}

/// Whether a (lowercased) content type may be uploaded.
pub fn is_allowed_content_type(t: &str) -> (b: bool)
    ensures
        b == allowed_content_type(t@),
{
    str_equal(t, "image/jpeg") || str_equal(t, "image/png") || str_equal(t, "image/gif")
        || str_equal(t, "image/webp") || str_equal(t, "application/pdf") || str_equal(t, "text/plain")
        || str_equal(t, "application/zip") || str_equal(t, "application/x-tar")
        || str_equal(t, "application/gzip")
}

pub open spec fn too_large_message(size: i64, max: i64) -> Seq<char> {
    "File too large: "@ + signed_decimal(size as int) + " bytes (max: "@ + signed_decimal(max as int) + ")"@
}

/// Checks an upload of `size` bytes: it may not exceed the limit, and its
/// content type, read without regard to case, must be allowed.
pub fn check_upload(size: i64, max_upload_bytes: i64, content_type: &str) -> (r: Result<(), AppError>)
    ensures
        r is Ok <==> size <= max_upload_bytes && allowed_content_type(lowercase(content_type@)),
        size > max_upload_bytes ==> r is Err && r->Err_0@ == ErrorView::BadRequest(too_large_message(size, max_upload_bytes)),
        size <= max_upload_bytes && !allowed_content_type(lowercase(content_type@)) ==> r is Err
            && r->Err_0@ == ErrorView::BadRequest("Content type not allowed: "@ + content_type@),
        all_ascii(content_type@) ==> (r is Ok <==> size <= max_upload_bytes && allowed_content_type(
            ascii_lower(content_type@),
        )),
{
    if size > max_upload_bytes {
        let mut m = "File too large: ".to_owned();
        push_signed_decimal(&mut m, size);
        push_str(&mut m, " bytes (max: ");
        push_signed_decimal(&mut m, max_upload_bytes);
        push_str(&mut m, ")");
        return Err(AppError::BadRequest(m));
    }
    let lower = to_lowercase(content_type);
    if !is_allowed_content_type(lower.as_str()) {
        let mut m = "Content type not allowed: ".to_owned();
        push_str(&mut m, content_type);
        return Err(AppError::BadRequest(m));
    }
    Ok(())
}

/// An upload into a channel needs the right to send files there.
pub fn upload_permission(user_id: u128, space_id: Option<u128>, channel_id: Option<u128>) -> (r: Option<PermissionRequest>)
    ensures
        channel_id is None ==> r is None,
        channel_id is Some ==> r == Some(PermissionRequest {
            user_id,
            permission: PermissionKey::SendFiles,
            space_id,
            channel_id,
        }),
{
    match channel_id {
        Some(c) => Some(PermissionRequest { user_id, permission: PermissionKey::SendFiles, space_id, channel_id: Some(c) }),
        None => None,
    }
}

/// Fetching a channel file asks whether the user may view the channel; the
/// answer does not stop the download, only a failure to check does.
pub fn download_permission(user_id: u128, space_id: Option<u128>, channel_id: Option<u128>) -> (r: Option<PermissionRequest>)
    ensures
        channel_id is None ==> r is None,
        channel_id is Some ==> r == Some(PermissionRequest {
            user_id,
            permission: PermissionKey::ViewChannel,
            space_id,
            channel_id,
        }),
{
    match channel_id {
        Some(c) => Some(PermissionRequest { user_id, permission: PermissionKey::ViewChannel, space_id, channel_id: Some(c) }),
        None => None,
    }
}

/// The storage key of an upload: the uploader, a slash, the file's id.
pub fn storage_key(user_id: u128, file_id: u128) -> (k: String)
    ensures
        k@ == hyphenated(user_id) + "/"@ + hyphenated(file_id),
{
    let mut k = String::new();
    push_uuid(&mut k, user_id);
    push_char(&mut k, '/');
    push_uuid(&mut k, file_id);
    assert(k@ =~= hyphenated(user_id) + "/"@ + hyphenated(file_id)) by {
        reveal_strlit("/");
    }
    k
}

/// Only the uploader may delete a file.
pub fn check_file_owner(uploader_user_id: u128, user_id: u128) -> (r: Result<(), AppError>)
    ensures
        r is Ok <==> uploader_user_id == user_id,
        r is Err ==> r->Err_0@ == ErrorView::Forbidden("You can only delete your own files"@),
{
    if uploader_user_id != user_id {
        return Err(crate::error::forbidden("You can only delete your own files"));
    }
    Ok(())
}

// ---------------------------------------------------------------------------
// The upload form

/// A part of an upload form, by its name.
#[derive(Debug, Clone, Copy, PartialEq, Eq, Structural)]
pub enum UploadField {
    File,
    SpaceId,
    ChannelId,
    Other,
}

pub open spec fn upload_field_named(name: Seq<char>) -> UploadField {
    if name == "file"@ {
        UploadField::File
    } else if name == "space_id"@ {
        UploadField::SpaceId
    } else if name == "channel_id"@ {
        UploadField::ChannelId
    } else {
        UploadField::Other
    }
}

/// Which part of the form a field is (a field without a name is none of them).
pub fn classify_upload_field(name: Option<&str>) -> (f: UploadField)
    ensures
        f == match name {
            Some(n) => upload_field_named(n@),
            None => upload_field_named(""@),
        },
{
    let n = match name {
        Some(n) => n,
        None => "",
    };
    if str_equal(n, "file") {
        UploadField::File
    } else if str_equal(n, "space_id") {
        UploadField::SpaceId
    } else if str_equal(n, "channel_id") {
        UploadField::ChannelId
    } else {
        UploadField::Other
    }
}

/// What the form has given so far.
pub struct UploadForm {
    pub filename: String,
    pub content_type: String,
    pub data: Vec<u8>,
    pub space_id: Option<u128>,
    pub channel_id: Option<u128>,
}

/// An id field: empty means absent, otherwise it must be a UUID.
pub open spec fn id_field(text: Seq<char>, invalid: Seq<char>) -> Result<Option<u128>, ErrorView> {
    if text.len() == 0 {
        Ok(None)
    } else {
        match uuid_parse(text) {
            Ok(u) => Ok(Some(u)),
            Err(_) => Err(ErrorView::BadRequest(invalid)),
        }
    }
}

fn read_id_field(text: &str, invalid: &str) -> (r: Result<Option<u128>, AppError>)
    ensures
        match id_field(text@, invalid@) {
            Ok(v) => r == Ok::<Option<u128>, AppError>(v),
            Err(e) => r is Err && r->Err_0@ == e,
        },
        forall|u: u128| #[trigger] hyphenated(u) == text@ ==> r == Ok::<Option<u128>, AppError>(Some(u)),
{
    if text.unicode_len() == 0 {
        return Ok(None);
    }
    match crate::ids::read_uuid(text) {
        Ok(u) => Ok(Some(u)),
        Err(_) => Err(crate::error::bad_request(invalid)),
    }
}

impl UploadForm {
    /// An empty form.
    pub fn new() -> (f: UploadForm)
        ensures
            f.filename@ == Seq::<char>::empty(),
            f.content_type@ == Seq::<char>::empty(),
            f.data@ == Seq::<u8>::empty(),
            f.space_id is None,
            f.channel_id is None,
    {
        UploadForm { filename: String::new(), content_type: String::new(), data: Vec::new(), space_id: None, channel_id: None }
    }

    /// Takes the file part: its name (`unknown` when it has none), its
    /// content type (`application/octet-stream` when it has none) and bytes.
    pub fn accept_file(&mut self, filename: Option<&str>, content_type: Option<&str>, data: Vec<u8>)
        ensures
            final(self).filename@ == match filename {
                Some(n) => n@,
                None => "unknown"@,
            },
            final(self).content_type@ == match content_type {
                Some(t) => t@,
                None => "application/octet-stream"@,
            },
            final(self).data@ == data@,
            final(self).space_id == old(self).space_id,
            final(self).channel_id == old(self).channel_id,
    {
        self.filename = match filename {
            Some(n) => n.to_owned(),
            None => "unknown".to_owned(),
        };
        self.content_type = match content_type {
            Some(t) => t.to_owned(),
            None => "application/octet-stream".to_owned(),
        };
        self.data = data;
    }

    /// Takes the `space_id` part.
    pub fn accept_space_id(&mut self, text: &str) -> (r: Result<(), AppError>)
        ensures
            match id_field(text@, "Invalid space_id"@) {
                Ok(v) => r is Ok && final(self).space_id == v,
                Err(e) => r is Err && r->Err_0@ == e && final(self).space_id == old(self).space_id,
            },
            forall|u: u128| #[trigger] hyphenated(u) == text@ ==> r is Ok && final(self).space_id == Some(u),
            final(self).channel_id == old(self).channel_id,
            final(self).data == old(self).data,
            final(self).filename == old(self).filename,
            final(self).content_type == old(self).content_type,
    {
        let v = read_id_field(text, "Invalid space_id")?;
        self.space_id = v;
        Ok(())
    }

    /// Takes the `channel_id` part.
    pub fn accept_channel_id(&mut self, text: &str) -> (r: Result<(), AppError>)
        ensures
            match id_field(text@, "Invalid channel_id"@) {
                Ok(v) => r is Ok && final(self).channel_id == v,
                Err(e) => r is Err && r->Err_0@ == e && final(self).channel_id == old(self).channel_id,
            },
            forall|u: u128| #[trigger] hyphenated(u) == text@ ==> r is Ok && final(self).channel_id == Some(u),
            final(self).space_id == old(self).space_id,
            final(self).data == old(self).data,
            final(self).filename == old(self).filename,
            final(self).content_type == old(self).content_type,
    {
        let v = read_id_field(text, "Invalid channel_id")?;
        self.channel_id = v;
        Ok(())
    }

    /// A form without file bytes is refused.
    pub fn check_has_data(&self) -> (r: Result<(), AppError>)
        ensures
            r is Ok <==> self.data@.len() > 0,
            r is Err ==> r->Err_0@ == ErrorView::BadRequest("No file data provided"@),
    {
        if self.data.len() == 0 {
            return Err(crate::error::bad_request("No file data provided"));
        }
        Ok(())
    }
}

/// A text of ASCII characters none of which is a capital is its own
/// lowercase.
proof fn lemma_lower_fixed(t: Seq<char>)
    requires
        forall|i: int| 0 <= i < t.len() ==> is_ascii_char(#[trigger] t[i]) && !('A' <= t[i] && t[i] <= 'Z'),
    ensures
        all_ascii(t),
        ascii_lower(t) == t,
{
    assert(ascii_lower(t) =~= t);
}

/// The uploadable content types are exactly these nine: JPEG, PNG, GIF and
/// WebP images, PDF, plain text, and zip, tar and gzip archives. Each is
/// already lowercase ASCII, so an upload of one of them within the size
/// limit passes `check_upload`, in any mix of cases.
pub proof fn lemma_allowed_content_types(t: Seq<char>)
    ensures
        allowed_content_type(t) <==> (t == "image/jpeg"@ || t == "image/png"@ || t == "image/gif"@ || t
            == "image/webp"@ || t == "application/pdf"@ || t == "text/plain"@ || t == "application/zip"@ || t
            == "application/x-tar"@ || t == "application/gzip"@),
        allowed_content_type(t) ==> all_ascii(t) && ascii_lower(t) == t,
{
    if allowed_content_type(t) {
        reveal_strlit("image/jpeg");
        reveal_strlit("image/png");
        reveal_strlit("image/gif");
        reveal_strlit("image/webp");
        reveal_strlit("application/pdf");
        reveal_strlit("text/plain");
        reveal_strlit("application/zip");
        reveal_strlit("application/x-tar");
        reveal_strlit("application/gzip");
        lemma_lower_fixed(t);
    }
}

} // verus!
