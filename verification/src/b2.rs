//! Backblaze B2 storage: the account session, where files are stored, and
//! how B2's answers are read.
use vstd::prelude::*;

use crate::codec::{base64_encoded, encode_base64};
use crate::error::{internal_server_error, ApiError, INTERNAL_SERVER_ERROR};
use crate::text::str_equals;
use vstd::utf8::encode_utf8;

verus! {

/// `std::time::Instant`, a moment on the machine's monotonic clock.
#[verifier::external_type_specification]
#[verifier::external_body]
pub struct ExInstant(std::time::Instant);

/// `std::time::Instant::now`: the current moment. Nothing is claimed of it.
#[verifier::external_body]
fn instant_now() -> std::time::Instant {
    std::time::Instant::now()
}

/// The credentials of a B2 application key.
#[derive(Debug)]
pub struct Config {
    pub id: String,
    pub key: String,
}

/// A B2 session: when its token was obtained, the key it was obtained
/// with, and what B2 answered (empty before the first login).
#[derive(Debug)]
pub struct B2 {
    pub token_time: std::time::Instant,
    pub config: Config,
    pub account_id: String,
    pub authorization_token: String,
    pub api_url: String,
    pub download_url: String,
    pub bucket_id: String,
}

/// What B2 answers to a login.
#[derive(Debug)]
pub struct B2AuthorizeAccountResponse {
    pub account_id: String,
    pub authorization_token: String,
    pub api_url: String,
    pub download_url: String,
}

/// A session token is renewed once it is older than 12 hours.
pub open spec fn token_expired(age_secs: u64) -> bool {
    age_secs > 43200
}

/// The credentials of a login: key id, a colon, key.
pub open spec fn login_credentials(config: Config) -> Seq<char> {
    config.id@ + ":"@ + config.key@
}

impl B2 {
    /// A session with the given key, not yet logged in, whose token time
    /// is `now`.
    pub fn new_at(config: Config, now: std::time::Instant) -> (b2: B2)
        ensures
            b2.token_time == now,
            b2.config == config,
            b2.account_id@ == Seq::<char>::empty(),
            b2.authorization_token@ == Seq::<char>::empty(),
            b2.api_url@ == Seq::<char>::empty(),
            b2.download_url@ == Seq::<char>::empty(),
            b2.bucket_id@ == Seq::<char>::empty(),
    {
        B2 {
            token_time: now,
            config,
            account_id: String::new(),
            authorization_token: String::new(),
            api_url: String::new(),
            download_url: String::new(),
            bucket_id: String::new(),
        }
    }

    /// A session with the given key, not yet logged in, whose token time is
    /// the moment of the call (see `new_at`).
    pub fn new(config: Config) -> (b2: B2)
        ensures
            b2.config == config,
            b2.account_id@ == Seq::<char>::empty(),
            b2.authorization_token@ == Seq::<char>::empty(),
            b2.api_url@ == Seq::<char>::empty(),
            b2.download_url@ == Seq::<char>::empty(),
            b2.bucket_id@ == Seq::<char>::empty(),
    {
        B2::new_at(config, instant_now())
    }

    /// Sets the bucket that files go to.
    pub fn set_bucket_id(&mut self, v: String)
        ensures
            final(self).bucket_id == v,
            final(self).config == old(self).config,
            final(self).account_id == old(self).account_id,
            final(self).authorization_token == old(self).authorization_token,
            final(self).api_url == old(self).api_url,
            final(self).download_url == old(self).download_url,
            final(self).token_time == old(self).token_time,
    {
        self.bucket_id = v;
    }

    /// Whether a session token obtained `age_secs` seconds ago must be
    /// renewed: it is older than 12 hours.
    pub fn token_expired_after(age_secs: u64) -> (r: bool)
        ensures
            r == token_expired(age_secs),
    {
        age_secs > 43200
    }

    /// The `Authorization` header of a login: "Basic " and the base64 of
    /// the credentials.
    pub fn login_authorization(&self) -> (r: String)
        requires
            encode_utf8(login_credentials(self.config)).len() <= usize::MAX / 2,
        ensures
            r@ == "Basic "@ + base64_encoded(encode_utf8(login_credentials(self.config))),
    {
        let mut credentials = self.config.id.clone();
        credentials.append(":");
        credentials.append(self.config.key.as_str());
        let bytes = credentials.as_str().as_bytes();
        let encoded = encode_base64(bytes);
        let mut header = String::from_str("Basic ");
        header.append(encoded.as_str());
        header
    }

    /// The session after a successful login at `now`: B2's answer, and a
    /// token obtained at `now`.
    pub fn apply_login_at(&mut self, response: B2AuthorizeAccountResponse, now: std::time::Instant)
        ensures
            final(self).account_id == response.account_id,
            final(self).authorization_token == response.authorization_token,
            final(self).api_url == response.api_url,
            final(self).download_url == response.download_url,
            final(self).token_time == now,
            final(self).config == old(self).config,
            final(self).bucket_id == old(self).bucket_id,
    {
        self.account_id = response.account_id;
        self.authorization_token = response.authorization_token;
        self.api_url = response.api_url;
        self.download_url = response.download_url;
        self.token_time = now;
    }

    /// The session after a successful login: B2's answer, and a token
    /// obtained at the moment of the call (see `apply_login_at`).
    pub fn apply_login(&mut self, response: B2AuthorizeAccountResponse)
        ensures
            final(self).account_id == response.account_id,
            final(self).authorization_token == response.authorization_token,
            final(self).api_url == response.api_url,
            final(self).download_url == response.download_url,
            final(self).config == old(self).config,
            final(self).bucket_id == old(self).bucket_id,
    {
        self.apply_login_at(response, instant_now());
    }

    /// The endpoint that hands out upload URLs.
    pub fn upload_url_endpoint(&self) -> (r: String)
        ensures
            r@ == self.api_url@ + "/b2api/v2/b2_get_upload_url"@,
    {
        let mut url = self.api_url.clone();
        url.append("/b2api/v2/b2_get_upload_url");
        url
    }

    /// The endpoint that deletes a file version.
    pub fn delete_file_endpoint(&self) -> (r: String)
        ensures
            r@ == self.api_url@ + "/b2api/v2/b2_delete_file_version"@,
    {
        let mut url = self.api_url.clone();
        url.append("/b2api/v2/b2_delete_file_version");
        url
    }
}

/// Where a file is stored: under its folder where it has one, else under
/// "public/".
pub open spec fn storage_path(sub_folder: Option<Seq<char>>, file_id: Seq<char>) -> Seq<char> {
    match sub_folder {
        Some(folder) => folder + "/"@ + file_id,
        None => "public/"@ + file_id,
    }
}

/// The path under which a file is stored.
pub fn upload_path(sub_folder: &Option<String>, file_id: &str) -> (r: String)
    ensures
        r@ == storage_path(crate::dto::opt_chars(*sub_folder), file_id@),
{
    match sub_folder {
        Some(folder) => {
            let mut path = folder.clone();
            path.append("/");
            path.append(file_id);
            path
        },
        None => {
            let mut path = String::from_str("public/");
            path.append(file_id);
            path
        },
    }
}

/// What B2 answers to an upload.
#[derive(Debug)]
pub struct BackblazeUploadFileResponse {
    pub bucket_id: String,
    pub content_length: u64,
    pub content_md5: String,
    pub content_sha1: String,
    pub content_type: String,
    pub file_id: String,
    pub file_name: String,
    pub upload_timestamp: u64,
}

/// What B2 answers to a request for an upload URL.
#[derive(Debug)]
pub struct BackblazeUploadUrlResponse {
    pub bucket_id: String,
    pub upload_url: String,
    pub authorization_token: String,
}

/// What B2 answers to a deletion that succeeded.
#[derive(Debug)]
pub struct BackblazeDeleteFileResponse {
    pub file_id: String,
    pub file_name: String,
}

/// What B2 answers to a deletion that failed.
#[derive(Debug)]
pub struct BackblazeDeleteFileError {
    pub code: String,
    pub message: String,
    pub status: u16,
}

/// The error codes of a failed deletion that the service tells apart.
#[derive(Debug)]
pub struct BackBlazeDeleteFileErrorCode;

impl BackBlazeDeleteFileErrorCode {
    pub const FILE_NOT_PRESENT: &'static str = "file_not_present";
}

/// What came back from a deletion request.
#[derive(Debug)]
pub enum DeleteFileReply {
    /// B2 deleted the file.
    Deleted(BackblazeDeleteFileResponse),
    /// B2 refused, with this error.
    Refused(BackblazeDeleteFileError),
    /// B2's answer could not be read as either.
    Unreadable,
    /// The request did not get an answer.
    NoAnswer,
}

/// The outcome of a deletion: the deleted file; nothing where the file was
/// already gone; the internal error otherwise.
pub fn delete_file_outcome(reply: DeleteFileReply) -> (r: Result<
    Option<BackblazeDeleteFileResponse>,
    ApiError,
>)
    ensures
        reply matches DeleteFileReply::Deleted(d) ==> r == Ok::<
            Option<BackblazeDeleteFileResponse>,
            ApiError,
        >(Some(d)),
        reply matches DeleteFileReply::Refused(e) && e.code@
            == BackBlazeDeleteFileErrorCode::FILE_NOT_PRESENT@ ==> r == Ok::<
            Option<BackblazeDeleteFileResponse>,
            ApiError,
        >(None),
        !(reply is Deleted || (reply matches DeleteFileReply::Refused(e) && e.code@
            == BackBlazeDeleteFileErrorCode::FILE_NOT_PRESENT@)) ==> (r matches Err(err)
            && err.code == INTERNAL_SERVER_ERROR && err.message@
            == crate::error::internal_error_message()),
{
    match reply {
        DeleteFileReply::Deleted(d) => Ok(Some(d)),
        DeleteFileReply::Refused(e) => {
            if str_equals(e.code.as_str(), BackBlazeDeleteFileErrorCode::FILE_NOT_PRESENT) {
                Ok(None)
            } else {
                Err(internal_server_error())
            }
        },
        DeleteFileReply::Unreadable => Err(internal_server_error()),
        DeleteFileReply::NoAnswer => Err(internal_server_error()),
    }
}

} // verus!
