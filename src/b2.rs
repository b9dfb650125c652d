//! Client for the B2 object store: authorization, the existence probe, and
//! the retrying upload, each as the request to send and the decision taken
//! on the reply.

use base64::Engine;
use vstd::prelude::*;
use vstd::utf8::encode_utf8;

use crate::http::{is_success, pair_views, push_pair, status_is_success, HttpRequest, Method, Reply};
use crate::key::{object_name, object_name_for, sha1_hash, sha1_hex};
use crate::text::{decimal, push_decimal};

verus! {

/// The character of a six-bit value in the standard base64 alphabet.
pub open spec fn base64_char(n: int) -> char {
    if n < 26 {
        (65 + n) as char
    } else if n < 52 {
        (97 + (n - 26)) as char
    } else if n < 62 {
        (48 + (n - 52)) as char
    } else if n == 62 {
        '+'
    } else {
        '/'
    }
}

/// Standard base64 encoding with padding: each group of three bytes becomes
/// four characters of six bits each; a last group of one or two bytes is
/// padded with `=` to four characters.
pub open spec fn base64_of(d: Seq<u8>) -> Seq<char>
    decreases d.len(),
{
    if d.len() == 0 {
        Seq::empty()
    } else if d.len() == 1 {
        seq![base64_char(d[0] as int / 4), base64_char((d[0] as int % 4) * 16), '=', '=']
    } else if d.len() == 2 {
        seq![
            base64_char(d[0] as int / 4),
            base64_char((d[0] % 4) * 16 + d[1] / 16),
            base64_char((d[1] % 16) * 4),
            '=',
        ]
    } else {
        seq![
            base64_char(d[0] as int / 4),
            base64_char((d[0] % 4) * 16 + d[1] / 16),
            base64_char((d[1] % 16) * 4 + d[2] / 64),
            base64_char(d[2] as int % 64),
        ] + base64_of(d.subrange(3, d.len() as int))
    }
}

/// Relies on `base64::engine::general_purpose::STANDARD.encode`: the
/// padded standard base64 text of `data`.
#[verifier::external_body]
fn base64_encode(data: &[u8]) -> (r: String)
    ensures
        r@ == base64_of(data@),
{
    base64::engine::general_purpose::STANDARD.encode(data)
}

/// The most upload attempts made for one object.
pub const MAX_UPLOAD_ATTEMPTS: u64 = 5;

/// The application key pair that authorization exchanges for a session.
#[derive(Clone, Debug)]
pub struct ClientBuilder {
    pub application_key: String,
    pub application_key_id: String,
}

/// The fields of the authorization reply that the client uses.
#[derive(Clone, Debug)]
pub struct AuthResponse {
    pub api_url: String,
    pub authorization_token: String,
    pub bucket_id: String,
    pub bucket_name: String,
    pub download_url: String,
}

/// An authorized session.
#[derive(Clone, Debug)]
pub struct Auth {
    pub api_url: String,
    pub token: String,
    pub bucket_id: String,
    pub bucket_name: String,
    pub download_url: String,
}

/// A client holding an authorized session.
#[derive(Clone, Debug)]
pub struct Client {
    pub auth: Auth,
}

/// A single-use upload URL and the token that goes with it.
#[derive(Clone, Debug)]
pub struct UploadTicket {
    pub upload_url: String,
    pub authorization_token: String,
}

/// The structured error body the store sends with a rejected request.
#[derive(Clone, Debug)]
pub struct ErrorResponse {
    pub code: String,
    pub message: String,
    pub status: u16,
}

#[derive(Clone, Debug)]
pub enum Error {
    /// The authorization endpoint could not be reached or read.
    Authorize { message: String },
    /// The upload-URL endpoint could not be reached or read.
    GetUploadUrl { message: String },
    /// An upload could not be sent.
    UploadRequest { message: String },
    /// The existence probe could not be sent or its body read.
    Download { message: String },
    /// A reply came with a status that the exchange does not accept.
    Status { status: u16 },
    /// A reply body did not have the expected shape.
    Deserialize { message: String },
    /// Every upload attempt was rejected; the last rejection.
    Upload { details: ErrorResponse },
    /// An event came that the current stage does not wait for.
    OutOfOrder,
}

impl ErrorResponse {
    pub open spec fn spec_to_string(&self) -> Seq<char> {
        "code: '"@ + self.code@ + ", "@
            + (if self.message@.len() == 0 {
                Seq::empty()
            } else {
                "message: '"@ + self.message@ + ", "@
            }) + "status: "@ + decimal(self.status as nat)
    }

    /// `code: '<code>, message: '<message>, status: <status>`, the message
    /// part left out when the message is empty.
    pub fn to_string(&self) -> (r: String)
        ensures
            r@ == self.spec_to_string(),
    {
        let mut s = "code: '".to_owned();
        s.append(self.code.as_str());
        s.append(", ");
        if self.message.as_str().unicode_len() > 0 {
            s.append("message: '");
            s.append(self.message.as_str());
            s.append(", ");
        }
        s.append("status: ");
        push_decimal(&mut s, self.status as u64);
        assert(s@ =~= self.spec_to_string());
        s
    }
}

impl Auth {
    pub open spec fn spec_from(r: AuthResponse) -> Auth {
        Auth {
            api_url: r.api_url,
            token: r.authorization_token,
            bucket_id: r.bucket_id,
            bucket_name: r.bucket_name,
            download_url: r.download_url,
        }
    }

    pub fn from_response(r: AuthResponse) -> (a: Auth)
        ensures
            a == Auth::spec_from(r),
    {
        Auth {
            api_url: r.api_url,
            token: r.authorization_token,
            bucket_id: r.bucket_id,
            bucket_name: r.bucket_name,
            download_url: r.download_url,
        }
    }
}

impl ClientBuilder {
    pub fn new(application_key_id: String, application_key: String) -> (r: Self)
        ensures
            r.application_key_id == application_key_id,
            r.application_key == application_key,
    {
        ClientBuilder { application_key_id, application_key }
    }

    /// `Basic ` followed by the base64 of `<key id>:<key>`.
    pub open spec fn spec_auth_header(&self) -> Seq<char> {
        "Basic "@ + base64_of(
            encode_utf8(self.application_key_id@ + ":"@ + self.application_key@),
        )
    }

    pub open spec fn spec_authorize_request(&self) -> crate::http::RequestView {
        crate::http::RequestView {
            method: Method::Get,
            url: "https://api.backblazeb2.com/b2api/v3/b2_authorize_account"@,
            headers: seq![("Authorization"@, self.spec_auth_header())],
            query: Seq::empty(),
            body: Seq::empty(),
        }
    }

    /// The account-authorization request for these credentials.
    pub fn authorize_request(&self) -> (r: HttpRequest)
        ensures
            r@ == self.spec_authorize_request(),
    {
        let mut credentials = self.application_key_id.clone();
        credentials.append(":");
        credentials.append(self.application_key.as_str());
        let mut header = "Basic ".to_owned();
        let encoded = base64_encode(credentials.as_str().as_bytes());
        header.append(encoded.as_str());
        let mut headers: Vec<(String, String)> = Vec::new();
        push_pair(&mut headers, "Authorization", header.as_str());
        let r = HttpRequest {
            method: Method::Get,
            url: "https://api.backblazeb2.com/b2api/v3/b2_authorize_account".to_owned(),
            headers,
            query: Vec::new(),
            body: Vec::new(),
        };
        assert(pair_views(r.headers@) =~= seq![("Authorization"@, self.spec_auth_header())]);
        assert(pair_views(r.query@) =~= Seq::empty());
        assert(r.body@ =~= Seq::<u8>::empty());
        r
    }

    pub open spec fn spec_authorize(reply: Reply<AuthResponse>) -> Result<Client, Error> {
        match reply {
            Reply::Unreachable(message) => Err(Error::Authorize { message }),
            Reply::Status { status, body } => {
                if !is_success(status) {
                    Err(Error::Status { status })
                } else {
                    match body {
                        Ok(r) => Ok(Client { auth: Auth::spec_from(r) }),
                        Err(message) => Err(Error::Deserialize { message }),
                    }
                }
            },
        }
    }

    /// The session that the authorization reply grants, or why there is
    /// none.
    pub fn authorize(&self, reply: Reply<AuthResponse>) -> (r: Result<Client, Error>)
        ensures
            r == Self::spec_authorize(reply),
    {
        match reply {
            Reply::Unreachable(message) => Err(Error::Authorize { message }),
            Reply::Status { status, body } => {
                if !status_is_success(status) {
                    Err(Error::Status { status })
                } else {
                    match body {
                        Ok(r) => Ok(Client { auth: Auth::from_response(r) }),
                        Err(message) => Err(Error::Deserialize { message }),
                    }
                }
            },
        }
    }
}

impl Client {
    pub open spec fn spec_download_request(&self, key: Seq<char>) -> crate::http::RequestView {
        crate::http::RequestView {
            method: Method::Get,
            url: self.auth.download_url@ + "/file/"@ + self.auth.bucket_name@ + "/"@
                + object_name_for(key),
            headers: seq![("Authorization"@, self.auth.token@)],
            query: Seq::empty(),
            body: Seq::empty(),
        }
    }

    /// The request that fetches the object stored for `key`, if any.
    pub fn download_request(&self, key: &str) -> (r: HttpRequest)
        ensures
            r@ == self.spec_download_request(key@),
    {
        let mut url = self.auth.download_url.clone();
        url.append("/file/");
        url.append(self.auth.bucket_name.as_str());
        url.append("/");
        let name = object_name(key);
        url.append(name.as_str());
        let mut headers: Vec<(String, String)> = Vec::new();
        push_pair(&mut headers, "Authorization", self.auth.token.as_str());
        let r = HttpRequest { method: Method::Get, url, headers, query: Vec::new(), body: Vec::new() };
        assert(pair_views(r.headers@) =~= seq![("Authorization"@, self.auth.token@)]);
        assert(pair_views(r.query@) =~= Seq::empty());
        assert(r.body@ =~= Seq::<u8>::empty());
        assert(r.url@ =~= self.spec_download_request(key@).url);
        r
    }

    /// What the existence probe found: the stored bytes, nothing ("not
    /// found"), or an error for any other status.
    pub open spec fn spec_download_result(reply: Reply<Vec<u8>>) -> Result<Option<Vec<u8>>, Error> {
        match reply {
            Reply::Unreachable(message) => Err(Error::Download { message }),
            Reply::Status { status, body } => {
                if status == 404 {
                    Ok(None)
                } else if !is_success(status) {
                    Err(Error::Status { status })
                } else {
                    match body {
                        Ok(bytes) => Ok(Some(bytes)),
                        Err(message) => Err(Error::Download { message }),
                    }
                }
            },
        }
    }

    pub fn download_result(reply: Reply<Vec<u8>>) -> (r: Result<Option<Vec<u8>>, Error>)
        ensures
            r == Self::spec_download_result(reply),
    {
        match reply {
            Reply::Unreachable(message) => Err(Error::Download { message }),
            Reply::Status { status, body } => {
                if status == 404 {
                    Ok(None)
                } else if !status_is_success(status) {
                    Err(Error::Status { status })
                } else {
                    match body {
                        Ok(bytes) => Ok(Some(bytes)),
                        Err(message) => Err(Error::Download { message }),
                    }
                }
            },
        }
    }

    pub open spec fn spec_upload_url_request(&self) -> crate::http::RequestView {
        crate::http::RequestView {
            method: Method::Get,
            url: self.auth.api_url@ + "/b2api/v3/b2_get_upload_url"@,
            headers: seq![("Authorization"@, self.auth.token@)],
            query: seq![("bucketId"@, self.auth.bucket_id@)],
            body: Seq::empty(),
        }
    }

    /// The request for a fresh upload ticket in the session's bucket.
    pub fn get_upload_url(&self) -> (r: HttpRequest)
        ensures
            r@ == self.spec_upload_url_request(),
    {
        let mut url = self.auth.api_url.clone();
        url.append("/b2api/v3/b2_get_upload_url");
        let mut headers: Vec<(String, String)> = Vec::new();
        push_pair(&mut headers, "Authorization", self.auth.token.as_str());
        let mut query: Vec<(String, String)> = Vec::new();
        push_pair(&mut query, "bucketId", self.auth.bucket_id.as_str());
        let r = HttpRequest { method: Method::Get, url, headers, query, body: Vec::new() };
        assert(pair_views(r.headers@) =~= seq![("Authorization"@, self.auth.token@)]);
        assert(pair_views(r.query@) =~= seq![("bucketId"@, self.auth.bucket_id@)]);
        assert(r.body@ =~= Seq::<u8>::empty());
        r
    }

    /// Starts the upload of `data` under `file_name`, placed in the
    /// namespace folder.
    pub fn upload_file(&self, file_name: &str, data: Vec<u8>) -> (r: Upload)
        ensures
            r.file_name@ == object_name_for(file_name@),
            r.data == data,
            r.failures == 0,
            r.latest is None,
            r.ticket is None,
    {
        Upload::new(object_name(file_name), data)
    }
}

/// One upload, retried when an attempt fails: each attempt asks for a
/// fresh ticket and then sends the same bytes with it. An attempt fails when
/// its upload cannot be sent or the store rejects it; the failure is kept as
/// the latest error and the next attempt starts. When the last allowed
/// attempt fails, the upload ends with that failure: running out of attempts
/// is never a success. A ticket that cannot be had, or a rejection whose
/// error document cannot be read, ends the upload at once.
#[derive(Clone, Debug)]
pub struct Upload {
    pub file_name: String,
    pub data: Vec<u8>,
    /// Attempts that failed so far.
    pub failures: u64,
    /// The failure of the latest failed attempt; none before any failed.
    pub latest: Option<Error>,
    /// The ticket of the attempt in flight, once it has been granted.
    pub ticket: Option<UploadTicket>,
}

#[derive(Debug)]
pub enum UploadEvent {
    /// The reply to the upload-URL request.
    UploadUrl(Reply<UploadTicket>),
    /// The reply to the upload itself; a rejection's body is the store's
    /// error document.
    Sent(Reply<ErrorResponse>),
}

#[derive(Debug)]
pub enum UploadStep {
    Next(Upload),
    /// The upload ended: the bytes that were stored, or why none were.
    Done(Result<Vec<u8>, Error>),
}

/// The failure that an upload reply stands for, if it is one that the next
/// attempt may repair: the upload could not be sent, or the store rejected
/// it with a readable error document.
pub open spec fn attempt_failure(reply: Reply<ErrorResponse>) -> Option<Error> {
    match reply {
        Reply::Unreachable(message) => Some(Error::UploadRequest { message }),
        Reply::Status { status, body } => {
            if is_success(status) {
                None
            } else {
                match body {
                    Ok(details) => Some(Error::Upload { details }),
                    Err(_) => None,
                }
            }
        },
    }
}

impl Upload {
    pub open spec fn wf(&self) -> bool {
        &&& self.failures < MAX_UPLOAD_ATTEMPTS
        &&& (self.failures == 0 <==> self.latest is None)
    }

    pub fn new(file_name: String, data: Vec<u8>) -> (r: Upload)
        ensures
            r == (Upload { file_name, data, failures: 0, latest: None, ticket: None }),
            r.wf(),
    {
        Upload { file_name, data, failures: 0, latest: None, ticket: None }
    }

    pub open spec fn spec_send_request(&self, t: UploadTicket) -> crate::http::RequestView {
        crate::http::RequestView {
            method: Method::Post,
            url: t.upload_url@,
            headers: seq![
                ("Authorization"@, t.authorization_token@),
                ("X-Bz-File-Name"@, self.file_name@),
                ("Content-Type"@, "image/png"@),
                ("Content-Length"@, decimal(self.data@.len())),
                ("X-Bz-Content-Sha1"@, sha1_hex(self.data@)),
            ],
            query: Seq::empty(),
            body: self.data@,
        }
    }

    /// The request of the current attempt: a ticket request while none is
    /// held, else the upload with the held ticket.
    pub open spec fn spec_request(&self, c: Client) -> crate::http::RequestView {
        match self.ticket {
            None => c.spec_upload_url_request(),
            Some(t) => self.spec_send_request(t),
        }
    }

    pub fn request(&self, client: &Client) -> (r: HttpRequest)
        ensures
            r@ == self.spec_request(*client),
    {
        match &self.ticket {
            None => client.get_upload_url(),
            Some(t) => {
                let mut headers: Vec<(String, String)> = Vec::new();
                push_pair(&mut headers, "Authorization", t.authorization_token.as_str());
                push_pair(&mut headers, "X-Bz-File-Name", self.file_name.as_str());
                push_pair(&mut headers, "Content-Type", "image/png");
                let mut length = String::new();
                push_decimal(&mut length, self.data.len() as u64);
                push_pair(&mut headers, "Content-Length", length.as_str());
                let digest = sha1_hash(self.data.as_slice());
                push_pair(&mut headers, "X-Bz-Content-Sha1", digest.as_str());
                let r = HttpRequest {
                    method: Method::Post,
                    url: t.upload_url.clone(),
                    headers,
                    query: Vec::new(),
                    body: self.data.clone(),
                };
                assert(pair_views(r.headers@) =~= self.spec_send_request(*t).headers);
                assert(pair_views(r.query@) =~= Seq::empty());
                r
            },
        }
    }

    /// After a failed attempt: the next attempt with `err` as the latest
    /// error, or the end of the upload with `err` when no attempt is left.
    pub open spec fn spec_after_failure(self, err: Error) -> UploadStep {
        if self.failures + 1 < MAX_UPLOAD_ATTEMPTS {
            UploadStep::Next(
                Upload { failures: (self.failures + 1) as u64, latest: Some(err), ticket: None, ..self },
            )
        } else {
            UploadStep::Done(Err(err))
        }
    }

    pub open spec fn spec_next(self, e: UploadEvent) -> UploadStep {
        match e {
            UploadEvent::UploadUrl(reply) => match self.ticket {
                Some(_) => UploadStep::Done(Err(Error::OutOfOrder)),
                None => match reply {
                    Reply::Unreachable(message) => UploadStep::Done(Err(Error::GetUploadUrl { message })),
                    Reply::Status { status, body } => {
                        if !is_success(status) {
                            UploadStep::Done(Err(Error::Status { status }))
                        } else {
                            match body {
                                Ok(t) => UploadStep::Next(Upload { ticket: Some(t), ..self }),
                                Err(message) => UploadStep::Done(Err(Error::Deserialize { message })),
                            }
                        }
                    },
                },
            },
            UploadEvent::Sent(reply) => match self.ticket {
                None => UploadStep::Done(Err(Error::OutOfOrder)),
                Some(_) => match reply {
                    Reply::Unreachable(message) => self.spec_after_failure(Error::UploadRequest { message }),
                    Reply::Status { status, body } => {
                        if is_success(status) {
                            UploadStep::Done(Ok(self.data))
                        } else {
                            match body {
                                Ok(details) => self.spec_after_failure(Error::Upload { details }),
                                Err(message) => UploadStep::Done(Err(Error::Deserialize { message })),
                            }
                        }
                    },
                },
            },
        }
    }

    fn after_failure(self, err: Error) -> (r: UploadStep)
        requires
            self.wf(),
        ensures
            r == self.spec_after_failure(err),
            r matches UploadStep::Next(u) ==> u.wf(),
    {
        let Upload { file_name, data, failures, latest, ticket } = self;
        if failures + 1 < MAX_UPLOAD_ATTEMPTS {
            UploadStep::Next(Upload { file_name, data, failures: failures + 1, latest: Some(err), ticket: None })
        } else {
            UploadStep::Done(Err(err))
        }
    }

    /// Takes in the reply to the current attempt's request.
    pub fn step(self, e: UploadEvent) -> (r: UploadStep)
        requires
            self.wf(),
        ensures
            r == self.spec_next(e),
            r matches UploadStep::Next(u) ==> u.wf(),
    {
        match e {
            UploadEvent::UploadUrl(reply) => {
                if self.ticket.is_some() {
                    return UploadStep::Done(Err(Error::OutOfOrder));
                }
                match reply {
                    Reply::Unreachable(message) => UploadStep::Done(Err(Error::GetUploadUrl { message })),
                    Reply::Status { status, body } => {
                        if !status_is_success(status) {
                            UploadStep::Done(Err(Error::Status { status }))
                        } else {
                            match body {
                                Ok(t) => {
                                    let Upload { file_name, data, failures, latest, ticket } = self;
                                    UploadStep::Next(Upload { file_name, data, failures, latest, ticket: Some(t) })
                                },
                                Err(message) => UploadStep::Done(Err(Error::Deserialize { message })),
                            }
                        }
                    },
                }
            },
            UploadEvent::Sent(reply) => {
                if self.ticket.is_none() {
                    return UploadStep::Done(Err(Error::OutOfOrder));
                }
                match reply {
                    Reply::Unreachable(message) => self.after_failure(Error::UploadRequest { message }),
                    Reply::Status { status, body } => {
                        if status_is_success(status) {
                            UploadStep::Done(Ok(self.data))
                        } else {
                            match body {
                                Ok(details) => self.after_failure(Error::Upload { details }),
                                Err(message) => UploadStep::Done(Err(Error::Deserialize { message })),
                            }
                        }
                    },
                }
            },
        }
    }
}

} // verus!
