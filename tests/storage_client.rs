use opengraph_image::b2::{
    AuthResponse, Client, ClientBuilder, Error, ErrorResponse, Upload, UploadEvent, UploadStep,
    UploadTicket,
};
use opengraph_image::http::{Method, Reply};

fn auth_response() -> AuthResponse {
    AuthResponse {
        api_url: "https://api001.example".to_string(),
        authorization_token: "tok".to_string(),
        bucket_id: "bucket-1".to_string(),
        bucket_name: "images".to_string(),
        download_url: "https://f001.example".to_string(),
    }
}

fn client() -> Client {
    ClientBuilder::new("id".to_string(), "key".to_string())
        .authorize(Reply::Status { status: 200, body: Ok(auth_response()) })
        .unwrap()
}

fn rejection(code: &str) -> ErrorResponse {
    ErrorResponse { code: code.to_string(), message: "busy".to_string(), status: 503 }
}

fn ticket(n: u32) -> UploadTicket {
    UploadTicket {
        upload_url: format!("https://pod{n}.example/upload"),
        authorization_token: format!("upload-token-{n}"),
    }
}

fn pair(a: &str, b: &str) -> (String, String) {
    (a.to_string(), b.to_string())
}

#[test]
fn authorize_request_uses_basic_credentials() {
    let b = ClientBuilder::new("id".to_string(), "key".to_string());
    let r = b.authorize_request();
    assert_eq!(r.method, Method::Get);
    assert_eq!(r.url, "https://api.backblazeb2.com/b2api/v3/b2_authorize_account");
    assert_eq!(r.headers, vec![pair("Authorization", "Basic aWQ6a2V5")]);
    assert!(r.query.is_empty());
    assert!(r.body.is_empty());
}

#[test]
fn authorize_maps_reply_to_session() {
    let c = client();
    assert_eq!(c.auth.api_url, "https://api001.example");
    assert_eq!(c.auth.token, "tok");
    assert_eq!(c.auth.bucket_id, "bucket-1");
    assert_eq!(c.auth.bucket_name, "images");
    assert_eq!(c.auth.download_url, "https://f001.example");
}

#[test]
fn authorize_errors_are_distinguished() {
    let b = ClientBuilder::new("id".to_string(), "key".to_string());
    assert!(matches!(
        b.authorize(Reply::Unreachable("dns".to_string())),
        Err(Error::Authorize { message }) if message == "dns"
    ));
    assert!(matches!(
        b.authorize(Reply::Status { status: 401, body: Ok(auth_response()) }),
        Err(Error::Status { status: 401 })
    ));
    assert!(matches!(
        b.authorize(Reply::Status { status: 200, body: Err("missing field `apiInfo`".to_string()) }),
        Err(Error::Deserialize { .. })
    ));
}

#[test]
fn upload_url_request_is_scoped_to_bucket() {
    let r = client().get_upload_url();
    assert_eq!(r.method, Method::Get);
    assert_eq!(r.url, "https://api001.example/b2api/v3/b2_get_upload_url");
    assert_eq!(r.headers, vec![pair("Authorization", "tok")]);
    assert_eq!(r.query, vec![pair("bucketId", "bucket-1")]);
}

#[test]
fn download_request_names_namespaced_object() {
    let r = client().download_request("rev-abc.png");
    assert_eq!(r.url, "https://f001.example/file/images/opengraph/rev-abc.png");
    assert_eq!(r.headers, vec![pair("Authorization", "tok")]);
}

#[test]
fn download_result_outcomes() {
    assert!(matches!(
        Client::download_result(Reply::Status { status: 404, body: Ok(vec![]) }),
        Ok(None)
    ));
    assert!(matches!(
        Client::download_result(Reply::Status { status: 200, body: Ok(vec![1, 2, 3]) }),
        Ok(Some(b)) if b == vec![1, 2, 3]
    ));
    assert!(matches!(
        Client::download_result(Reply::Status { status: 500, body: Ok(vec![]) }),
        Err(Error::Status { status: 500 })
    ));
    assert!(matches!(
        Client::download_result(Reply::Unreachable("reset".to_string())),
        Err(Error::Download { .. })
    ));
}

#[test]
fn upload_request_carries_metadata() {
    let c = client();
    let u = c.upload_file("k.png", b"abc".to_vec());
    assert_eq!(u.file_name, "opengraph/k.png");
    let first = u.request(&c);
    assert_eq!(first.url, "https://api001.example/b2api/v3/b2_get_upload_url");
    let u = match u.step(UploadEvent::UploadUrl(Reply::Status { status: 200, body: Ok(ticket(1)) })) {
        UploadStep::Next(u) => u,
        UploadStep::Done(_) => panic!("upload ended early"),
    };
    let r = u.request(&c);
    assert_eq!(r.method, Method::Post);
    assert_eq!(r.url, "https://pod1.example/upload");
    assert_eq!(
        r.headers,
        vec![
            pair("Authorization", "upload-token-1"),
            pair("X-Bz-File-Name", "opengraph/k.png"),
            pair("Content-Type", "image/png"),
            pair("Content-Length", "3"),
            pair("X-Bz-Content-Sha1", "a9993e364706816aba3e25717850c26c9cd0d89d"),
        ]
    );
    assert_eq!(r.body, b"abc".to_vec());
}

fn attempt(u: Upload, n: u32, status: u16) -> UploadStep {
    match u.step(UploadEvent::UploadUrl(Reply::Status { status: 200, body: Ok(ticket(n)) })) {
        UploadStep::Next(u) => u.step(UploadEvent::Sent(Reply::Status {
            status,
            body: Ok(rejection(&format!("attempt-{n}"))),
        })),
        done => done,
    }
}

#[test]
fn upload_succeeds_on_fifth_attempt() {
    let mut u = Upload::new("opengraph/k.png".to_string(), vec![9]);
    for n in 1..=4 {
        u = match attempt(u, n, 503) {
            UploadStep::Next(u) => u,
            UploadStep::Done(_) => panic!("gave up after {n} attempts"),
        };
        assert_eq!(u.failures, n as u64);
        assert!(matches!(&u.latest, Some(Error::Upload { details }) if details.code == format!("attempt-{n}")));
        assert!(u.ticket.is_none());
    }
    assert!(matches!(attempt(u, 5, 200), UploadStep::Done(Ok(b)) if b == vec![9]));
}

#[test]
fn upload_fails_with_latest_error_after_five_rejections() {
    let mut u = Upload::new("opengraph/k.png".to_string(), vec![9]);
    for n in 1..=4 {
        u = match attempt(u, n, 503) {
            UploadStep::Next(u) => u,
            UploadStep::Done(_) => panic!("gave up after {n} attempts"),
        };
    }
    match attempt(u, 5, 503) {
        UploadStep::Done(Err(Error::Upload { details })) => {
            assert_eq!(details.code, "attempt-5");
        }
        _ => panic!("expected the last rejection"),
    }
}

#[test]
fn ticket_failure_is_not_retried() {
    let u = Upload::new("opengraph/k.png".to_string(), vec![9]);
    assert!(matches!(
        u.step(UploadEvent::UploadUrl(Reply::Unreachable("down".to_string()))),
        UploadStep::Done(Err(Error::GetUploadUrl { .. }))
    ));
    let u = Upload::new("opengraph/k.png".to_string(), vec![9]);
    assert!(matches!(
        u.step(UploadEvent::UploadUrl(Reply::Status { status: 500, body: Ok(ticket(1)) })),
        UploadStep::Done(Err(Error::Status { status: 500 }))
    ));
}

fn granted(u: Upload, n: u32) -> Upload {
    match u.step(UploadEvent::UploadUrl(Reply::Status { status: 200, body: Ok(ticket(n)) })) {
        UploadStep::Next(u) => u,
        UploadStep::Done(_) => panic!("ticket refused"),
    }
}

#[test]
fn unsent_upload_is_retried_with_fresh_ticket() {
    let c = client();
    let u = granted(Upload::new("opengraph/k.png".to_string(), vec![9]), 1);
    let u = match u.step(UploadEvent::Sent(Reply::Unreachable("reset".to_string()))) {
        UploadStep::Next(u) => u,
        UploadStep::Done(_) => panic!("transport failure ended the upload"),
    };
    assert_eq!(u.failures, 1);
    assert!(matches!(&u.latest, Some(Error::UploadRequest { message }) if message == "reset"));
    assert!(u.ticket.is_none());
    assert_eq!(u.request(&c).url, "https://api001.example/b2api/v3/b2_get_upload_url");
    let u = granted(u, 2);
    assert_eq!(u.request(&c).url, "https://pod2.example/upload");
    assert!(matches!(
        u.step(UploadEvent::Sent(Reply::Status { status: 200, body: Err(String::new()) })),
        UploadStep::Done(Ok(b)) if b == vec![9]
    ));
}

#[test]
fn upload_ends_with_latest_failure_when_last_is_transport() {
    let mut u = Upload::new("opengraph/k.png".to_string(), vec![9]);
    for n in 1..=4 {
        u = match attempt(u, n, 503) {
            UploadStep::Next(u) => u,
            UploadStep::Done(_) => panic!("gave up after {n} attempts"),
        };
    }
    let u = granted(u, 5);
    assert!(matches!(
        u.step(UploadEvent::Sent(Reply::Unreachable("timeout".to_string()))),
        UploadStep::Done(Err(Error::UploadRequest { message })) if message == "timeout"
    ));
}

#[test]
fn unreadable_rejection_ends_the_upload() {
    let u = granted(Upload::new("opengraph/k.png".to_string(), vec![9]), 1);
    assert!(matches!(
        u.step(UploadEvent::Sent(Reply::Status { status: 400, body: Err("not json".to_string()) })),
        UploadStep::Done(Err(Error::Deserialize { .. }))
    ));
}

#[test]
fn out_of_order_upload_events_fail() {
    let u = Upload::new("opengraph/k.png".to_string(), vec![9]);
    assert!(matches!(
        u.step(UploadEvent::Sent(Reply::Status { status: 200, body: Err(String::new()) })),
        UploadStep::Done(Err(Error::OutOfOrder))
    ));
}

#[test]
fn error_response_text() {
    let e = ErrorResponse { code: "bad_request".to_string(), message: "no".to_string(), status: 400 };
    assert_eq!(e.to_string(), "code: 'bad_request, message: 'no, status: 400");
    let e = ErrorResponse { code: "x".to_string(), message: String::new(), status: 503 };
    assert_eq!(e.to_string(), "code: 'x, status: 503");
}
