//! Get-or-create: the sequence that serves a title's image from the store,
//! rendering and storing it first when it is missing.
//!
//! The caller drives a `Generation`: it sends the request that `request`
//! returns, or renders the title while the stage is `Rendering`, and hands
//! the outcome to `step`, until the stage is `Finished`.

use vstd::prelude::*;

use crate::b2::{
    attempt_failure, AuthResponse, Auth, Client, ClientBuilder, Error, Upload, UploadEvent,
    UploadStep, UploadTicket, ErrorResponse, MAX_UPLOAD_ATTEMPTS,
};
use crate::http::{is_success, HttpRequest, Reply, RequestView};
use crate::key::{cache_key, key_for, object_name, object_name_for};

verus! {

#[derive(Debug)]
pub enum Stage {
    /// Waiting for the authorization reply.
    Authorizing,
    /// Waiting for the existence probe's reply.
    Probing(Client),
    /// Waiting for the rendered image.
    Rendering(Client),
    /// Storing the rendered image.
    Uploading(Client, Upload),
    /// Done: the image bytes, or why there are none.
    Finished(Result<Vec<u8>, Error>),
}

#[derive(Debug)]
pub enum Event {
    Authorized(Reply<AuthResponse>),
    Probed(Reply<Vec<u8>>),
    Rendered(Vec<u8>),
    Upload(UploadEvent),
}

#[derive(Debug)]
pub struct Generation {
    pub credentials: ClientBuilder,
    /// The cache key, which is also the response's entity tag.
    pub key: String,
    /// The key placed in the namespace folder: the remote object's name.
    pub object: String,
    pub title: String,
    pub stage: Stage,
}

impl Generation {
    pub open spec fn wf(&self) -> bool {
        &&& self.object@ == object_name_for(self.key@)
        &&& (self.stage matches Stage::Uploading(_, u) ==> u.wf())
    }

    /// Starts serving `title` under `build_id`: nothing is authorized yet.
    pub fn new(credentials: ClientBuilder, build_id: &str, title: &str) -> (r: Generation)
        ensures
            r.wf(),
            r.credentials == credentials,
            r.key@ == key_for(build_id@, title@),
            r.title@ == title@,
            r.stage is Authorizing,
    {
        let key = cache_key(build_id, title);
        let object = object_name(key.as_str());
        Generation { credentials, key, object, title: title.to_owned(), stage: Stage::Authorizing }
    }

    pub open spec fn spec_request(&self) -> Option<RequestView> {
        match self.stage {
            Stage::Authorizing => Some(self.credentials.spec_authorize_request()),
            Stage::Probing(c) => Some(c.spec_download_request(self.key@)),
            Stage::Uploading(c, u) => Some(u.spec_request(c)),
            _ => None,
        }
    }

    /// The request the current stage waits on; none while rendering or
    /// once finished.
    pub fn request(&self) -> (r: Option<HttpRequest>)
        ensures
            r matches Some(q) ==> self.spec_request() == Some(q@),
            r is None ==> self.spec_request() is None,
    {
        match &self.stage {
            Stage::Authorizing => Some(self.credentials.authorize_request()),
            Stage::Probing(c) => Some(c.download_request(self.key.as_str())),
            Stage::Uploading(c, u) => Some(u.request(c)),
            _ => None,
        }
    }

    pub open spec fn with_stage(self, stage: Stage) -> Generation {
        Generation { stage, ..self }
    }

    pub open spec fn spec_next(self, e: Event) -> Generation {
        match self.stage {
            Stage::Authorizing => match e {
                Event::Authorized(reply) => match ClientBuilder::spec_authorize(reply) {
                    Ok(c) => self.with_stage(Stage::Probing(c)),
                    Err(err) => self.with_stage(Stage::Finished(Err(err))),
                },
                _ => self.with_stage(Stage::Finished(Err(Error::OutOfOrder))),
            },
            Stage::Probing(c) => match e {
                Event::Probed(reply) => match Client::spec_download_result(reply) {
                    Ok(Some(bytes)) => self.with_stage(Stage::Finished(Ok(bytes))),
                    Ok(None) => self.with_stage(Stage::Rendering(c)),
                    Err(err) => self.with_stage(Stage::Finished(Err(err))),
                },
                _ => self.with_stage(Stage::Finished(Err(Error::OutOfOrder))),
            },
            Stage::Rendering(c) => match e {
                Event::Rendered(image) => self.with_stage(
                    Stage::Uploading(
                        c,
                        Upload { file_name: self.object, data: image, failures: 0, latest: None, ticket: None },
                    ),
                ),
                _ => self.with_stage(Stage::Finished(Err(Error::OutOfOrder))),
            },
            Stage::Uploading(c, u) => match e {
                Event::Upload(ue) => match u.spec_next(ue) {
                    UploadStep::Next(u2) => self.with_stage(Stage::Uploading(c, u2)),
                    UploadStep::Done(result) => self.with_stage(Stage::Finished(result)),
                },
                _ => self.with_stage(Stage::Finished(Err(Error::OutOfOrder))),
            },
            Stage::Finished(result) => self,
        }
    }

    /// Takes in what became of the current stage's work. A finished
    /// generation stays as it is.
    pub fn step(self, e: Event) -> (r: Generation)
        requires
            self.wf(),
        ensures
            r == self.spec_next(e),
            r.wf(),
    {
        let Generation { credentials, key, object, title, stage } = self;
        let stage = match stage {
            Stage::Authorizing => match e {
                Event::Authorized(reply) => match credentials.authorize(reply) {
                    Ok(c) => Stage::Probing(c),
                    Err(err) => Stage::Finished(Err(err)),
                },
                _ => Stage::Finished(Err(Error::OutOfOrder)),
            },
            Stage::Probing(c) => match e {
                Event::Probed(reply) => match Client::download_result(reply) {
                    Ok(Some(bytes)) => Stage::Finished(Ok(bytes)),
                    Ok(None) => Stage::Rendering(c),
                    Err(err) => Stage::Finished(Err(err)),
                },
                _ => Stage::Finished(Err(Error::OutOfOrder)),
            },
            Stage::Rendering(c) => match e {
                Event::Rendered(image) => Stage::Uploading(c, Upload::new(object.clone(), image)),
                _ => Stage::Finished(Err(Error::OutOfOrder)),
            },
            Stage::Uploading(c, u) => match e {
                Event::Upload(ue) => match u.step(ue) {
                    UploadStep::Next(u2) => Stage::Uploading(c, u2),
                    UploadStep::Done(result) => Stage::Finished(result),
                },
                _ => Stage::Finished(Err(Error::OutOfOrder)),
            },
            Stage::Finished(result) => Stage::Finished(result),
        };
        Generation { credentials, key, object, title, stage }
    }
}

/// The reply of an exchange that went through with status `status` and a
/// readable body.
pub open spec fn answered<T>(status: u16, body: T) -> Reply<T> {
    Reply::Status { status, body: Ok(body) }
}

/// Runs an upload through one attempt per entry of `sends`: the ticket
/// request is answered with the status and ticket of `tickets[i]`, and the
/// upload with `sends[i]`. Stops at the first attempt that ends the upload.
pub open spec fn run_attempts(
    u: Upload,
    tickets: Seq<(u16, UploadTicket)>,
    sends: Seq<Reply<ErrorResponse>>,
) -> UploadStep
    decreases sends.len(),
{
    if sends.len() == 0 || tickets.len() == 0 {
        UploadStep::Next(u)
    } else {
        match u.spec_next(UploadEvent::UploadUrl(answered(tickets[0].0, tickets[0].1))) {
            UploadStep::Next(u1) => match u1.spec_next(UploadEvent::Sent(sends[0])) {
                UploadStep::Next(u2) => run_attempts(u2, tickets.drop_first(), sends.drop_first()),
                done => done,
            },
            done => done,
        }
    }
}

/// A cache hit: once authorized, a probe of the derived key that finds the
/// stored bytes finishes with exactly those bytes, and the generation never
/// passes through rendering.
pub proof fn cache_hit_skips_rendering(
    g: Generation,
    auth: AuthResponse,
    auth_status: u16,
    probe_status: u16,
    stored: Vec<u8>,
)
    requires
        g.wf(),
        g.stage is Authorizing,
        is_success(auth_status),
        is_success(probe_status),
    ensures
        ({
            let client = Client { auth: Auth::spec_from(auth) };
            let g1 = g.spec_next(Event::Authorized(answered(auth_status, auth)));
            let g2 = g1.spec_next(Event::Probed(answered(probe_status, stored)));
            &&& g1.stage == Stage::Probing(client)
            &&& g1.spec_request() == Some(client.spec_download_request(g.key@))
            &&& g2.stage == Stage::Finished(Ok(stored))
            &&& !(g1.stage is Rendering) && !(g2.stage is Rendering)
        }),
{
}

/// A cache miss: a probe answered "not found" leads to rendering once; the
/// rendered bytes are uploaded under the key's object name, and when the
/// upload is accepted the generation finishes with exactly those bytes.
pub proof fn cache_miss_renders_and_stores(
    g: Generation,
    auth: AuthResponse,
    auth_status: u16,
    probe_body: Vec<u8>,
    image: Vec<u8>,
    ticket: UploadTicket,
    upload_status: u16,
    upload_body: ErrorResponse,
)
    requires
        g.wf(),
        g.stage is Authorizing,
        is_success(auth_status),
        is_success(upload_status),
    ensures
        ({
            let client = Client { auth: Auth::spec_from(auth) };
            let g1 = g.spec_next(Event::Authorized(answered(auth_status, auth)));
            let g2 = g1.spec_next(Event::Probed(answered(404, probe_body)));
            let g3 = g2.spec_next(Event::Rendered(image));
            let g4 = g3.spec_next(Event::Upload(UploadEvent::UploadUrl(answered(200, ticket))));
            let g5 = g4.spec_next(Event::Upload(UploadEvent::Sent(answered(upload_status, upload_body))));
            &&& g2.stage == Stage::Rendering(client)
            &&& !(g1.stage is Rendering) && !(g3.stage is Rendering)
            &&& !(g4.stage is Rendering) && !(g5.stage is Rendering)
            &&& g3.spec_request() == Some(client.spec_upload_url_request())
            &&& g4.spec_request() matches Some(q) && q.body == image@
                && q.url == ticket.upload_url@
                && q.headers[1] == ("X-Bz-File-Name"@, object_name_for(g.key@))
            &&& g5.stage == Stage::Finished(Ok(image))
        }),
{
}

/// Whether the reply accepts the upload.
pub open spec fn accepted(reply: Reply<ErrorResponse>) -> bool {
    reply matches Reply::Status { status, .. } && is_success(status)
}

/// Four failed attempts (each unsent or rejected) followed by an accepted
/// one store the bytes: the upload succeeds with exactly the bytes it was
/// given.
pub proof fn upload_succeeds_on_last_attempt(
    u: Upload,
    tickets: Seq<(u16, UploadTicket)>,
    sends: Seq<Reply<ErrorResponse>>,
)
    requires
        u.wf(),
        u.failures == 0,
        u.ticket is None,
        tickets.len() == MAX_UPLOAD_ATTEMPTS,
        sends.len() == MAX_UPLOAD_ATTEMPTS,
        forall|i: int| 0 <= i < 5 ==> is_success(#[trigger] tickets[i].0),
        forall|i: int| 0 <= i < 4 ==> #[trigger] attempt_failure(sends[i]) is Some,
        accepted(sends[4]),
    ensures
        run_attempts(u, tickets, sends) == UploadStep::Done(Ok(u.data)),
{
    reveal_with_fuel(run_attempts, 6);
    assert(is_success(tickets[0].0) && is_success(tickets[1].0) && is_success(tickets[2].0));
    assert(is_success(tickets[3].0) && is_success(tickets[4].0));
    assert(attempt_failure(sends[0]) is Some && attempt_failure(sends[1]) is Some);
    assert(attempt_failure(sends[2]) is Some && attempt_failure(sends[3]) is Some);
    let t1 = tickets.drop_first();
    let t2 = t1.drop_first();
    let t3 = t2.drop_first();
    let t4 = t3.drop_first();
    let s1 = sends.drop_first();
    let s2 = s1.drop_first();
    let s3 = s2.drop_first();
    let s4 = s3.drop_first();
    assert(t4[0] == tickets[4] && s4[0] == sends[4]);
    assert(t3[0] == tickets[3] && s3[0] == sends[3]);
    assert(t2[0] == tickets[2] && s2[0] == sends[2]);
    assert(t1[0] == tickets[1] && s1[0] == sends[1]);
}

/// Five failed attempts end the upload with the failure of the last one,
/// not an earlier one, and no further attempt is made whatever follows.
pub proof fn upload_gives_up_after_last_attempt(
    u: Upload,
    tickets: Seq<(u16, UploadTicket)>,
    sends: Seq<Reply<ErrorResponse>>,
)
    requires
        u.wf(),
        u.failures == 0,
        u.ticket is None,
        tickets.len() >= MAX_UPLOAD_ATTEMPTS,
        sends.len() >= MAX_UPLOAD_ATTEMPTS,
        forall|i: int| 0 <= i < 5 ==> is_success(#[trigger] tickets[i].0),
        forall|i: int| 0 <= i < 5 ==> #[trigger] attempt_failure(sends[i]) is Some,
    ensures
        run_attempts(u, tickets, sends) == UploadStep::Done(Err(attempt_failure(sends[4]).unwrap())),
{
    reveal_with_fuel(run_attempts, 6);
    assert(is_success(tickets[0].0) && is_success(tickets[1].0) && is_success(tickets[2].0));
    assert(is_success(tickets[3].0) && is_success(tickets[4].0));
    assert(attempt_failure(sends[0]) is Some && attempt_failure(sends[1]) is Some);
    assert(attempt_failure(sends[2]) is Some && attempt_failure(sends[3]) is Some);
    assert(attempt_failure(sends[4]) is Some);
    let t1 = tickets.drop_first();
    let t2 = t1.drop_first();
    let t3 = t2.drop_first();
    let t4 = t3.drop_first();
    let s1 = sends.drop_first();
    let s2 = s1.drop_first();
    let s3 = s2.drop_first();
    let s4 = s3.drop_first();
    assert(t4[0] == tickets[4] && s4[0] == sends[4]);
    assert(t3[0] == tickets[3] && s3[0] == sends[3]);
    assert(t2[0] == tickets[2] && s2[0] == sends[2]);
    assert(t1[0] == tickets[1] && s1[0] == sends[1]);
}

/// Feeds `events` to the generation one after another.
pub open spec fn run_events(g: Generation, events: Seq<Event>) -> Generation
    decreases events.len(),
{
    if events.len() == 0 {
        g
    } else {
        run_events(g.spec_next(events[0]), events.drop_first())
    }
}

/// The events of one upload attempt per entry of `sends`: the ticket reply
/// made of `tickets[i]`, then `sends[i]`.
pub open spec fn attempt_events(tickets: Seq<(u16, UploadTicket)>, sends: Seq<Reply<ErrorResponse>>) -> Seq<Event>
    decreases sends.len(),
{
    if sends.len() == 0 || tickets.len() == 0 {
        Seq::empty()
    } else {
        seq![
            Event::Upload(UploadEvent::UploadUrl(answered(tickets[0].0, tickets[0].1))),
            Event::Upload(UploadEvent::Sent(sends[0])),
        ] + attempt_events(tickets.drop_first(), sends.drop_first())
    }
}

/// The stage that the outcome of an upload leaves a generation in.
pub open spec fn upload_stage(c: Client, step: UploadStep) -> Stage {
    match step {
        UploadStep::Next(u) => Stage::Uploading(c, u),
        UploadStep::Done(r) => Stage::Finished(r),
    }
}

proof fn lemma_run_concat(g: Generation, a: Seq<Event>, b: Seq<Event>)
    ensures
        run_events(g, a + b) == run_events(run_events(g, a), b),
    decreases a.len(),
{
    if a.len() > 0 {
        assert((a + b).drop_first() =~= a.drop_first() + b);
        assert((a + b)[0] == a[0]);
        lemma_run_concat(g.spec_next(a[0]), a.drop_first(), b);
    } else {
        assert(a + b =~= b);
    }
}

proof fn lemma_finished_stays(g: Generation, events: Seq<Event>)
    requires
        g.stage is Finished,
    ensures
        run_events(g, events) == g,
    decreases events.len(),
{
    if events.len() > 0 {
        lemma_finished_stays(g.spec_next(events[0]), events.drop_first());
    }
}

proof fn lemma_uploading_follows_upload(
    g: Generation,
    c: Client,
    u: Upload,
    tickets: Seq<(u16, UploadTicket)>,
    sends: Seq<Reply<ErrorResponse>>,
)
    requires
        g.stage == Stage::Uploading(c, u),
    ensures
        run_events(g, attempt_events(tickets, sends))
            == g.with_stage(upload_stage(c, run_attempts(u, tickets, sends))),
    decreases sends.len(),
{
    if sends.len() == 0 || tickets.len() == 0 {
        assert(g.with_stage(g.stage) == g);
    } else {
        let e1 = Event::Upload(UploadEvent::UploadUrl(answered(tickets[0].0, tickets[0].1)));
        let e2 = Event::Upload(UploadEvent::Sent(sends[0]));
        let rest = attempt_events(tickets.drop_first(), sends.drop_first());
        lemma_run_concat(g, seq![e1, e2], rest);
        reveal_with_fuel(run_events, 3);
        assert(seq![e1, e2].drop_first() =~= seq![e2]);
        assert(seq![e2].drop_first() =~= Seq::<Event>::empty());
        let g1 = g.spec_next(e1);
        let g2 = g1.spec_next(e2);
        assert(run_events(g, seq![e1, e2]) == g2);
        match u.spec_next(UploadEvent::UploadUrl(answered(tickets[0].0, tickets[0].1))) {
            UploadStep::Next(u1) => {
                match u1.spec_next(UploadEvent::Sent(sends[0])) {
                    UploadStep::Next(u2) => {
                        lemma_uploading_follows_upload(g2, c, u2, tickets.drop_first(), sends.drop_first());
                    },
                    UploadStep::Done(r) => {
                        lemma_finished_stays(g2, rest);
                    },
                }
            },
            UploadStep::Done(r) => {
                lemma_finished_stays(g1, seq![e2]);
                lemma_finished_stays(g1, rest);
            },
        }
    }
}

/// A cache miss whose upload fails on its first four attempts (each unsent
/// or rejected) and is accepted on the fifth serves the rendered bytes; when
/// all five attempts fail, the generation ends with the last failure and
/// serves no bytes.
pub proof fn cache_miss_upload_retries(
    g: Generation,
    auth: AuthResponse,
    auth_status: u16,
    probe_body: Vec<u8>,
    image: Vec<u8>,
    tickets: Seq<(u16, UploadTicket)>,
    sends: Seq<Reply<ErrorResponse>>,
)
    requires
        g.wf(),
        g.stage is Authorizing,
        is_success(auth_status),
        tickets.len() == MAX_UPLOAD_ATTEMPTS,
        sends.len() == MAX_UPLOAD_ATTEMPTS,
        forall|i: int| 0 <= i < 5 ==> is_success(#[trigger] tickets[i].0),
    ensures
        ({
            let before = seq![
                Event::Authorized(answered(auth_status, auth)),
                Event::Probed(answered(404, probe_body)),
                Event::Rendered(image),
            ];
            let end = run_events(g, before + attempt_events(tickets, sends));
            &&& (forall|i: int| 0 <= i < 4 ==> #[trigger] attempt_failure(sends[i]) is Some)
                && accepted(sends[4]) ==> end.stage == Stage::Finished(Ok(image))
            &&& (forall|i: int| 0 <= i < 5 ==> #[trigger] attempt_failure(sends[i]) is Some)
                ==> end.stage == Stage::Finished(Err(attempt_failure(sends[4]).unwrap()))
            &&& end.key == g.key
        }),
{
    let e0 = Event::Authorized(answered(auth_status, auth));
    let e1 = Event::Probed(answered(404, probe_body));
    let e2 = Event::Rendered(image);
    let before = seq![e0, e1, e2];
    lemma_run_concat(g, before, attempt_events(tickets, sends));
    reveal_with_fuel(run_events, 4);
    assert(before.drop_first() =~= seq![e1, e2]);
    assert(seq![e1, e2].drop_first() =~= seq![e2]);
    assert(seq![e2].drop_first() =~= Seq::<Event>::empty());
    let client = Client { auth: Auth::spec_from(auth) };
    let g3 = g.spec_next(e0).spec_next(e1).spec_next(e2);
    assert(run_events(g, before) == g3);
    let u = Upload { file_name: g.object, data: image, failures: 0, latest: None, ticket: None };
    assert(g3.stage == Stage::Uploading(client, u));
    lemma_uploading_follows_upload(g3, client, u, tickets, sends);
    if (forall|i: int| 0 <= i < 4 ==> #[trigger] attempt_failure(sends[i]) is Some) && accepted(sends[4]) {
        upload_succeeds_on_last_attempt(u, tickets, sends);
    }
    if forall|i: int| 0 <= i < 5 ==> #[trigger] attempt_failure(sends[i]) is Some {
        upload_gives_up_after_last_attempt(u, tickets, sends);
    }
}

} // verus!
