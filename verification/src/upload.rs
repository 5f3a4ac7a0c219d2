//! Uploading long and forwarded messages.
//!
//! An upload needs the session key of the transfer channel, which is agreed
//! on elsewhere; without it the upload fails before anything is sent. It
//! then asks the server for a ticket, keyed by the digest and the length of
//! what is to be uploaded. The answer names the resource and the endpoints
//! that take it. The endpoints are then tried one by one, in the order of the
//! answer: the first that takes the upload ends it, one that fails is not
//! tried again, and when none is left the upload has failed.
//!
//! The upload performs nothing itself. It names the next action, and is told
//! how the action ended.

use crate::error::{Field, RQError, RQResult};
use vstd::prelude::*;

verus! {

/// The command under which a message upload runs on the transfer channel.
pub const UPLOAD_COMMAND: i32 = 27;

/// The size of the chunks of a transfer: 64 KiB.
pub const CHUNK_SIZE: usize = 65536;

/// What is uploaded: a long message, or messages that are forwarded.
#[derive(Clone, Copy, Debug, PartialEq, Eq, Structural)]
pub enum MultiMsgKind {
    Long,
    Forward,
}

impl MultiMsgKind {
    /// The number that stands for the kind in a request.
    pub open spec fn spec_code(self) -> i32 {
        match self {
            MultiMsgKind::Long => 1,
            MultiMsgKind::Forward => 2,
        }
    }

    /// The number that stands for the kind in a request.
    #[verifier::when_used_as_spec(spec_code)]
    pub fn code(self) -> (c: i32)
        ensures
            c == self.spec_code(),
    {
        match self {
            MultiMsgKind::Long => 1,
            MultiMsgKind::Forward => 2,
        }
    }

    /// The kind of an upload that is long, or is not.
    pub fn of_long(is_long: bool) -> (k: MultiMsgKind)
        ensures
            k == if is_long {
                MultiMsgKind::Long
            } else {
                MultiMsgKind::Forward
            },
    {
        if is_long {
            MultiMsgKind::Long
        } else {
            MultiMsgKind::Forward
        }
    }
}

/// The MD5 digest of `data`, as `md5::compute` gives it.
pub uninterp spec fn md5_of(data: Seq<u8>) -> Seq<u8>;

/// Calls `md5::compute`. The claim: the digest depends on the bytes alone,
/// and has 16 bytes.
#[verifier::external_body]
fn md5_digest(data: &[u8]) -> (digest: Vec<u8>)
    ensures
        digest@ == md5_of(data@),
        digest@.len() == 16,
{
    md5::compute(data).0.to_vec()
}

/// What a request for an upload ticket says.
#[derive(Clone, Debug)]
pub struct ApplyUpRequest {
    /// The length of what is to be uploaded.
    pub size: i64,
    /// Its digest.
    pub md5: Vec<u8>,
    /// Its kind, which goes into the request as its number.
    pub kind: MultiMsgKind,
    /// Whom it is for.
    pub dst_uin: i64,
}

/// Whether `r` is the request for a ticket to upload `data` of the kind
/// `kind` to `dst_uin`.
pub open spec fn is_apply_up_request(
    r: ApplyUpRequest,
    data: Seq<u8>,
    kind: MultiMsgKind,
    dst_uin: i64,
) -> bool {
    &&& r.size == data.len()
    &&& r.md5@ == md5_of(data)
    &&& r.md5@.len() == 16
    &&& r.kind == kind
    &&& r.dst_uin == dst_uin
}

/// Makes the request for a ticket to upload `data`.
pub fn apply_up_request(data: &[u8], kind: MultiMsgKind, dst_uin: i64) -> (r: ApplyUpRequest)
    requires
        data@.len() <= i64::MAX,
    ensures
        is_apply_up_request(r, data@, kind, dst_uin),
{
    ApplyUpRequest { size: data.len() as i64, md5: md5_digest(data), kind, dst_uin }
}

/// Where an upload can go.
#[derive(Clone, Copy, Debug, PartialEq, Eq, Structural)]
pub struct Endpoint {
    /// The address, its first part in the lowest byte.
    pub ip: u32,
    pub port: u16,
}

/// What the server answers to a request for an upload ticket.
#[derive(Clone, Debug)]
pub struct TransferDescriptor {
    /// The name under which the upload will be found.
    pub resource_id: String,
    /// The ticket that an endpoint asks for.
    pub ticket: Vec<u8>,
    /// The key that the uploaded body is wrapped with.
    pub ukey: Vec<u8>,
    /// The addresses of the endpoints, in the order to try them in.
    pub ips: Vec<i32>,
    /// Their ports, in the same order.
    pub ports: Vec<i32>,
}

/// The endpoint that an address and a port of an answer name: the low 32
/// bits of the one, the low 16 bits of the other.
pub open spec fn endpoint_of(ip: i32, port: i32) -> Endpoint {
    Endpoint { ip: ip as u32, port: port as u16 }
}

/// The endpoints that an answer names: an address and a port for each, as
/// far as both lists go.
pub open spec fn endpoints_of(ips: Seq<i32>, ports: Seq<i32>) -> Seq<Endpoint> {
    Seq::new(
        if ips.len() <= ports.len() {
            ips.len()
        } else {
            ports.len()
        },
        |i: int| endpoint_of(ips[i], ports[i]),
    )
}

/// Pairs the addresses of an answer with its ports.
pub fn endpoints(ips: &Vec<i32>, ports: &Vec<i32>) -> (r: Vec<Endpoint>)
    ensures
        r@ == endpoints_of(ips@, ports@),
{
    let n = if ips.len() <= ports.len() {
        ips.len()
    } else {
        ports.len()
    };
    let mut out: Vec<Endpoint> = Vec::new();
    let mut i: usize = 0;
    while i < n
        invariant
            i <= n,
            n <= ips@.len(),
            n <= ports@.len(),
            out@.len() == i,
            forall|k: int| 0 <= k < i ==> out@[k] == endpoint_of(ips@[k], ports@[k]),
        decreases n - i,
    {
        out.push(Endpoint { ip: ips[i] as u32, port: ports[i] as u16 });
        i = i + 1;
    }
    proof {
        assert(out@ =~= endpoints_of(ips@, ports@));
    }
    out
}

/// One transfer to one endpoint.
#[derive(Clone, Copy, Debug, PartialEq, Eq, Structural)]
pub struct TransferPlan {
    pub endpoint: Endpoint,
    pub command_id: i32,
    pub chunk_size: usize,
}

/// What the caller is to do next.
#[derive(Clone, Copy, Debug, PartialEq, Eq, Structural)]
pub enum UploadAction {
    /// Ask the server for a ticket, with the request that the upload holds.
    RequestTicket,
    /// Transfer to this endpoint, and tell how it went.
    Transfer(TransferPlan),
    /// Nothing: the upload is done, and the resource is named in the session.
    Succeed,
    /// Nothing: the upload has failed.
    Fail(RQError),
}

/// The transfers of an upload that has its ticket.
#[derive(Clone, Debug)]
pub struct UploadSession {
    /// The name under which the upload will be found.
    pub resource_id: String,
    /// The ticket that an endpoint asks for.
    pub ticket: Vec<u8>,
    /// The key that the uploaded body is wrapped with.
    pub ukey: Vec<u8>,
    /// The endpoints, in the order to try them in.
    pub candidates: Vec<Endpoint>,
    /// How many endpoints have failed; the next to try, or the one that took
    /// the upload.
    pub next: usize,
    /// Whether an endpoint has taken the upload.
    pub succeeded: bool,
}

/// What of an `UploadSession` decides how it goes on.
pub struct UploadModel {
    pub candidates: Seq<Endpoint>,
    pub next: nat,
    pub succeeded: bool,
}

impl View for UploadSession {
    type V = UploadModel;

    open spec fn view(&self) -> UploadModel {
        UploadModel {
            candidates: self.candidates@,
            next: self.next as nat,
            succeeded: self.succeeded,
        }
    }
}

impl UploadModel {
    /// Whether the state is one that an upload can be in: no more endpoints
    /// have failed than there are, and one that took the upload is one of
    /// them.
    pub open spec fn wf(self) -> bool {
        self.next <= self.candidates.len() && (self.succeeded ==> self.next
            < self.candidates.len())
    }
}

/// An upload before its first transfer.
pub open spec fn upload_start(candidates: Seq<Endpoint>) -> UploadModel {
    UploadModel { candidates, next: 0, succeeded: false }
}

/// Whether no transfer is left to make.
pub open spec fn upload_over(m: UploadModel) -> bool {
    m.succeeded || m.next >= m.candidates.len()
}

/// The action that an upload in the state `m` asks for.
pub open spec fn upload_action(m: UploadModel) -> UploadAction {
    if m.succeeded {
        UploadAction::Succeed
    } else if m.next < m.candidates.len() {
        UploadAction::Transfer(
            TransferPlan {
                endpoint: m.candidates[m.next as int],
                command_id: UPLOAD_COMMAND,
                chunk_size: CHUNK_SIZE,
            },
        )
    } else {
        UploadAction::Fail(RQError::Transport)
    }
}

/// The upload after a transfer that went well, or did not. Once no transfer
/// is left to make, nothing changes any more.
pub open spec fn upload_step(m: UploadModel, ok: bool) -> UploadModel {
    if upload_over(m) {
        m
    } else if ok {
        UploadModel { succeeded: true, ..m }
    } else {
        UploadModel { next: m.next + 1, ..m }
    }
}

/// The upload after transfer upon transfer went as `results` says.
pub open spec fn upload_after(m: UploadModel, results: Seq<bool>) -> UploadModel
    decreases results.len(),
{
    if results.len() == 0 {
        m
    } else {
        upload_after(upload_step(m, results[0]), results.skip(1))
    }
}

/// The position of the first transfer that went well, among the first
/// `limit` of `results`, counted from `from`.
pub open spec fn first_success(results: Seq<bool>, from: nat, limit: nat) -> Option<nat>
    decreases limit - from,
{
    if from >= limit || from >= results.len() {
        None
    } else if results[from as int] {
        Some(from)
    } else {
        first_success(results, from + 1, limit)
    }
}

/// Checks that the session key of the transfer channel is there. An upload
/// that fails here has sent nothing, and must send nothing.
pub fn check_session_key(session_key: &[u8]) -> (r: RQResult<()>)
    ensures
        session_key@.len() == 0 ==> r == Err::<(), RQError>(
            RQError::MissingField(Field::HighwaySessionKey),
        ),
        session_key@.len() > 0 ==> r == Ok::<(), RQError>(()),
{
    if session_key.len() == 0 {
        Err(RQError::MissingField(Field::HighwaySessionKey))
    } else {
        Ok(())
    }
}

impl UploadSession {
    /// The transfers of an upload whose ticket has come: all endpoints of
    /// the answer are still to be tried, in their order.
    pub fn with_ticket(descriptor: TransferDescriptor) -> (s: UploadSession)
        ensures
            s@ == upload_start(endpoints_of(descriptor.ips@, descriptor.ports@)),
            s@.wf(),
            s.resource_id == descriptor.resource_id,
            s.ticket == descriptor.ticket,
            s.ukey == descriptor.ukey,
    {
        let candidates = endpoints(&descriptor.ips, &descriptor.ports);
        UploadSession {
            resource_id: descriptor.resource_id,
            ticket: descriptor.ticket,
            ukey: descriptor.ukey,
            candidates,
            next: 0,
            succeeded: false,
        }
    }

    /// Starts the transfers of an upload, once the server has answered the
    /// request for a ticket, for a caller that has not checked the session
    /// key of the transfer channel before: without the key no transfer is
    /// made.
    pub fn begin(descriptor: TransferDescriptor, session_key: &[u8]) -> (r: RQResult<UploadSession>)
        ensures
            session_key@.len() == 0 ==> r == Err::<UploadSession, RQError>(
                RQError::MissingField(Field::HighwaySessionKey),
            ),
            session_key@.len() > 0 ==> r is Ok && r->Ok_0@ == upload_start(
                endpoints_of(descriptor.ips@, descriptor.ports@),
            ) && r->Ok_0@.wf() && r->Ok_0.resource_id == descriptor.resource_id && r->Ok_0.ticket
                == descriptor.ticket && r->Ok_0.ukey == descriptor.ukey,
    {
        match check_session_key(session_key) {
            Err(e) => Err(e),
            Ok(()) => Ok(UploadSession::with_ticket(descriptor)),
        }
    }

    /// What the caller is to do next.
    pub fn action(&self) -> (a: UploadAction)
        ensures
            a == upload_action(self@),
    {
        if self.succeeded {
            UploadAction::Succeed
        } else if self.next < self.candidates.len() {
            UploadAction::Transfer(
                TransferPlan {
                    endpoint: self.candidates[self.next],
                    command_id: UPLOAD_COMMAND,
                    chunk_size: CHUNK_SIZE,
                },
            )
        } else {
            UploadAction::Fail(RQError::Transport)
        }
    }

    /// Takes in how the last transfer went.
    pub fn step(&mut self, ok: bool)
        ensures
            final(self)@ == upload_step(old(self)@, ok),
            old(self)@.wf() ==> final(self)@.wf(),
            final(self).resource_id == old(self).resource_id,
            final(self).ticket == old(self).ticket,
            final(self).ukey == old(self).ukey,
    {
        if self.succeeded || self.next >= self.candidates.len() {
            return ;
        }
        if ok {
            self.succeeded = true;
        } else {
            self.next = self.next + 1;
        }
    }

    /// The outcome of an upload that is over: the name of the resource, or
    /// the failure of the transfers. `None` while a transfer is left to
    /// make.
    pub fn outcome(self) -> (r: Option<RQResult<String>>)
        ensures
            !upload_over(self@) ==> r is None,
            self@.succeeded ==> r == Some(Ok::<String, RQError>(self.resource_id)),
            upload_over(self@) && !self@.succeeded ==> r == Some(
                Err::<String, RQError>(RQError::Transport),
            ),
    {
        if self.succeeded {
            Some(Ok(self.resource_id))
        } else if self.next >= self.candidates.len() {
            Some(Err(RQError::Transport))
        } else {
            None
        }
    }
}

/// An upload that is over stays as it is.
pub proof fn lemma_upload_over_is_final(m: UploadModel, results: Seq<bool>)
    requires
        upload_over(m),
    ensures
        upload_after(m, results) == m,
    decreases results.len(),
{
    if results.len() > 0 {
        lemma_upload_over_is_final(m, results.skip(1));
    }
}

proof fn lemma_upload_from(m: UploadModel, done: Seq<bool>, rest: Seq<bool>)
    requires
        !m.succeeded,
        m.next == done.len(),
        m.next <= m.candidates.len(),
        first_success(done, 0, m.candidates.len()) is None,
    ensures
        ({
            let all = done + rest;
            let end = upload_after(m, rest);
            match first_success(all, 0, m.candidates.len()) {
                Some(i) => end.succeeded && end.next == i,
                None => !end.succeeded && end.next == if all.len() <= m.candidates.len() {
                    all.len()
                } else {
                    m.candidates.len()
                },
            }
        }),
    decreases rest.len(),
{
    let all = done + rest;
    let n = m.candidates.len();
    lemma_first_success_split(done, rest, 0, n);
    if rest.len() == 0 {
        assert(all =~= done);
    } else if upload_over(m) {
        lemma_upload_over_is_final(m, rest);
        lemma_first_success_none_beyond(all, done.len(), n);
    } else if rest[0] {
        let m1 = upload_step(m, true);
        lemma_upload_over_is_final(m1, rest.skip(1));
        assert(all[done.len() as int] == rest[0]);
    } else {
        let m1 = upload_step(m, false);
        let done1 = done.push(false);
        assert(done1 + rest.skip(1) =~= all);
        assert(first_success(done1, 0, n) is None) by {
            lemma_first_success_split(done, seq![false], 0, n);
            assert(done + seq![false] =~= done1);
            assert(first_success(done1, done.len(), n) is None) by {
                reveal_with_fuel(first_success, 2);
            }
        }
        lemma_upload_from(m1, done1, rest.skip(1));
    }
}

/// The first success of `a + b`, searched from `from`, is that of `a` where
/// `a` has one, and else that of `a + b` searched from the end of `a`.
proof fn lemma_first_success_split(a: Seq<bool>, b: Seq<bool>, from: nat, limit: nat)
    requires
        from <= a.len(),
    ensures
        first_success(a + b, from, limit) == match first_success(a, from, limit) {
            Some(i) => Some(i),
            None => first_success(a + b, a.len(), limit),
        },
    decreases a.len() - from,
{
    if from < a.len() && from < limit {
        assert((a + b)[from as int] == a[from as int]);
        if !a[from as int] {
            lemma_first_success_split(a, b, from + 1, limit);
        }
    } else if from < a.len() {
        lemma_first_success_none_beyond(a + b, a.len(), limit);
    }
}

/// There is no success at or after the limit.
proof fn lemma_first_success_none_beyond(r: Seq<bool>, from: nat, limit: nat)
    requires
        from >= limit,
    ensures
        first_success(r, from, limit) is None,
{
}

/// However the transfers go, the endpoints are tried in their order and the
/// first that takes the upload ends it: the upload has succeeded exactly
/// where one of the transfers to the candidates went well, the endpoint that
/// took it is the first such, and no endpoint behind it was tried. Where
/// none went well, as many endpoints have failed as transfers were made, all
/// of them at most.
pub proof fn lemma_upload_outcome(candidates: Seq<Endpoint>, results: Seq<bool>)
    ensures
        ({
            let end = upload_after(upload_start(candidates), results);
            match first_success(results, 0, candidates.len()) {
                Some(i) => end.succeeded && end.next == i,
                None => !end.succeeded && end.next == if results.len() <= candidates.len() {
                    results.len()
                } else {
                    candidates.len()
                },
            }
        }),
{
    assert(Seq::<bool>::empty() + results =~= results);
    lemma_upload_from(upload_start(candidates), Seq::empty(), results);
}

/// How an action of an upload ended.
#[derive(Clone, Debug)]
pub enum UploadEvent {
    /// The server has answered the request for a ticket.
    Ticket(TransferDescriptor),
    /// The request for a ticket failed, with this error.
    TicketFailed(RQError),
    /// A transfer went well, or did not.
    Transferred(bool),
}

/// An upload, from the request for its ticket to its last transfer.
#[derive(Clone, Debug)]
pub enum Upload {
    /// The ticket is to be asked for, with this request.
    Asking(ApplyUpRequest),
    /// The ticket is there, and the endpoints are tried.
    Transferring(UploadSession),
    /// The upload has failed before its first transfer.
    Failed(RQError),
}

/// What of an `Upload` decides how it goes on.
pub enum UploadState {
    Asking,
    Transferring(UploadModel),
    Failed(RQError),
}

impl View for Upload {
    type V = UploadState;

    open spec fn view(&self) -> UploadState {
        match *self {
            Upload::Asking(_) => UploadState::Asking,
            Upload::Transferring(s) => UploadState::Transferring(s@),
            Upload::Failed(e) => UploadState::Failed(e),
        }
    }
}

/// The action that an upload in the state `u` asks for.
pub open spec fn flow_action(u: UploadState) -> UploadAction {
    match u {
        UploadState::Asking => UploadAction::RequestTicket,
        UploadState::Transferring(m) => upload_action(m),
        UploadState::Failed(e) => UploadAction::Fail(e),
    }
}

/// The upload after an event. An event that does not answer the action that
/// the upload is waiting on changes nothing.
pub open spec fn flow_step(u: UploadState, e: UploadEvent) -> UploadState {
    match (u, e) {
        (UploadState::Asking, UploadEvent::Ticket(d)) => UploadState::Transferring(
            upload_start(endpoints_of(d.ips@, d.ports@)),
        ),
        (UploadState::Asking, UploadEvent::TicketFailed(err)) => UploadState::Failed(err),
        (UploadState::Transferring(m), UploadEvent::Transferred(ok)) => UploadState::Transferring(
            upload_step(m, ok),
        ),
        _ => u,
    }
}

/// The upload after event upon event.
pub open spec fn flow_after(u: UploadState, events: Seq<UploadEvent>) -> UploadState
    decreases events.len(),
{
    if events.len() == 0 {
        u
    } else {
        flow_after(flow_step(u, events[0]), events.skip(1))
    }
}

impl Upload {
    /// Starts an upload of `data` to `dst_uin`. Without the session key of
    /// the transfer channel the upload has failed from the start, and asks
    /// for nothing.
    pub fn start(data: &[u8], kind: MultiMsgKind, dst_uin: i64, session_key: &[u8]) -> (u: Upload)
        requires
            data@.len() <= i64::MAX,
        ensures
            session_key@.len() == 0 ==> u == Upload::Failed(
                RQError::MissingField(Field::HighwaySessionKey),
            ),
            session_key@.len() > 0 ==> u is Asking && is_apply_up_request(
                u->Asking_0,
                data@,
                kind,
                dst_uin,
            ),
    {
        match check_session_key(session_key) {
            Err(e) => Upload::Failed(e),
            Ok(()) => Upload::Asking(apply_up_request(data, kind, dst_uin)),
        }
    }

    /// What the caller is to do next.
    pub fn action(&self) -> (a: UploadAction)
        ensures
            a == flow_action(self@),
    {
        match self {
            Upload::Asking(_) => UploadAction::RequestTicket,
            Upload::Transferring(s) => s.action(),
            Upload::Failed(e) => UploadAction::Fail(*e),
        }
    }

    /// Takes in how the last action ended.
    pub fn step(self, event: UploadEvent) -> (next: Upload)
        ensures
            next@ == flow_step(self@, event),
            flow_stepped(self, event, next),
    {
        match (self, event) {
            (Upload::Asking(_), UploadEvent::Ticket(descriptor)) => Upload::Transferring(
                UploadSession::with_ticket(descriptor),
            ),
            (Upload::Asking(_), UploadEvent::TicketFailed(err)) => Upload::Failed(err),
            (Upload::Transferring(session), UploadEvent::Transferred(ok)) => {
                let mut session = session;
                session.step(ok);
                Upload::Transferring(session)
            },
            (upload, _) => upload,
        }
    }

    /// The outcome of an upload that is over: the name of the resource, or
    /// why there is none. `None` while an action is left to take.
    pub fn outcome(self) -> (r: Option<RQResult<String>>)
        ensures
            r == flow_outcome(self),
    {
        match self {
            Upload::Asking(_) => None,
            Upload::Transferring(session) => session.outcome(),
            Upload::Failed(e) => Some(Err(e)),
        }
    }
}

/// What an event does to an upload beyond its state: the name of the
/// resource, the ticket and the key come with the answer of the server and
/// stay as they came, and where nothing happens, nothing changes.
pub open spec fn flow_stepped(pre: Upload, e: UploadEvent, post: Upload) -> bool {
    match (pre, e) {
        (Upload::Asking(_), UploadEvent::Ticket(d)) => post matches Upload::Transferring(s)
            && s.resource_id == d.resource_id && s.ticket == d.ticket && s.ukey == d.ukey,
        (Upload::Asking(_), UploadEvent::TicketFailed(err)) => post == Upload::Failed(err),
        (Upload::Transferring(s), UploadEvent::Transferred(_)) => post matches Upload::Transferring(
            t,
        ) && t.resource_id == s.resource_id && t.ticket == s.ticket && t.ukey == s.ukey,
        _ => post == pre,
    }
}

/// The outcome of an upload, once it is over.
pub open spec fn flow_outcome(u: Upload) -> Option<RQResult<String>> {
    match u {
        Upload::Asking(_) => None,
        Upload::Transferring(s) => if s@.succeeded {
            Some(Ok(s.resource_id))
        } else if upload_over(s@) {
            Some(Err(RQError::Transport))
        } else {
            None
        },
        Upload::Failed(e) => Some(Err(e)),
    }
}

/// An upload that has failed before its first transfer stays failed, with
/// the same error, whatever it is told; it never asks for a ticket or a
/// transfer. Such is an upload that was started without the session key.
pub proof fn lemma_failed_asks_for_nothing(e: RQError, events: Seq<UploadEvent>)
    ensures
        flow_after(UploadState::Failed(e), events) == UploadState::Failed(e),
        flow_action(flow_after(UploadState::Failed(e), events)) == UploadAction::Fail(e),
    decreases events.len(),
{
    if events.len() > 0 {
        lemma_failed_asks_for_nothing(e, events.skip(1));
    }
}

/// The events of transfer upon transfer.
pub open spec fn transfers(results: Seq<bool>) -> Seq<UploadEvent> {
    Seq::new(results.len(), |i: int| UploadEvent::Transferred(results[i]))
}

/// An upload that has its ticket, and is then told how transfer upon
/// transfer went, goes as its transfers go.
pub proof fn lemma_flow_follows_transfers(m: UploadModel, results: Seq<bool>)
    ensures
        flow_after(UploadState::Transferring(m), transfers(results)) == UploadState::Transferring(
            upload_after(m, results),
        ),
    decreases results.len(),
{
    if results.len() > 0 {
        assert(transfers(results).skip(1) =~= transfers(results.skip(1)));
        lemma_flow_follows_transfers(upload_step(m, results[0]), results.skip(1));
    }
}

} // verus!
