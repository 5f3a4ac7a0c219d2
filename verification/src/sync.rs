//! Incremental synchronisation of messages.
//!
//! The server hands out what a client has missed page by page. A session asks
//! for a page, acknowledges every message of it, and only then counts the
//! page as received: it moves the cursors, keeps the messages, and asks for
//! the next page with the flag that the page named. A page that does not
//! arrive, or whose acknowledgement fails, ends the session with what was
//! received before; that page is not counted, and nothing is asked twice.
//!
//! The session performs nothing itself. It names the next action, and is told
//! how the action ended.

use vstd::prelude::*;

verus! {

/// The flag of the first request.
pub const SYNC_START: i32 = 0;

/// The flag of a page after which there are more.
pub const SYNC_CONTINUE: i32 = 1;

/// The flag of the last page.
pub const SYNC_STOP: i32 = 2;

/// The kind of a page that moves both cursors.
pub const RSP_FULL: i32 = 0;

/// The kind of a page that moves the sync cursor only.
pub const RSP_SYNC_COOKIE: i32 = 1;

/// The kind of a page that moves the cursor of public accounts only.
pub const RSP_PUB_ACCOUNT_COOKIE: i32 = 2;

/// What identifies a message to the server.
#[derive(Clone, Copy, Debug, PartialEq, Eq, Structural)]
pub struct MessageItem {
    pub from_uin: i64,
    pub to_uin: i64,
    pub msg_type: i32,
    pub msg_seq: i32,
    pub msg_uid: i64,
}

/// A message of a page: what identifies it, and the rest as it came.
#[derive(Clone, Debug)]
pub struct SyncedMessage {
    pub head: MessageItem,
    pub body: Vec<u8>,
}

/// One page of synchronisation.
#[derive(Clone, Debug)]
pub struct SyncPage {
    pub msgs: Vec<SyncedMessage>,
    /// Which cursors the page moves.
    pub rsp_type: i32,
    pub sync_cookie: Option<Vec<u8>>,
    pub pub_account_cookie: Option<Vec<u8>>,
    /// The flag to ask for the next page with, or `SYNC_STOP`.
    pub sync_flag: i32,
}

/// The two cursors that tell the server where a client stands.
#[derive(Clone, Debug)]
pub struct SyncCursors {
    pub sync_cookie: Vec<u8>,
    pub pub_account_cookie: Vec<u8>,
}

/// Where a session stands.
#[derive(Clone, Debug)]
pub enum SyncPhase {
    /// A page is to be asked for.
    Requesting,
    /// The page has arrived and is to be acknowledged.
    Acknowledging(SyncPage),
    /// The session has ended.
    Done,
}

/// How an action of the session ended.
#[derive(Clone, Debug)]
pub enum SyncEvent {
    /// The page that was asked for.
    Page(SyncPage),
    /// The page did not arrive, or could not be decoded.
    PageFailed,
    /// The server took the acknowledgement.
    Acked,
    /// The acknowledgement failed.
    AckFailed,
}

/// What the caller is to do next.
#[derive(Clone, Debug)]
pub enum SyncAction {
    /// Ask for a page with this flag.
    Request { flag: i32 },
    /// Acknowledge these messages.
    Acknowledge { items: Vec<MessageItem> },
    /// Nothing: take the outcome.
    Finish,
}

/// What a session has received.
#[derive(Clone, Debug)]
pub struct SyncOutcome {
    /// The messages of the pages that were acknowledged, in their order.
    pub msgs: Vec<SyncedMessage>,
    /// Whether the last page was reached; if not, the session ended early.
    pub complete: bool,
}

/// A session of synchronisation.
#[derive(Clone, Debug)]
pub struct SyncSession {
    pub phase: SyncPhase,
    /// The flag to ask for the next page with.
    pub flag: i32,
    /// The messages of the pages acknowledged so far.
    pub msgs: Vec<SyncedMessage>,
    /// Whether the last page was reached.
    pub complete: bool,
}

/// What a `SyncSession` holds.
pub struct SyncModel {
    pub phase: SyncPhase,
    pub flag: i32,
    pub msgs: Seq<SyncedMessage>,
    pub complete: bool,
}

impl View for SyncSession {
    type V = SyncModel;

    open spec fn view(&self) -> SyncModel {
        SyncModel { phase: self.phase, flag: self.flag, msgs: self.msgs@, complete: self.complete }
    }
}

impl SyncModel {
    /// Whether the state is one that a session can be in: only a session
    /// that has ended on the last page is complete.
    pub open spec fn wf(self) -> bool {
        self.complete ==> self.phase is Done && self.flag == SYNC_STOP
    }
}

/// A session before its first request.
pub open spec fn initial() -> SyncModel {
    SyncModel { phase: SyncPhase::Requesting, flag: SYNC_START, msgs: Seq::empty(), complete: false }
}

/// What identifies each of `msgs`, in their order.
pub open spec fn items_of(msgs: Seq<SyncedMessage>) -> Seq<MessageItem> {
    Seq::new(msgs.len(), |i: int| msgs[i].head)
}

/// What a page says of the cursors.
#[derive(Clone, Debug)]
pub struct CursorUpdate {
    /// Which cursors are moved.
    pub rsp_type: i32,
    pub sync_cookie: Option<Vec<u8>>,
    pub pub_account_cookie: Option<Vec<u8>>,
}

/// What a page says of the cursors.
pub open spec fn update_of(p: SyncPage) -> CursorUpdate {
    CursorUpdate {
        rsp_type: p.rsp_type,
        sync_cookie: p.sync_cookie,
        pub_account_cookie: p.pub_account_cookie,
    }
}

/// The cursors after an update: a full one moves both, the two other kinds
/// one each, and any other kind none. A cursor that the update does not
/// bring stays.
pub open spec fn applied(c: SyncCursors, u: CursorUpdate) -> SyncCursors {
    SyncCursors {
        sync_cookie: if (u.rsp_type == RSP_FULL || u.rsp_type == RSP_SYNC_COOKIE)
            && u.sync_cookie is Some {
            u.sync_cookie->0
        } else {
            c.sync_cookie
        },
        pub_account_cookie: if (u.rsp_type == RSP_FULL || u.rsp_type == RSP_PUB_ACCOUNT_COOKIE)
            && u.pub_account_cookie is Some {
            u.pub_account_cookie->0
        } else {
            c.pub_account_cookie
        },
    }
}

/// The cursors after a page.
pub open spec fn advanced(c: SyncCursors, p: SyncPage) -> SyncCursors {
    applied(c, update_of(p))
}

/// The session after an event. An event that does not answer the action that
/// the session is waiting on changes nothing.
pub open spec fn session_step(s: SyncModel, e: SyncEvent) -> SyncModel {
    match (s.phase, e) {
        (SyncPhase::Requesting, SyncEvent::Page(p)) => SyncModel {
            phase: SyncPhase::Acknowledging(p),
            ..s
        },
        (SyncPhase::Requesting, SyncEvent::PageFailed) => SyncModel { phase: SyncPhase::Done, ..s },
        (SyncPhase::Acknowledging(p), SyncEvent::Acked) => SyncModel {
            phase: if p.sync_flag == SYNC_STOP {
                SyncPhase::Done
            } else {
                SyncPhase::Requesting
            },
            flag: p.sync_flag,
            msgs: s.msgs + p.msgs@,
            complete: p.sync_flag == SYNC_STOP,
        },
        (SyncPhase::Acknowledging(_), SyncEvent::AckFailed) => SyncModel {
            phase: SyncPhase::Done,
            ..s
        },
        _ => s,
    }
}

/// What an event says of the cursors: the update of the page that the
/// session is waiting on, where the event is its acknowledgement, and
/// nothing otherwise.
pub open spec fn cursor_update(s: SyncModel, e: SyncEvent) -> Option<CursorUpdate> {
    match (s.phase, e) {
        (SyncPhase::Acknowledging(p), SyncEvent::Acked) => Some(update_of(p)),
        _ => None,
    }
}

/// The session and the cursors after an event.
pub open spec fn model_step(s: SyncModel, c: SyncCursors, e: SyncEvent) -> (SyncModel, SyncCursors) {
    (
        session_step(s, e),
        match cursor_update(s, e) {
            Some(u) => applied(c, u),
            None => c,
        },
    )
}

/// Whether `a` is the action that a session in the state `s` asks for.
pub open spec fn is_action_of(s: SyncModel, a: SyncAction) -> bool {
    match s.phase {
        SyncPhase::Requesting => a == (SyncAction::Request { flag: s.flag }),
        SyncPhase::Acknowledging(p) => a matches SyncAction::Acknowledge { items } && items@
            == items_of(p.msgs@),
        SyncPhase::Done => a is Finish,
    }
}

impl CursorUpdate {
    /// Moves the cursors as the update says. This is the one place where
    /// the cursors change.
    pub fn apply(self, cursors: &mut SyncCursors)
        ensures
            *final(cursors) == applied(*old(cursors), self),
    {
        let CursorUpdate { rsp_type, sync_cookie, pub_account_cookie } = self;
        if rsp_type == RSP_FULL || rsp_type == RSP_SYNC_COOKIE {
            if let Some(cookie) = sync_cookie {
                cursors.sync_cookie = cookie;
            }
        }
        if rsp_type == RSP_FULL || rsp_type == RSP_PUB_ACCOUNT_COOKIE {
            if let Some(cookie) = pub_account_cookie {
                cursors.pub_account_cookie = cookie;
            }
        }
    }
}

/// Parts a page into its messages and what it says of the cursors.
pub fn part(page: SyncPage) -> (r: (Vec<SyncedMessage>, CursorUpdate))
    ensures
        r.0 == page.msgs,
        r.1 == update_of(page),
{
    let SyncPage { msgs, rsp_type, sync_cookie, pub_account_cookie, sync_flag: _ } = page;
    (msgs, CursorUpdate { rsp_type, sync_cookie, pub_account_cookie })
}

/// Moves the cursors as a page says, and hands out the messages of the page.
pub fn advance(cursors: &mut SyncCursors, page: SyncPage) -> (msgs: Vec<SyncedMessage>)
    ensures
        *final(cursors) == advanced(*old(cursors), page),
        msgs == page.msgs,
{
    let (msgs, update) = part(page);
    update.apply(cursors);
    msgs
}

/// What identifies each message of a page, for the acknowledgement.
pub fn ack_items(msgs: &Vec<SyncedMessage>) -> (items: Vec<MessageItem>)
    ensures
        items@ == items_of(msgs@),
{
    let mut items: Vec<MessageItem> = Vec::new();
    let mut i: usize = 0;
    while i < msgs.len()
        invariant
            i <= msgs@.len(),
            items@ == items_of(msgs@.take(i as int)),
        decreases msgs@.len() - i,
    {
        items.push(msgs[i].head);
        proof {
            assert(items@ =~= items_of(msgs@.take(i + 1)));
        }
        i = i + 1;
    }
    proof {
        assert(msgs@.take(i as int) =~= msgs@);
    }
    items
}

impl SyncSession {
    /// A session before its first request.
    pub fn new() -> (s: SyncSession)
        ensures
            s@ == initial(),
            s@.wf(),
    {
        SyncSession { phase: SyncPhase::Requesting, flag: SYNC_START, msgs: Vec::new(), complete: false }
    }

    /// What the caller is to do next.
    pub fn action(&self) -> (a: SyncAction)
        ensures
            is_action_of(self@, a),
    {
        match &self.phase {
            SyncPhase::Requesting => SyncAction::Request { flag: self.flag },
            SyncPhase::Acknowledging(page) => SyncAction::Acknowledge { items: ack_items(&page.msgs) },
            SyncPhase::Done => SyncAction::Finish,
        }
    }

    /// Takes in how the last action ended, and leaves the cursors to the
    /// caller: where a page was acknowledged, the update that comes back is
    /// to be applied to them, and where none comes back they stay. A caller
    /// that shares the cursors needs them to itself only for that.
    pub fn take_in(self, event: SyncEvent) -> (r: (SyncSession, Option<CursorUpdate>))
        ensures
            r.0@ == session_step(self@, event),
            r.1 == cursor_update(self@, event),
            self@.wf() ==> r.0@.wf(),
    {
        let SyncSession { phase, flag, msgs, complete } = self;
        match (phase, event) {
            (SyncPhase::Requesting, SyncEvent::Page(page)) => (
                SyncSession { phase: SyncPhase::Acknowledging(page), flag, msgs, complete },
                None,
            ),
            (SyncPhase::Requesting, SyncEvent::PageFailed) => (
                SyncSession { phase: SyncPhase::Done, flag, msgs, complete },
                None,
            ),
            (SyncPhase::Acknowledging(page), SyncEvent::Acked) => {
                let next_flag = page.sync_flag;
                let mut all = msgs;
                let (mut fresh, update) = part(page);
                all.append(&mut fresh);
                let stop = next_flag == SYNC_STOP;
                (
                    SyncSession {
                        phase: if stop {
                            SyncPhase::Done
                        } else {
                            SyncPhase::Requesting
                        },
                        flag: next_flag,
                        msgs: all,
                        complete: stop,
                    },
                    Some(update),
                )
            },
            (SyncPhase::Acknowledging(_), SyncEvent::AckFailed) => (
                SyncSession { phase: SyncPhase::Done, flag, msgs, complete },
                None,
            ),
            (phase, _) => (SyncSession { phase, flag, msgs, complete }, None),
        }
    }

    /// Takes in how the last action ended, and moves the cursors where a
    /// page was acknowledged.
    pub fn step(self, cursors: &mut SyncCursors, event: SyncEvent) -> (next: SyncSession)
        ensures
            (next@, *final(cursors)) == model_step(self@, *old(cursors), event),
            self@.wf() ==> next@.wf(),
    {
        let (next, update) = self.take_in(event);
        match update {
            Some(u) => {
                u.apply(cursors);
            },
            None => {},
        }
        next
    }

    /// Whether the session has ended.
    pub fn is_done(&self) -> (done: bool)
        ensures
            done == (self@.phase is Done),
    {
        match &self.phase {
            SyncPhase::Done => true,
            _ => false,
        }
    }

    /// What the session has received. A session that ended early hands out
    /// what it received before, and is not an error.
    pub fn into_outcome(self) -> (o: SyncOutcome)
        ensures
            o.msgs@ == self@.msgs,
            o.complete == self@.complete,
    {
        SyncOutcome { msgs: self.msgs, complete: self.complete }
    }
}

/// A page counts only once it is acknowledged: but for the acknowledgement
/// of the page that the session is waiting on, no event adds a message or
/// moves a cursor, and that acknowledgement adds the messages of that page
/// behind the others.
pub proof fn lemma_only_acknowledged_pages_count(s: SyncModel, c: SyncCursors, e: SyncEvent)
    ensures
        !(s.phase is Acknowledging && e is Acked) ==> model_step(s, c, e).0.msgs == s.msgs
            && model_step(s, c, e).1 == c,
        s.phase is Acknowledging && e is Acked ==> model_step(s, c, e).0.msgs == s.msgs
            + s.phase->Acknowledging_0.msgs@ && model_step(s, c, e).1 == advanced(
            c,
            s.phase->Acknowledging_0,
        ),
{
}

/// How the request for one page went, from asking to acknowledging.
pub enum PageOutcome {
    /// The page did not arrive.
    Failed,
    /// The page arrived, and its acknowledgement failed.
    AckFailed(SyncPage),
    /// The page arrived and was acknowledged.
    Acked(SyncPage),
}

/// The session and the cursors after one page went as `o` says.
pub open spec fn after_page(s: SyncModel, c: SyncCursors, o: PageOutcome) -> (SyncModel, SyncCursors) {
    match o {
        PageOutcome::Failed => model_step(s, c, SyncEvent::PageFailed),
        PageOutcome::AckFailed(p) => {
            let (s1, c1) = model_step(s, c, SyncEvent::Page(p));
            model_step(s1, c1, SyncEvent::AckFailed)
        },
        PageOutcome::Acked(p) => {
            let (s1, c1) = model_step(s, c, SyncEvent::Page(p));
            model_step(s1, c1, SyncEvent::Acked)
        },
    }
}

/// The session and the cursors after page upon page went as `pages` says.
pub open spec fn after_pages(s: SyncModel, c: SyncCursors, pages: Seq<PageOutcome>) -> (
    SyncModel,
    SyncCursors,
)
    decreases pages.len(),
{
    if pages.len() == 0 {
        (s, c)
    } else {
        let (s1, c1) = after_page(s, c, pages[0]);
        after_pages(s1, c1, pages.skip(1))
    }
}

/// The messages that a session hands out where page upon page goes as
/// `pages` says: those of the pages that were acknowledged, up to the first
/// page that failed, whose acknowledgement failed, or that was the last.
pub open spec fn delivered(pages: Seq<PageOutcome>) -> Seq<SyncedMessage>
    decreases pages.len(),
{
    if pages.len() == 0 {
        Seq::empty()
    } else {
        match pages[0] {
            PageOutcome::Acked(p) => if p.sync_flag == SYNC_STOP {
                p.msgs@
            } else {
                p.msgs@ + delivered(pages.skip(1))
            },
            _ => Seq::empty(),
        }
    }
}

/// Whether the last page is reached where page upon page goes as `pages`
/// says.
pub open spec fn reaches_stop(pages: Seq<PageOutcome>) -> bool
    decreases pages.len(),
{
    if pages.len() == 0 {
        false
    } else {
        match pages[0] {
            PageOutcome::Acked(p) => p.sync_flag == SYNC_STOP || reaches_stop(pages.skip(1)),
            _ => false,
        }
    }
}

/// A session that has ended stays as it is, whatever it is told.
pub proof fn lemma_done_is_final(s: SyncModel, c: SyncCursors, pages: Seq<PageOutcome>)
    requires
        s.phase is Done,
    ensures
        after_pages(s, c, pages) == (s, c),
    decreases pages.len(),
{
    if pages.len() > 0 {
        lemma_done_is_final(s, c, pages.skip(1));
    }
}

/// A session that is about to ask for a page, and then sees page upon page
/// go as `pages` says, holds what it held before and what `delivered` says;
/// it is complete where the last page was reached.
pub proof fn lemma_after_pages(s: SyncModel, c: SyncCursors, pages: Seq<PageOutcome>)
    requires
        s.phase is Requesting,
        !s.complete,
    ensures
        after_pages(s, c, pages).0.msgs == s.msgs + delivered(pages),
        after_pages(s, c, pages).0.complete == reaches_stop(pages),
    decreases pages.len(),
{
    if pages.len() == 0 {
        assert(s.msgs + Seq::<SyncedMessage>::empty() =~= s.msgs);
    } else {
        let (s1, c1) = after_page(s, c, pages[0]);
        match pages[0] {
            PageOutcome::Acked(p) => {
                if p.sync_flag == SYNC_STOP {
                    lemma_done_is_final(s1, c1, pages.skip(1));
                } else {
                    lemma_after_pages(s1, c1, pages.skip(1));
                    assert((s.msgs + p.msgs@) + delivered(pages.skip(1)) =~= s.msgs + (p.msgs@
                        + delivered(pages.skip(1))));
                }
            },
            _ => {
                lemma_done_is_final(s1, c1, pages.skip(1));
                assert(s.msgs + Seq::<SyncedMessage>::empty() =~= s.msgs);
            },
        }
    }
}

/// A whole session: whatever happens to its pages, it hands out the messages
/// of the pages that were acknowledged before the first failure, in their
/// order, and a page whose acknowledgement failed is not among them.
pub proof fn lemma_session_delivers(c: SyncCursors, pages: Seq<PageOutcome>)
    ensures
        after_pages(initial(), c, pages).0.msgs == delivered(pages),
        after_pages(initial(), c, pages).0.complete == reaches_stop(pages),
{
    lemma_after_pages(initial(), c, pages);
    assert(Seq::<SyncedMessage>::empty() + delivered(pages) =~= delivered(pages));
}

} // verus!
