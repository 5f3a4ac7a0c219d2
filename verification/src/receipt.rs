//! Sending a message: its nonce, its waiter, and its receipt.
//!
//! Every message that goes out carries a random nonce, which the server
//! repeats when it reports the delivery. Before the message is sent, a slot
//! that waits for that report is put into a registry under the nonce, so that
//! a report which comes early still finds its slot.
//!
//! The registry forgets by time: a slot is stamped when it is put in, and one
//! that is older than the lifespan of the registry counts as absent. Whoever
//! handles a delivery report takes the slot out; a slot that has outlived the
//! lifespan by then is dropped and not handed out. A slot that nobody takes
//! out stays until the registry is flushed, which drops every slot that has
//! outlived the lifespan.

use cached::TimedCache;
use tokio::sync::oneshot::Sender;
use vstd::prelude::*;

verus! {

/// The sending half of a channel that carries one value.
#[verifier::external_type_specification]
#[verifier::external_body]
#[verifier::reject_recursive_types(T)]
pub struct ExSender<T>(Sender<T>);

/// A map whose entries expire.
#[verifier::external_type_specification]
#[verifier::external_body]
#[verifier::reject_recursive_types(K)]
#[verifier::reject_recursive_types(V)]
pub struct ExTimedCache<K, V>(TimedCache<K, V>);

/// The nonces under which a cache stores a slot, whether or not the slot has
/// outlived the lifespan.
pub uninterp spec fn stored(cache: TimedCache<i32, Sender<i32>>) -> Set<i32>;

/// The number of seconds after which a cache counts a slot as absent.
pub uninterp spec fn lifespan_of(cache: TimedCache<i32, Sender<i32>>) -> u64;

/// Calls `TimedCache::with_lifespan`. The claim: the new cache stores
/// nothing, and has the lifespan that it was made with.
#[verifier::external_body]
fn cache_with_lifespan(seconds: u64) -> (cache: TimedCache<i32, Sender<i32>>)
    ensures
        stored(cache) == Set::<i32>::empty(),
        lifespan_of(cache) == seconds,
{
    TimedCache::with_lifespan(seconds)
}

/// Calls `Cached::cache_set` of `TimedCache`. The claim: the slot is stored
/// under the nonce, in place of one that was stored under it before, and
/// nothing else leaves or enters the cache; the lifespan stays.
#[verifier::external_body]
fn cache_set(cache: &mut TimedCache<i32, Sender<i32>>, nonce: i32, slot: Sender<i32>)
    ensures
        stored(*final(cache)) == stored(*old(cache)).insert(nonce),
        lifespan_of(*final(cache)) == lifespan_of(*old(cache)),
{
    let _ = cached::Cached::cache_set(cache, nonce, slot);
}

/// Calls `Cached::cache_size` of `TimedCache`. The claim: it counts the
/// nonces that the cache stores.
#[verifier::external_body]
fn cache_size(cache: &TimedCache<i32, Sender<i32>>) -> (n: usize)
    ensures
        n == stored(*cache).len(),
{
    cached::Cached::cache_size(cache)
}

/// Calls `Cached::cache_lifespan` of `TimedCache`. The claim: it gives the
/// lifespan of the cache.
#[verifier::external_body]
fn cache_lifespan(cache: &TimedCache<i32, Sender<i32>>) -> (seconds: Option<u64>)
    ensures
        seconds == Some(lifespan_of(*cache)),
{
    cached::Cached::cache_lifespan(cache)
}

/// Calls `Cached::cache_remove` of `TimedCache`. The claim: whatever was
/// stored under the nonce leaves the cache and nothing else does; a slot is
/// handed out only if one was stored, and then only if it has not outlived
/// the lifespan, which the clock decides.
#[verifier::external_body]
fn cache_remove(cache: &mut TimedCache<i32, Sender<i32>>, nonce: i32) -> (slot: Option<
    Sender<i32>,
>)
    ensures
        stored(*final(cache)) == stored(*old(cache)).remove(nonce),
        lifespan_of(*final(cache)) == lifespan_of(*old(cache)),
        slot is Some ==> stored(*old(cache)).contains(nonce),
{
    cached::Cached::cache_remove(cache, &nonce)
}

/// Calls `TimedCache::flush`. The claim: nothing enters the cache; which
/// slots leave it the clock decides.
#[verifier::external_body]
fn cache_flush(cache: &mut TimedCache<i32, Sender<i32>>)
    ensures
        stored(*final(cache)).subset_of(stored(*old(cache))),
        lifespan_of(*final(cache)) == lifespan_of(*old(cache)),
{
    cache.flush();
}

/// Calls `tokio::sync::oneshot::channel` and keeps the sending half.
#[verifier::external_body]
fn new_slot() -> Sender<i32> {
    tokio::sync::oneshot::channel::<i32>().0
}

/// Calls `rand::random`. Nothing is claimed of the number.
#[verifier::external_body]
fn random_u32() -> u32 {
    rand::random::<u32>()
}

/// The registry of the slots that wait for a delivery report.
pub struct ReceiptWaiters {
    cache: TimedCache<i32, Sender<i32>>,
}

impl ReceiptWaiters {
    /// The nonces that have a slot in the registry.
    pub closed spec fn nonces(&self) -> Set<i32> {
        stored(self.cache)
    }

    /// The number of seconds after which the registry forgets a slot.
    pub closed spec fn spec_lifespan(&self) -> u64 {
        lifespan_of(self.cache)
    }

    /// A registry without slots, which forgets a slot after `lifespan`
    /// seconds.
    pub fn new(lifespan: u64) -> (w: ReceiptWaiters)
        ensures
            w.nonces() == Set::<i32>::empty(),
            w.spec_lifespan() == lifespan,
    {
        ReceiptWaiters { cache: cache_with_lifespan(lifespan) }
    }

    /// Puts a slot into the registry under a nonce.
    pub fn register(&mut self, nonce: i32, slot: Sender<i32>)
        ensures
            final(self).nonces() == old(self).nonces().insert(nonce),
            final(self).spec_lifespan() == old(self).spec_lifespan(),
    {
        cache_set(&mut self.cache, nonce, slot);
    }

    /// Takes the slot of a nonce out of the registry, for the report of the
    /// delivery to be sent through it. Afterwards the nonce has no slot. No
    /// slot is handed out where none was registered, and none where the slot
    /// has outlived the lifespan: such a slot is dropped.
    pub fn take(&mut self, nonce: i32) -> (slot: Option<Sender<i32>>)
        ensures
            final(self).nonces() == old(self).nonces().remove(nonce),
            final(self).spec_lifespan() == old(self).spec_lifespan(),
            slot is Some ==> old(self).nonces().contains(nonce),
    {
        cache_remove(&mut self.cache, nonce)
    }

    /// Drops the slots that have outlived the lifespan. No slot enters the
    /// registry; which slots leave it depends on the clock.
    pub fn flush(&mut self)
        ensures
            final(self).nonces().subset_of(old(self).nonces()),
            final(self).spec_lifespan() == old(self).spec_lifespan(),
    {
        cache_flush(&mut self.cache);
    }

    /// The number of seconds after which the registry forgets a slot.
    #[verifier::when_used_as_spec(spec_lifespan)]
    pub fn lifespan(&self) -> (seconds: u64)
        ensures
            seconds == self.spec_lifespan(),
    {
        match cache_lifespan(&self.cache) {
            Some(seconds) => seconds,
            None => 0,
        }
    }

    /// The number of slots in the registry.
    pub fn len(&self) -> (n: usize)
        ensures
            n == self.nonces().len(),
    {
        cache_size(&self.cache)
    }
}

/// The nonce that a random number gives: the number without its lowest bit,
/// so that the nonce is not negative.
pub open spec fn nonce_of(raw: u32) -> i32 {
    (raw / 2) as i32
}

/// Makes a nonce of a random number.
pub fn nonce_from(raw: u32) -> (nonce: i32)
    ensures
        nonce == nonce_of(raw),
        nonce == raw / 2,
        nonce >= 0,
{
    let half: u32 = raw >> 1;
    assert(half == raw / 2 && half <= 0x7fff_ffff) by (bit_vector)
        requires
            half == raw >> 1,
    ;
    half as i32
}

/// Draws a nonce.
pub fn fresh_nonce() -> (nonce: i32)
    ensures
        nonce >= 0,
{
    nonce_from(random_u32())
}

/// What a message goes out with.
#[derive(Clone, Copy, Debug, PartialEq, Eq, Structural)]
pub struct SendTicket {
    /// The sequence number of the message.
    pub seq: i32,
    /// The nonce that the delivery report will repeat.
    pub nonce: i32,
    /// The time that the message is stamped with.
    pub time: i64,
}

/// What tells a sent message from others: its sequence numbers, its nonces,
/// and the time at which it was sent.
#[derive(Clone, Debug)]
pub struct MessageReceipt {
    pub seqs: Vec<i32>,
    pub rands: Vec<i32>,
    pub time: i64,
}

/// Prepares a message for sending, given the random number to make its nonce
/// of: a slot is registered under the nonce, and the ticket names the nonce.
/// The message is to be sent after this, never before.
pub fn begin_send_with(waiters: &mut ReceiptWaiters, seq: i32, time: i64, raw: u32) -> (t:
    SendTicket)
    ensures
        t == (SendTicket { seq, nonce: nonce_of(raw), time }),
        final(waiters).nonces() == old(waiters).nonces().insert(t.nonce),
        final(waiters).spec_lifespan() == old(waiters).spec_lifespan(),
{
    let nonce = nonce_from(raw);
    waiters.register(nonce, new_slot());
    SendTicket { seq, nonce, time }
}

/// Prepares a message for sending: draws its nonce, registers a slot under
/// it, and hands out the ticket to send the message with. The message is to
/// be sent after this, never before.
///
/// The slot is registered for whoever handles the delivery report. The
/// sender does not wait on it: a message counts as sent once the transport
/// has taken it.
pub fn begin_send(waiters: &mut ReceiptWaiters, seq: i32, time: i64) -> (t: SendTicket)
    ensures
        t.seq == seq,
        t.time == time,
        t.nonce >= 0,
        final(waiters).nonces() == old(waiters).nonces().insert(t.nonce),
        final(waiters).spec_lifespan() == old(waiters).spec_lifespan(),
{
    begin_send_with(waiters, seq, time, random_u32())
}

impl SendTicket {
    /// The receipt of the message, once the transport has taken it at the
    /// time `sent_at`.
    pub fn receipt(&self, sent_at: i64) -> (r: MessageReceipt)
        ensures
            r.seqs@ == seq![self.seq],
            r.rands@ == seq![self.nonce],
            r.time == sent_at,
    {
        let mut seqs: Vec<i32> = Vec::new();
        seqs.push(self.seq);
        let mut rands: Vec<i32> = Vec::new();
        rands.push(self.nonce);
        MessageReceipt { seqs, rands, time: sent_at }
    }
}

} // verus!
