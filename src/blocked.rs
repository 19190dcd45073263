use vstd::prelude::*;
use crate::context::{AuthReply, BlockState, BlockedRecord, CallbackFiring, Context};
use crate::error::ValkeyError;
use crate::valkey_string::ValkeyString;

verus! {

/// Outcome code of an authentication callback that decided (allowed or denied).
pub const AUTH_HANDLED: i32 = 0;

/// Outcome code of an authentication callback that leaves the decision to the
/// next provider in the chain.
pub const AUTH_NOT_HANDLED: i32 = 1;

/// Stands for an absent callback: the type of the callbacks of a handle
/// made by `Context::block_client`.
pub struct NoCallback;

/// Whether `data` borrows the payload `payload` (and is absent without one).
pub open spec fn borrows_payload<T>(data: Option<&T>, payload: Option<T>) -> bool {
    match (data, payload) {
        (Some(d), Some(v)) => *d == v,
        (None, None) => true,
        _ => false,
    }
}

/// Whether `reply` is what the client receives for the callback result `res`.
pub open spec fn reply_for(res: Result<i32, ValkeyError>, reply: AuthReply) -> bool {
    match res {
        Ok(code) => reply == AuthReply::Code(code),
        Err(e) => reply matches AuthReply::Error(m) && m@ == e.message_view(),
    }
}

/// The kinds of reply callback a blocked operation can carry.
pub enum ReplyCallback<R> {
    Auth(R),
}

/// A handle on one client whose reply is deferred. It is moved, never
/// copied: releasing it (`unblock`) or aborting it consumes it, so an
/// operation is finalized at most once. Dropping it without releasing or
/// aborting it leaves the client blocked.
#[must_use]
pub struct BlockedClient<T = (), R = NoCallback, F = NoCallback> {
    inner: usize,
    credentials: (ValkeyString, ValkeyString),
    reply_callback: Option<ReplyCallback<R>>,
    free_callback: Option<F>,
    data: Option<T>,
}

/// What a released handle hands to the host: the callbacks and the payload,
/// kept until the host finalizes the operation.
pub struct BlockedClientPrivateData<T, R, F> {
    inner: usize,
    credentials: (ValkeyString, ValkeyString),
    reply_callback: Option<ReplyCallback<R>>,
    free_callback: Option<F>,
    data: Option<T>,
}

impl<T, R, F> BlockedClient<T, R, F> {
    /// A payload is only ever held together with a free callback.
    #[verifier::type_invariant]
    spec fn payload_has_free_callback(&self) -> bool {
        self.data is Some ==> self.free_callback is Some
    }

    /// The id of the host record behind the handle.
    pub closed spec fn id(&self) -> usize {
        self.inner
    }

    pub closed spec fn reply_cb(&self) -> Option<R> {
        match self.reply_callback {
            Some(ReplyCallback::Auth(r)) => Some(r),
            None => None,
        }
    }

    pub closed spec fn free_cb(&self) -> Option<F> {
        self.free_callback
    }

    pub closed spec fn has_reply_callback(&self) -> bool {
        self.reply_callback.is_some()
    }

    pub closed spec fn has_free_callback(&self) -> bool {
        self.free_callback.is_some()
    }

    pub closed spec fn payload(&self) -> Option<T> {
        self.data
    }

    /// The identities (user name, then password) of the attempt.
    pub closed spec fn credentials(&self) -> (Seq<u8>, Seq<u8>) {
        (self.credentials.0@, self.credentials.1@)
    }

    /// The id of the host record behind the handle.
    pub fn get_id(&self) -> (r: usize)
        ensures
            r == self.id(),
    {
        self.inner
    }

    /// Whether a free callback was registered, so that a payload may be attached.
    pub fn free_callback_registered(&self) -> (r: bool)
        ensures
            r == self.has_free_callback(),
    {
        self.free_callback.is_some()
    }

    /// Whether a payload is attached.
    pub fn payload_attached(&self) -> (r: bool)
        ensures
            r == self.payload() is Some,
            r ==> self.has_free_callback(),
    {
        proof {
            use_type_invariant(self);
        }
        self.data.is_some()
    }

    /// Attaches the payload that the callbacks will receive.
    ///
    /// Only a handle with a free callback takes a payload: without one the
    /// payload could never be released.
    pub fn set_blocked_private_data(&mut self, data: T)
        requires
            old(self).has_free_callback(),
            old(self).payload() is None,
        ensures
            final(self).payload() == Some(data),
            final(self).id() == old(self).id(),
            final(self).has_reply_callback() == old(self).has_reply_callback(),
            final(self).has_free_callback(),
            final(self).credentials() == old(self).credentials(),
            final(self).reply_cb() == old(self).reply_cb(),
            final(self).free_cb() == old(self).free_cb(),
    {
        self.data = Some(data);
    }
}

impl<T, R, F> BlockedClientPrivateData<T, R, F> {
    pub closed spec fn id(&self) -> usize {
        self.inner
    }

    pub closed spec fn reply_cb(&self) -> Option<R> {
        match self.reply_callback {
            Some(ReplyCallback::Auth(r)) => Some(r),
            None => None,
        }
    }

    pub closed spec fn free_cb(&self) -> Option<F> {
        self.free_callback
    }

    pub closed spec fn has_reply_callback(&self) -> bool {
        self.reply_callback.is_some()
    }

    pub closed spec fn has_free_callback(&self) -> bool {
        self.free_callback.is_some()
    }

    pub closed spec fn payload(&self) -> Option<T> {
        self.data
    }

    pub closed spec fn credentials(&self) -> (Seq<u8>, Seq<u8>) {
        (self.credentials.0@, self.credentials.1@)
    }

    pub fn get_id(&self) -> (r: usize)
        ensures
            r == self.id(),
    {
        self.inner
    }
}

impl<
    T,
    R: Fn(&Context, ValkeyString, ValkeyString, Option<&T>) -> Result<i32, ValkeyError>,
    F: Fn(&Context, T),
> BlockedClientPrivateData<T, R, F> {
    /// The callbacks accept every call the host makes.
    pub open spec fn callbacks_ready(&self) -> bool {
        &&& forall|c: &Context, u: ValkeyString, p: ValkeyString, d: Option<&T>|
            self.reply_cb() is Some ==> #[trigger] self.reply_cb().unwrap().requires((c, u, p, d))
        &&& forall|c: &Context, d: T|
            self.free_cb() is Some ==> #[trigger] self.free_cb().unwrap().requires((c, d))
    }
}

/// The id of the operation a firing belongs to.
pub open spec fn firing_id(f: CallbackFiring) -> usize {
    match f {
        CallbackFiring::Reply(id) => id,
        CallbackFiring::Free(id) => id,
    }
}

/// The state of the blocked-client table that every operation keeps:
/// no callback has run twice for one operation, callbacks ran only for
/// finalized operations, and an operation's reply ran before its free.
pub open spec fn blocked_wf(ctx: &Context) -> bool {
    let fired = ctx.fired();
    let records = ctx.records();
    &&& fired.no_duplicates()
    &&& forall|i: int|
        0 <= i < fired.len() ==> #[trigger] firing_id(fired[i]) < records.len() && records[firing_id(
            fired[i],
        ) as int].state == BlockState::Finalized
    &&& forall|i: int, j: int|
        0 <= i < fired.len() && 0 <= j < fired.len() && #[trigger] fired[i] == CallbackFiring::Free(
            firing_id(fired[j]),
        ) && #[trigger] fired[j] == CallbackFiring::Reply(firing_id(fired[j])) ==> j < i
}

/// The callbacks the host runs when it finalizes operation `id`: the reply
/// callback when it is registered and the client is still there, then the
/// free callback when it is registered and a payload is attached.
pub open spec fn finalize_firings(id: usize, reply: bool, free: bool) -> Seq<CallbackFiring> {
    (if reply {
        seq![CallbackFiring::Reply(id)]
    } else {
        Seq::empty()
    }) + (if free {
        seq![CallbackFiring::Free(id)]
    } else {
        Seq::empty()
    })
}

/// What the client receives, and the code the host gets, for a result of
/// the reply callback.
pub open spec fn auth_reply_outcome_spec(r: Result<i32, ValkeyError>, out: (AuthReply, i32)) -> bool {
    match r {
        Ok(code) => out.0 == AuthReply::Code(code) && out.1 == code,
        Err(e) => (out.0 matches AuthReply::Error(m) && m@ == e.message_view()) && out.1
            == AUTH_HANDLED,
    }
}

/// Turns the result of a reply callback into the reply for the client: an
/// outcome code as it is, an error as an error message with the code
/// `AUTH_HANDLED` (the attempt is decided: denied).
pub fn auth_reply_outcome(r: Result<i32, ValkeyError>) -> (out: (AuthReply, i32))
    ensures
        auth_reply_outcome_spec(r, out),
{
    match r {
        Ok(code) => (AuthReply::Code(code), code),
        Err(e) => (AuthReply::Error(e.message()), AUTH_HANDLED),
    }
}

/// Appending a reply firing and a free firing for `id` to a log that holds
/// none for `id` leaves exactly one of each, the reply first.
proof fn lemma_pair_appended_once(prefix: Seq<CallbackFiring>, fired: Seq<CallbackFiring>, id: usize)
    requires
        forall|k: int| 0 <= k < prefix.len() ==> firing_id(#[trigger] prefix[k]) != id,
        fired == prefix + finalize_firings(id, true, true),
    ensures
        ({
            let n = prefix.len() as int;
            &&& fired[n] == CallbackFiring::Reply(id)
            &&& fired[n + 1] == CallbackFiring::Free(id)
            &&& forall|k: int|
                0 <= k < fired.len() && fired[k] == CallbackFiring::Reply(id) ==> k == n
            &&& forall|k: int|
                0 <= k < fired.len() && fired[k] == CallbackFiring::Free(id) ==> k == n + 1
        }),
{
    let n = prefix.len() as int;
    assert forall|k: int|
        0 <= k < fired.len() && (fired[k] == CallbackFiring::Reply(id) || fired[k]
            == CallbackFiring::Free(id)) implies k >= n by {
        if k < n {
            assert(fired[k] == prefix[k]);
        }
    }
}

/// Completing an operation that has a reply callback, a free callback and a
/// payload, while its client is connected, runs each callback exactly once,
/// the reply first: after the host finalizes it, the log holds one reply
/// firing and one free firing for it, the reply earlier.
pub proof fn lemma_completion_runs_reply_then_free_once(before: Context, after: Context, id: usize)
    requires
        blocked_wf(&before),
        id < before.records().len(),
        before.records()[id as int].state == BlockState::Unblocked,
        after.fired() == before.fired() + finalize_firings(id, true, true),
    ensures
        ({
            let fired = after.fired();
            let n = before.fired().len() as int;
            &&& fired[n] == CallbackFiring::Reply(id)
            &&& fired[n + 1] == CallbackFiring::Free(id)
            &&& forall|k: int|
                0 <= k < fired.len() && fired[k] == CallbackFiring::Reply(id) ==> k == n
            &&& forall|k: int|
                0 <= k < fired.len() && fired[k] == CallbackFiring::Free(id) ==> k == n + 1
        }),
{
    assert forall|k: int| 0 <= k < before.fired().len() implies firing_id(#[trigger] before.fired()[k])
        != id by {
        assert(firing_id(before.fired()[k]) < before.records().len());
    }
    lemma_pair_appended_once(before.fired(), after.fired(), id);
}

/// The whole life of an operation with a reply callback, a free callback
/// and a payload: created (`block_client_on_auth`), given its payload
/// (which changes only the handle), released (`unblock`) and finalized by
/// the host (`run_unblocked`) while its client is connected. Nothing runs
/// for it before the host finalizes it; then its reply callback runs
/// exactly once and its free callback exactly once, the reply first.
pub proof fn lemma_operation_life_runs_reply_then_free_once(
    c0: Context,
    c1: Context,
    c2: Context,
    c3: Context,
    id: usize,
)
    requires
        blocked_wf(&c0),
        id == c0.records().len(),
        c1.records() == c0.records().push(
            BlockedRecord { client_id: c0.client(), state: BlockState::Blocked, connected: true },
        ),
        c1.fired() == c0.fired(),
        c2.records() == c1.records().update(
            id as int,
            BlockedRecord { state: BlockState::Unblocked, ..c1.records()[id as int] },
        ),
        c2.fired() == c1.fired(),
        c3.fired() == c2.fired() + finalize_firings(id, true, true),
    ensures
        forall|i: int| 0 <= i < c2.fired().len() ==> firing_id(#[trigger] c2.fired()[i]) != id,
        ({
            let fired = c3.fired();
            let n = c2.fired().len() as int;
            &&& fired[n] == CallbackFiring::Reply(id)
            &&& fired[n + 1] == CallbackFiring::Free(id)
            &&& forall|k: int|
                0 <= k < fired.len() && fired[k] == CallbackFiring::Reply(id) ==> k == n
            &&& forall|k: int|
                0 <= k < fired.len() && fired[k] == CallbackFiring::Free(id) ==> k == n + 1
        }),
{
    assert forall|k: int| 0 <= k < c2.fired().len() implies firing_id(#[trigger] c2.fired()[k]) != id by {
        assert(firing_id(c0.fired()[k]) < c0.records().len());
    }
    lemma_pair_appended_once(c2.fired(), c3.fired(), id);
}

/// Whatever the order in which operations were created, released, aborted
/// and finalized, in every state the operations keep: no callback of any
/// operation appears twice in the log, callbacks ran only for finalized
/// operations, and no operation's free callback ran before its reply
/// callback.
pub proof fn lemma_callbacks_run_at_most_once_in_any_order(ctx: Context, id: usize)
    requires
        blocked_wf(&ctx),
    ensures
        forall|i: int, j: int|
            0 <= i < ctx.fired().len() && 0 <= j < ctx.fired().len() && ctx.fired()[i]
                == ctx.fired()[j] ==> i == j,
        forall|i: int|
            0 <= i < ctx.fired().len() && firing_id(ctx.fired()[i]) == id ==> id
                < ctx.records().len() && ctx.records()[id as int].state == BlockState::Finalized,
        forall|i: int, j: int|
            0 <= i < ctx.fired().len() && 0 <= j < ctx.fired().len() && ctx.fired()[i]
                == CallbackFiring::Free(id) && ctx.fired()[j] == CallbackFiring::Reply(id) ==> j < i,
{
    assert forall|i: int, j: int|
        0 <= i < ctx.fired().len() && 0 <= j < ctx.fired().len() && ctx.fired()[i]
            == CallbackFiring::Free(id) && ctx.fired()[j] == CallbackFiring::Reply(id) implies j
        < i by {
        assert(firing_id(ctx.fired()[j]) == id);
    }
}

/// The callbacks run when the host finalizes, one after the other and in
/// the order `order`, operations that each have a reply callback, a free
/// callback and a payload, with their clients connected.
pub open spec fn firings_in_order(order: Seq<usize>) -> Seq<CallbackFiring>
    decreases order.len(),
{
    if order.len() == 0 {
        Seq::empty()
    } else {
        firings_in_order(order.drop_last()) + finalize_firings(order.last(), true, true)
    }
}

proof fn lemma_firings_in_order_shape(order: Seq<usize>)
    ensures
        firings_in_order(order).len() == 2 * order.len(),
        forall|j: int|
            0 <= j < order.len() ==> firings_in_order(order)[2 * j] == CallbackFiring::Reply(order[j])
                && firings_in_order(order)[2 * j + 1] == CallbackFiring::Free(order[j]),
    decreases order.len(),
{
    if order.len() > 0 {
        let prev = order.drop_last();
        lemma_firings_in_order_shape(prev);
        assert forall|j: int| 0 <= j < order.len() implies firings_in_order(order)[2 * j]
            == CallbackFiring::Reply(order[j]) && firings_in_order(order)[2 * j + 1]
            == CallbackFiring::Free(order[j]) by {
            if j < prev.len() {
                assert(prev[j] == order[j]);
            }
        }
    }
}

/// However many operations are outstanding and in whatever order the host
/// finalizes them: when operations with a reply callback, a free callback
/// and a payload (clients connected) are all finalized, each one's reply
/// callback ran exactly once and its free callback exactly once, the reply
/// first; no pair is lost or repeated.
pub proof fn lemma_any_finalization_order_runs_each_pair_once(
    before: Context,
    after: Context,
    order: Seq<usize>,
)
    requires
        blocked_wf(&before),
        order.no_duplicates(),
        forall|i: int|
            0 <= i < order.len() ==> #[trigger] order[i] < before.records().len()
                && before.records()[order[i] as int].state == BlockState::Unblocked,
        after.fired() == before.fired() + firings_in_order(order),
    ensures
        after.fired().len() == before.fired().len() + 2 * order.len(),
        forall|i: int|
            0 <= i < order.len() ==> {
                let id = #[trigger] order[i];
                let n = before.fired().len() as int;
                &&& after.fired()[n + 2 * i] == CallbackFiring::Reply(id)
                &&& after.fired()[n + 2 * i + 1] == CallbackFiring::Free(id)
                &&& forall|k: int|
                    0 <= k < after.fired().len() && after.fired()[k] == CallbackFiring::Reply(id)
                        ==> k == n + 2 * i
                &&& forall|k: int|
                    0 <= k < after.fired().len() && after.fired()[k] == CallbackFiring::Free(id)
                        ==> k == n + 2 * i + 1
            },
{
    lemma_firings_in_order_shape(order);
    let n = before.fired().len() as int;
    let f = firings_in_order(order);
    assert forall|i: int| 0 <= i < order.len() implies {
        let id = #[trigger] order[i];
        &&& after.fired()[n + 2 * i] == CallbackFiring::Reply(id)
        &&& after.fired()[n + 2 * i + 1] == CallbackFiring::Free(id)
        &&& forall|k: int|
            0 <= k < after.fired().len() && after.fired()[k] == CallbackFiring::Reply(id) ==> k == n
                + 2 * i
        &&& forall|k: int|
            0 <= k < after.fired().len() && after.fired()[k] == CallbackFiring::Free(id) ==> k == n
                + 2 * i + 1
    } by {
        let id = order[i];
        assert(after.fired()[n + 2 * i] == f[2 * i]);
        assert(after.fired()[n + 2 * i + 1] == f[2 * i + 1]);
        assert forall|k: int|
            0 <= k < after.fired().len() && (after.fired()[k] == CallbackFiring::Reply(id)
                || after.fired()[k] == CallbackFiring::Free(id)) implies (after.fired()[k]
            == CallbackFiring::Reply(id) ==> k == n + 2 * i) && (after.fired()[k]
            == CallbackFiring::Free(id) ==> k == n + 2 * i + 1) by {
            if k < n {
                assert(after.fired()[k] == before.fired()[k]);
                assert(firing_id(before.fired()[k]) == id);
            } else {
                let m = k - n;
                let j = m / 2;
                assert(after.fired()[k] == f[m]);
                assert(0 <= j < order.len());
                if m % 2 == 0 {
                    assert(m == 2 * j);
                    assert(f[m] == CallbackFiring::Reply(order[j]));
                } else {
                    assert(m == 2 * j + 1);
                    assert(f[m] == CallbackFiring::Free(order[j]));
                }
                assert(order[j] == id);
                assert(j == i);
            }
        }
    }
}

/// An aborted operation runs neither callback, with or without a payload:
/// in every state the operations keep, the log holds no firing for an
/// operation whose record says aborted (no operation leaves that state).
pub proof fn lemma_aborted_runs_no_callback(ctx: Context, id: usize)
    requires
        blocked_wf(&ctx),
        id < ctx.records().len(),
        ctx.records()[id as int].state == BlockState::Aborted,
    ensures
        forall|i: int| 0 <= i < ctx.fired().len() ==> firing_id(#[trigger] ctx.fired()[i]) != id,
{
}

/// What unloading the module makes of a record: an operation whose handle
/// is still held is aborted, or, when its client is gone and the host
/// refuses, left to the host with nothing to run.
pub open spec fn record_after_unload(r: BlockedRecord) -> BlockedRecord {
    if r.state == BlockState::Blocked {
        BlockedRecord {
            state: if r.connected {
                BlockState::Aborted
            } else {
                BlockState::Finalized
            },
            ..r
        }
    } else {
        r
    }
}

/// The ids, among the first `n` records, of the held operations whose
/// client is gone.
pub open spec fn unabortable_ids(records: Seq<BlockedRecord>, n: int) -> Seq<usize>
    decreases n,
{
    if n <= 0 {
        Seq::empty()
    } else {
        unabortable_ids(records, n - 1) + if records[n - 1].state == BlockState::Blocked
            && !records[n - 1].connected {
            seq![(n - 1) as usize]
        } else {
            Seq::<usize>::empty()
        }
    }
}

impl Context {
    /// Module unload: every operation whose handle is still held is
    /// aborted, so that none stays in flight. Returns the ids of those the
    /// host could not abort (their client is gone); the host finalizes them
    /// with nothing to run. No callback runs.
    pub fn abort_outstanding(&mut self) -> (failed: Vec<usize>)
        requires
            blocked_wf(old(self)),
        ensures
            final(self).records().len() == old(self).records().len(),
            forall|i: int|
                0 <= i < old(self).records().len() ==> final(self).records()[i] == record_after_unload(
                    old(self).records()[i],
                ),
            failed@ == unabortable_ids(old(self).records(), old(self).records().len() as int),
            final(self).fired() == old(self).fired(),
            final(self).replies() == old(self).replies(),
            final(self).same_tables(old(self)),
            blocked_wf(final(self)),
    {
        let mut failed: Vec<usize> = Vec::new();
        let n = self.blocked_count();
        let mut i: usize = 0;
        while i < n
            invariant
                0 <= i <= n,
                n == old(self).records().len(),
                self.records().len() == n,
                forall|j: int| 0 <= j < i ==> self.records()[j] == record_after_unload(old(self).records()[j]),
                forall|j: int| i <= j < n ==> self.records()[j] == old(self).records()[j],
                failed@ == unabortable_ids(old(self).records(), i as int),
                self.fired() == old(self).fired(),
                self.replies() == old(self).replies(),
                self.same_tables(old(self)),
                blocked_wf(self),
            decreases n - i,
        {
            let rec = self.record(i);
            if rec.state == BlockState::Blocked {
                if rec.connected {
                    self.set_record(i, BlockedRecord { state: BlockState::Aborted, ..rec });
                } else {
                    self.set_record(i, BlockedRecord { state: BlockState::Finalized, ..rec });
                    failed.push(i);
                }
            }
            i = i + 1;
        }
        failed
    }

    /// Suspends the calling client's reply and returns the handle that
    /// releases it. The handle has no callback and takes no payload.
    #[must_use]
    pub fn block_client(&mut self) -> (r: BlockedClient)
        requires
            old(self).records().len() < usize::MAX,
            blocked_wf(old(self)),
        ensures
            r.id() == old(self).records().len(),
            final(self).records() == old(self).records().push(
                BlockedRecord { client_id: old(self).client(), state: BlockState::Blocked, connected: true },
            ),
            final(self).fired() == old(self).fired(),
            final(self).replies() == old(self).replies(),
            final(self).same_tables(old(self)),
            blocked_wf(final(self)),
            !r.has_reply_callback(),
            !r.has_free_callback(),
            r.payload() is None,
    {
        let id = self.open_record();
        BlockedClient {
            inner: id,
            credentials: (ValkeyString::from_bytes(Vec::new()), ValkeyString::from_bytes(Vec::new())),
            reply_callback: None,
            free_callback: None,
            data: None,
        }
    }

    /// Suspends an authentication attempt of the calling client. When the
    /// handle is released, the host runs `auth_reply_callback` with the two
    /// identities and the payload, then `free_callback` with the payload.
    #[must_use]
    pub fn block_client_on_auth<
        T,
        R: Fn(&Context, ValkeyString, ValkeyString, Option<&T>) -> Result<i32, ValkeyError>,
        F: Fn(&Context, T),
    >(
        &mut self,
        username: &ValkeyString,
        password: &ValkeyString,
        auth_reply_callback: R,
        free_callback: Option<F>,
    ) -> (r: BlockedClient<T, R, F>)
        requires
            old(self).records().len() < usize::MAX,
            blocked_wf(old(self)),
        ensures
            r.id() == old(self).records().len(),
            final(self).records() == old(self).records().push(
                BlockedRecord { client_id: old(self).client(), state: BlockState::Blocked, connected: true },
            ),
            final(self).fired() == old(self).fired(),
            final(self).replies() == old(self).replies(),
            final(self).same_tables(old(self)),
            blocked_wf(final(self)),
            r.has_reply_callback(),
            r.has_free_callback() == free_callback.is_some(),
            r.reply_cb() == Some(auth_reply_callback),
            r.free_cb() == free_callback,
            r.payload() is None,
            r.credentials() == (username@, password@),
    {
        let id = self.open_record();
        BlockedClient {
            inner: id,
            credentials: (username.safe_clone(), password.safe_clone()),
            reply_callback: Some(ReplyCallback::Auth(auth_reply_callback)),
            free_callback,
            data: None,
        }
    }

    /// The host learns that the client of operation `id` went away. The
    /// operation stays outstanding: its payload is still released when the
    /// host finalizes it, but no reply is sent.
    pub fn disconnect_blocked_client(&mut self, id: usize)
        requires
            id < old(self).records().len(),
            blocked_wf(old(self)),
        ensures
            ({
                let rec = old(self).records()[id as int];
                if rec.state == BlockState::Blocked || rec.state == BlockState::Unblocked {
                    final(self).records() == old(self).records().update(
                        id as int,
                        BlockedRecord { connected: false, ..rec },
                    )
                } else {
                    final(self).records() == old(self).records()
                }
            }),
            final(self).fired() == old(self).fired(),
            final(self).replies() == old(self).replies(),
            final(self).same_tables(old(self)),
            blocked_wf(final(self)),
    {
        let rec = self.record(id);
        if rec.state == BlockState::Blocked || rec.state == BlockState::Unblocked {
            self.set_record(id, BlockedRecord { connected: false, ..rec });
        }
    }

    /// Runs what a released operation registered, as the host does on its
    /// own thread: the reply callback (if the client is still there) with the
    /// two identities and a borrow of the payload, whose result becomes the
    /// client's reply; then the free callback with the payload itself, also
    /// when the client went away. The operation is then finalized.
    pub fn run_unblocked<
        T,
        R: Fn(&Context, ValkeyString, ValkeyString, Option<&T>) -> Result<i32, ValkeyError>,
        F: Fn(&Context, T),
    >(
        &mut self,
        pending: BlockedClientPrivateData<T, R, F>,
    )
        requires
            pending.id() < old(self).records().len(),
            old(self).records()[pending.id() as int].state == BlockState::Unblocked,
            blocked_wf(old(self)),
            pending.callbacks_ready(),
        ensures
            ({
                let id = pending.id();
                let rec = old(self).records()[id as int];
                let replied = pending.has_reply_callback() && rec.connected;
                let freed = pending.has_free_callback() && pending.payload() is Some;
                &&& final(self).records() == old(self).records().update(
                    id as int,
                    BlockedRecord { state: BlockState::Finalized, ..rec },
                )
                &&& final(self).fired() == old(self).fired() + finalize_firings(id, replied, freed)
                &&& replied ==> final(self).replies().len() == old(self).replies().len() + 1
                    && final(self).replies().drop_last() == old(self).replies()
                    && final(self).replies().last().0 == id
                    && exists|
                        c: &Context,
                        u: ValkeyString,
                        p: ValkeyString,
                        d: Option<&T>,
                        res: Result<i32, ValkeyError>,
                    |
                        u@ == pending.credentials().0 && p@ == pending.credentials().1
                            && borrows_payload(d, pending.payload())
                            && #[trigger] pending.reply_cb().unwrap().ensures((c, u, p, d), res)
                            && reply_for(res, final(self).replies().last().1)
                &&& !replied ==> final(self).replies() == old(self).replies()
                &&& freed ==> exists|c: &Context|
                    #[trigger] pending.free_cb().unwrap().ensures((c, pending.payload().unwrap()), ())
            }),
            final(self).same_tables(old(self)),
            blocked_wf(final(self)),
    {
        let ghost replied = pending.has_reply_callback() && self.records()[pending.id() as int].connected;
        let ghost freed = pending.has_free_callback() && pending.payload() is Some;
        let ghost reply_cb = pending.reply_cb();
        let ghost free_cb = pending.free_cb();
        let ghost creds = pending.credentials();
        let ghost payload = pending.payload();
        let BlockedClientPrivateData { inner, credentials, reply_callback, free_callback, data } =
            pending;
        let rec = self.record(inner);
        let ghost fired0 = self.fired();
        let ghost replies0 = self.replies();
        if rec.connected {
            match reply_callback {
                Some(ReplyCallback::Auth(cb)) => {
                    let (username, password) = credentials;
                    let data_ref: Option<&T> = match &data {
                        Some(d) => Some(d),
                        None => None,
                    };
                    assert(borrows_payload(data_ref, payload));
                    let ghost u = username;
                    let ghost pw = password;
                    assert(reply_cb == Some(cb));
                    let ctx_ref: &Context = self;
                    assert(pending.callbacks_ready());
                    assert(pending.reply_cb() == Some(cb));
                    assert(pending.reply_cb().unwrap().requires((ctx_ref, username, password, data_ref)));
                    let res = cb(ctx_ref, username, password, data_ref);
                    let ghost c: &Context = ctx_ref;
                    assert(reply_cb.unwrap().ensures((c, u, pw, data_ref), res));
                    assert(u@ == creds.0 && pw@ == creds.1);
                    let (reply, code) = auth_reply_outcome(res);
                    self.send_reply(inner, reply);
                    self.log_firing(CallbackFiring::Reply(inner));
                    assert(self.replies().drop_last() =~= replies0);
                    assert(reply_for(res, self.replies().last().1));
                },
                None => {},
            }
        }
        let ghost replies1 = self.replies();
        let ghost fired1 = self.fired();
        assert(fired1 =~= fired0 + finalize_firings(inner, replied, false));
        match free_callback {
            Some(free) => match data {
                Some(d) => {
                    assert(free_cb == Some(free));
                    let ctx_ref: &Context = self;
                    assert(pending.free_cb() == Some(free));
                    assert(pending.free_cb().unwrap().requires((ctx_ref, d)));
                    free(ctx_ref, d);
                    let ghost c: &Context = ctx_ref;
                    assert(free_cb.unwrap().ensures((c, payload.unwrap()), ()));
                    self.log_firing(CallbackFiring::Free(inner));
                },
                None => {},
            },
            None => {},
        }
        assert(self.fired() =~= fired0 + finalize_firings(inner, replied, freed));
        self.set_record(inner, BlockedRecord { state: BlockState::Finalized, ..rec });
    }
}

impl Context {
    /// Finalizes a released operation made by `block_client`: it has no
    /// callback and no payload, so nothing runs and no reply is sent.
    pub fn run_unblocked_plain(&mut self, pending: BlockedClientPrivateData<(), NoCallback, NoCallback>)
        requires
            pending.id() < old(self).records().len(),
            old(self).records()[pending.id() as int].state == BlockState::Unblocked,
            blocked_wf(old(self)),
        ensures
            final(self).records() == old(self).records().update(
                pending.id() as int,
                BlockedRecord { state: BlockState::Finalized, ..old(self).records()[pending.id() as int] },
            ),
            final(self).fired() == old(self).fired(),
            final(self).replies() == old(self).replies(),
            final(self).same_tables(old(self)),
            blocked_wf(final(self)),
    {
        let id = pending.get_id();
        let rec = self.record(id);
        self.set_record(id, BlockedRecord { state: BlockState::Finalized, ..rec });
    }
}

impl<T, R, F> BlockedClient<T, R, F> {
    /// Releases the handle: the operation passes to the host, which
    /// finalizes it later (`Context::run_unblocked`) with what is returned.
    pub fn unblock(self, ctx: &mut Context) -> (r: BlockedClientPrivateData<T, R, F>)
        requires
            self.id() < old(ctx).records().len(),
            old(ctx).records()[self.id() as int].state == BlockState::Blocked,
            blocked_wf(old(ctx)),
        ensures
            final(ctx).records() == old(ctx).records().update(
                self.id() as int,
                BlockedRecord { state: BlockState::Unblocked, ..old(ctx).records()[self.id() as int] },
            ),
            final(ctx).fired() == old(ctx).fired(),
            final(ctx).replies() == old(ctx).replies(),
            final(ctx).same_tables(old(ctx)),
            blocked_wf(final(ctx)),
            r.id() == self.id(),
            r.has_reply_callback() == self.has_reply_callback(),
            r.has_free_callback() == self.has_free_callback(),
            r.payload() == self.payload(),
            r.credentials() == self.credentials(),
            r.reply_cb() == self.reply_cb(),
            r.free_cb() == self.free_cb(),
            r.payload() is Some ==> r.has_free_callback(),
    {
        proof {
            use_type_invariant(&self);
        }
        let rec = ctx.record(self.inner);
        ctx.set_record(self.inner, BlockedRecord { state: BlockState::Unblocked, ..rec });
        BlockedClientPrivateData {
            inner: self.inner,
            credentials: self.credentials,
            reply_callback: self.reply_callback,
            free_callback: self.free_callback,
            data: self.data,
        }
    }

    /// Aborts the operation. The callbacks and the payload are dropped
    /// first and never run; then the host is asked to abort, which it does
    /// only while the client is still connected. On failure the operation
    /// is left to the host, which finalizes it with nothing to run.
    pub fn abort(self, ctx: &mut Context) -> (r: Result<(), ValkeyError>)
        requires
            self.id() < old(ctx).records().len(),
            old(ctx).records()[self.id() as int].state == BlockState::Blocked,
            blocked_wf(old(ctx)),
        ensures
            ({
                let rec = old(ctx).records()[self.id() as int];
                &&& r.is_ok() <==> rec.connected
                &&& r.is_ok() ==> final(ctx).records() == old(ctx).records().update(
                    self.id() as int,
                    BlockedRecord { state: BlockState::Aborted, ..rec },
                )
                &&& r.is_err() ==> final(ctx).records() == old(ctx).records().update(
                    self.id() as int,
                    BlockedRecord { state: BlockState::Finalized, ..rec },
                )
            }),
            r matches Err(e) ==> e == ValkeyError::Str("Failed to abort blocked client"),
            final(ctx).fired() == old(ctx).fired(),
            final(ctx).replies() == old(ctx).replies(),
            final(ctx).same_tables(old(ctx)),
            blocked_wf(final(ctx)),
    {
        let BlockedClient { inner, credentials, reply_callback, free_callback, data } = self;
        let rec = ctx.record(inner);
        if rec.connected {
            ctx.set_record(inner, BlockedRecord { state: BlockState::Aborted, ..rec });
            Ok(())
        } else {
            ctx.set_record(inner, BlockedRecord { state: BlockState::Finalized, ..rec });
            Err(ValkeyError::Str("Failed to abort blocked client"))
        }
    }
}

} // verus!
