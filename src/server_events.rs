use vstd::prelude::*;
use crate::context::Context;
use crate::error::{Status, ValkeyError};

verus! {

pub const EVENT_REPLICATION_ROLE_CHANGED: u64 = 0;
pub const EVENT_PERSISTENCE: u64 = 1;
pub const EVENT_FLUSHDB: u64 = 2;
pub const EVENT_LOADING: u64 = 3;
pub const EVENT_CLIENT_CHANGE: u64 = 4;
pub const EVENT_SHUTDOWN: u64 = 5;
pub const EVENT_CRON_LOOP: u64 = 8;
pub const EVENT_MODULE_CHANGE: u64 = 9;
pub const EVENT_CONFIG: u64 = 16;
pub const EVENT_KEY: u64 = 17;

#[derive(Clone, Copy, Eq, PartialEq, Debug, Structural)]
pub enum ServerRole {
    Primary,
    Replica,
}

#[derive(Clone, Copy, Eq, PartialEq, Debug, Structural)]
pub enum LoadingSubevent {
    RdbStarted,
    AofStarted,
    ReplStarted,
    Ended,
    Failed,
}

#[derive(Clone, Copy, Eq, PartialEq, Debug, Structural)]
pub enum FlushSubevent {
    Started,
    Ended,
}

#[derive(Clone, Copy, Eq, PartialEq, Debug, Structural)]
pub enum ModuleChangeSubevent {
    Loaded,
    Unloaded,
}

#[derive(Clone, Copy, Eq, PartialEq, Debug, Structural)]
pub enum ClientChangeSubevent {
    Connected,
    Disconnected,
}

#[derive(Clone, Copy, Eq, PartialEq, Debug, Structural)]
pub enum KeyChangeSubevent {
    Deleted,
    Expired,
    Evicted,
    Overwritten,
}

#[derive(Clone, Copy, Eq, PartialEq, Debug, Structural)]
pub enum PersistenceSubevent {
    RdbStart,
    AofStart,
    SyncRdbStart,
    SyncAofStart,
    Ended,
    Failed,
}

/// A handler of one event category; the number names the handler in the
/// table of callbacks that the module keeps.
#[derive(Clone, Copy, Eq, PartialEq, Debug, Structural)]
pub enum ServerEventHandler {
    RoleChanged(u64),
    Loading(u64),
    Flush(u64),
    ModuleChange(u64),
    ClientChange(u64),
    KeyChangeSubevent(u64),
    PersistenceSubevent(u64),
    ConfigChange(u64),
    Cron(u64),
    Shutdown(u64),
}

/// The server event a handler listens to.
pub open spec fn handler_event(h: ServerEventHandler) -> u64 {
    match h {
        ServerEventHandler::RoleChanged(_) => EVENT_REPLICATION_ROLE_CHANGED,
        ServerEventHandler::Loading(_) => EVENT_LOADING,
        ServerEventHandler::Flush(_) => EVENT_FLUSHDB,
        ServerEventHandler::ModuleChange(_) => EVENT_MODULE_CHANGE,
        ServerEventHandler::ClientChange(_) => EVENT_CLIENT_CHANGE,
        ServerEventHandler::KeyChangeSubevent(_) => EVENT_KEY,
        ServerEventHandler::PersistenceSubevent(_) => EVENT_PERSISTENCE,
        ServerEventHandler::ConfigChange(_) => EVENT_CONFIG,
        ServerEventHandler::Cron(_) => EVENT_CRON_LOOP,
        ServerEventHandler::Shutdown(_) => EVENT_SHUTDOWN,
    }
}

pub fn event_of_handler(h: &ServerEventHandler) -> (r: u64)
    ensures
        r == handler_event(*h),
{
    match h {
        ServerEventHandler::RoleChanged(_) => EVENT_REPLICATION_ROLE_CHANGED,
        ServerEventHandler::Loading(_) => EVENT_LOADING,
        ServerEventHandler::Flush(_) => EVENT_FLUSHDB,
        ServerEventHandler::ModuleChange(_) => EVENT_MODULE_CHANGE,
        ServerEventHandler::ClientChange(_) => EVENT_CLIENT_CHANGE,
        ServerEventHandler::KeyChangeSubevent(_) => EVENT_KEY,
        ServerEventHandler::PersistenceSubevent(_) => EVENT_PERSISTENCE,
        ServerEventHandler::ConfigChange(_) => EVENT_CONFIG,
        ServerEventHandler::Cron(_) => EVENT_CRON_LOOP,
        ServerEventHandler::Shutdown(_) => EVENT_SHUTDOWN,
    }
}

/// The order in which the event categories are subscribed.
pub open spec fn event_order() -> Seq<u64> {
    seq![
        EVENT_REPLICATION_ROLE_CHANGED,
        EVENT_LOADING,
        EVENT_FLUSHDB,
        EVENT_MODULE_CHANGE,
        EVENT_CLIENT_CHANGE,
        EVENT_CONFIG,
        EVENT_CRON_LOOP,
        EVENT_KEY,
        EVENT_SHUTDOWN,
        EVENT_PERSISTENCE,
    ]
}

pub open spec fn has_handler_for(handlers: Seq<ServerEventHandler>, event: u64) -> bool {
    exists|i: int| 0 <= i < handlers.len() && handler_event(#[trigger] handlers[i]) == event
}

/// The events of `order`, in that order, that at least one handler listens to.
pub open spec fn events_to_subscribe(handlers: Seq<ServerEventHandler>, order: Seq<u64>) -> Seq<u64>
    decreases order.len(),
{
    if order.len() == 0 {
        Seq::empty()
    } else {
        events_to_subscribe(handlers, order.drop_last()) + if has_handler_for(handlers, order.last()) {
            seq![order.last()]
        } else {
            Seq::<u64>::empty()
        }
    }
}

/// The events of `wanted` up to the first one the host refuses.
pub open spec fn accepted_prefix(wanted: Seq<u64>, refused: Seq<u64>) -> Seq<u64>
    decreases wanted.len(),
{
    if wanted.len() == 0 || refused.contains(wanted[0]) {
        Seq::empty()
    } else {
        seq![wanted[0]] + accepted_prefix(wanted.drop_first(), refused)
    }
}

proof fn lemma_events_concat(handlers: Seq<ServerEventHandler>, a: Seq<u64>, b: Seq<u64>)
    ensures
        events_to_subscribe(handlers, a + b) == events_to_subscribe(handlers, a)
            + events_to_subscribe(handlers, b),
    decreases b.len(),
{
    if b.len() == 0 {
        assert(a + b =~= a);
        assert(events_to_subscribe(handlers, a) + Seq::<u64>::empty() =~= events_to_subscribe(handlers, a));
    } else {
        lemma_events_concat(handlers, a, b.drop_last());
        assert((a + b).drop_last() =~= a + b.drop_last());
        assert((a + b).last() == b.last());
    }
}

/// `a` followed by anything that starts with a refused event: the
/// accepted part is `a` when the host accepts all of `a`.
proof fn lemma_accepted_prefix_stops(a: Seq<u64>, rest: Seq<u64>, refused: Seq<u64>)
    requires
        forall|i: int| 0 <= i < a.len() ==> !refused.contains(#[trigger] a[i]),
        rest.len() == 0 || refused.contains(rest[0]),
    ensures
        accepted_prefix(a + rest, refused) == a,
    decreases a.len(),
{
    if a.len() == 0 {
        assert(a + rest =~= rest);
    } else {
        assert((a + rest).drop_first() =~= a.drop_first() + rest);
        lemma_accepted_prefix_stops(a.drop_first(), rest, refused);
        assert(seq![a[0]] + a.drop_first() =~= a);
    }
}

fn any_handler_for(handlers: &Vec<ServerEventHandler>, event: u64) -> (r: bool)
    ensures
        r == has_handler_for(handlers@, event),
{
    let mut i: usize = 0;
    while i < handlers.len()
        invariant
            0 <= i <= handlers@.len(),
            forall|j: int| 0 <= j < i ==> handler_event(#[trigger] handlers@[j]) != event,
        decreases handlers@.len() - i,
    {
        if event_of_handler(&handlers[i]) == event {
            return true;
        }
        i = i + 1;
    }
    false
}

/// The handlers among the first `n` that listen to `event`, in order.
pub open spec fn listeners(handlers: Seq<ServerEventHandler>, event: u64, n: int) -> Seq<ServerEventHandler>
    decreases n,
{
    if n <= 0 {
        Seq::empty()
    } else {
        listeners(handlers, event, n - 1) + if handler_event(handlers[n - 1]) == event {
            seq![handlers[n - 1]]
        } else {
            Seq::<ServerEventHandler>::empty()
        }
    }
}

/// The handlers to run, in registration order, when server event `event`
/// fires.
pub fn handlers_for(handlers: &Vec<ServerEventHandler>, event: u64) -> (r: Vec<ServerEventHandler>)
    ensures
        r@ == listeners(handlers@, event, handlers@.len() as int),
{
    let mut out: Vec<ServerEventHandler> = Vec::new();
    let mut i: usize = 0;
    while i < handlers.len()
        invariant
            0 <= i <= handlers@.len(),
            out@ == listeners(handlers@, event, i as int),
        decreases handlers@.len() - i,
    {
        let h = handlers[i];
        if event_of_handler(&h) == event {
            out.push(h);
        }
        assert(out@ =~= listeners(handlers@, event, i + 1));
        i = i + 1;
    }
    out
}

/// Subscribes the module to every server event that one of `handlers`
/// listens to, one subscription per event, in a fixed order of categories.
/// Stops with an error at the first subscription the host refuses.
pub fn register_server_events(ctx: &mut Context, handlers: &Vec<ServerEventHandler>) -> (r: Result<
    (),
    ValkeyError,
>)
    ensures
        ({
            let wanted = events_to_subscribe(handlers@, event_order());
            let accepted = accepted_prefix(wanted, old(ctx).refused_events());
            &&& r.is_ok() <==> accepted == wanted
            &&& r.is_err() ==> r == Err::<(), ValkeyError>(
                ValkeyError::Str("Failed subscribing to server event"),
            )
            &&& final(ctx).subscriptions() == old(ctx).subscriptions() + accepted
        }),
        final(ctx).refused_events() == old(ctx).refused_events(),
        final(ctx).client() == old(ctx).client(),
        final(ctx).clients() == old(ctx).clients(),
        final(ctx).config() == old(ctx).config(),
        final(ctx).same_blocked(old(ctx)),
{
    let order: [u64; 10] = [
        EVENT_REPLICATION_ROLE_CHANGED,
        EVENT_LOADING,
        EVENT_FLUSHDB,
        EVENT_MODULE_CHANGE,
        EVENT_CLIENT_CHANGE,
        EVENT_CONFIG,
        EVENT_CRON_LOOP,
        EVENT_KEY,
        EVENT_SHUTDOWN,
        EVENT_PERSISTENCE,
    ];
    assert(order@ =~= event_order());
    let ghost start = ctx.subscriptions();
    let mut k: usize = 0;
    while k < 10
        invariant
            0 <= k <= 10,
            order@ == event_order(),
            ctx.subscriptions() == start + events_to_subscribe(handlers@, order@.take(k as int)),
            ctx.client() == old(ctx).client(),
            ctx.clients() == old(ctx).clients(),
            ctx.config() == old(ctx).config(),
            ctx.same_blocked(old(ctx)),
            ctx.refused_events() == old(ctx).refused_events(),
            start == old(ctx).subscriptions(),
            forall|i: int|
                0 <= i < events_to_subscribe(handlers@, order@.take(k as int)).len()
                    ==> !ctx.refused_events().contains(
                    #[trigger] events_to_subscribe(handlers@, order@.take(k as int))[i],
                ),
        decreases 10 - k,
    {
        let event = order[k];
        let ghost done = events_to_subscribe(handlers@, order@.take(k as int));
        assert(order@.take(k + 1).drop_last() =~= order@.take(k as int));
        if any_handler_for(handlers, event) {
            if ctx.subscribe(event) == Status::Failure {
                proof {
                    let rest = events_to_subscribe(handlers@, order@.skip(k as int));
                    assert(order@ =~= order@.take(k as int) + order@.skip(k as int));
                    lemma_events_concat(handlers@, order@.take(k as int), order@.skip(k as int));
                    assert(order@.skip(k as int) =~= seq![event] + order@.skip(k + 1));
                    lemma_events_concat(handlers@, seq![event], order@.skip(k + 1));
                    assert(seq![event].drop_last() =~= Seq::<u64>::empty());
                    assert(seq![event].last() == event);
                    assert(has_handler_for(handlers@, event));
                    assert(events_to_subscribe(handlers@, Seq::<u64>::empty()) == Seq::<u64>::empty());
                    assert(events_to_subscribe(handlers@, seq![event]) =~= seq![event]);
                    lemma_accepted_prefix_stops(done, rest, ctx.refused_events());
                    assert(done + Seq::<u64>::empty() =~= done);
                    assert(rest.len() > 0 && rest[0] == event);
                    assert(done.len() < (done + rest).len());
                }
                return Err(ValkeyError::Str("Failed subscribing to server event"));
            }
        }
        assert(ctx.subscriptions() =~= start + events_to_subscribe(handlers@, order@.take(k + 1)));
        k = k + 1;
    }
    assert(order@.take(10) =~= order@);
    proof {
        lemma_accepted_prefix_stops(
            events_to_subscribe(handlers@, order@),
            Seq::empty(),
            ctx.refused_events(),
        );
        assert(events_to_subscribe(handlers@, order@) + Seq::<u64>::empty() =~= events_to_subscribe(
            handlers@,
            order@,
        ));
    }
    Ok(())
}

/// The new role announced by a role-change event.
pub fn server_role_of(subevent: u64) -> (r: ServerRole)
    ensures
        r == (if subevent == 0 { ServerRole::Primary } else { ServerRole::Replica }),
{
    if subevent == 0 {
        ServerRole::Primary
    } else {
        ServerRole::Replica
    }
}

/// The loading phase announced by a loading event; unknown codes are failures.
pub fn loading_subevent_of(subevent: u64) -> (r: LoadingSubevent)
    ensures
        r == match subevent {
            0 => LoadingSubevent::RdbStarted,
            1 => LoadingSubevent::AofStarted,
            2 => LoadingSubevent::ReplStarted,
            3 => LoadingSubevent::Ended,
            _ => LoadingSubevent::Failed,
        },
{
    match subevent {
        0 => LoadingSubevent::RdbStarted,
        2 => LoadingSubevent::ReplStarted,
        1 => LoadingSubevent::AofStarted,
        3 => LoadingSubevent::Ended,
        _ => LoadingSubevent::Failed,
    }
}

pub fn flush_subevent_of(subevent: u64) -> (r: FlushSubevent)
    ensures
        r == (if subevent == 0 { FlushSubevent::Started } else { FlushSubevent::Ended }),
{
    if subevent == 0 {
        FlushSubevent::Started
    } else {
        FlushSubevent::Ended
    }
}

pub fn module_change_subevent_of(subevent: u64) -> (r: ModuleChangeSubevent)
    ensures
        r == (if subevent == 0 { ModuleChangeSubevent::Loaded } else { ModuleChangeSubevent::Unloaded }),
{
    if subevent == 0 {
        ModuleChangeSubevent::Loaded
    } else {
        ModuleChangeSubevent::Unloaded
    }
}

pub fn client_change_subevent_of(subevent: u64) -> (r: ClientChangeSubevent)
    ensures
        r == (if subevent == 0 {
            ClientChangeSubevent::Connected
        } else {
            ClientChangeSubevent::Disconnected
        }),
{
    if subevent == 0 {
        ClientChangeSubevent::Connected
    } else {
        ClientChangeSubevent::Disconnected
    }
}

/// The key change announced by a key event; `None` for codes that no
/// handler is told about.
pub fn key_change_subevent_of(subevent: u64) -> (r: Option<KeyChangeSubevent>)
    ensures
        r == match subevent {
            0 => Some(KeyChangeSubevent::Deleted),
            1 => Some(KeyChangeSubevent::Expired),
            2 => Some(KeyChangeSubevent::Evicted),
            3 => Some(KeyChangeSubevent::Overwritten),
            _ => None,
        },
{
    match subevent {
        0 => Some(KeyChangeSubevent::Deleted),
        1 => Some(KeyChangeSubevent::Expired),
        2 => Some(KeyChangeSubevent::Evicted),
        3 => Some(KeyChangeSubevent::Overwritten),
        _ => None,
    }
}

/// The persistence phase announced by a persistence event; `None` for
/// codes that no handler is told about.
pub fn persistence_subevent_of(subevent: u64) -> (r: Option<PersistenceSubevent>)
    ensures
        r == match subevent {
            0 => Some(PersistenceSubevent::RdbStart),
            1 => Some(PersistenceSubevent::AofStart),
            2 => Some(PersistenceSubevent::SyncRdbStart),
            3 => Some(PersistenceSubevent::Ended),
            4 => Some(PersistenceSubevent::Failed),
            5 => Some(PersistenceSubevent::SyncAofStart),
            _ => None,
        },
{
    match subevent {
        0 => Some(PersistenceSubevent::RdbStart),
        1 => Some(PersistenceSubevent::AofStart),
        2 => Some(PersistenceSubevent::SyncRdbStart),
        5 => Some(PersistenceSubevent::SyncAofStart),
        3 => Some(PersistenceSubevent::Ended),
        4 => Some(PersistenceSubevent::Failed),
        _ => None,
    }
}

} // verus!
