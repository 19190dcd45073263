use valkey_module::context::Context;
use valkey_module::server_events::{
    client_change_subevent_of, flush_subevent_of, handlers_for, key_change_subevent_of,
    loading_subevent_of, module_change_subevent_of, persistence_subevent_of,
    register_server_events, server_role_of, ClientChangeSubevent, FlushSubevent,
    KeyChangeSubevent, LoadingSubevent, ModuleChangeSubevent, PersistenceSubevent,
    ServerEventHandler, ServerRole, EVENT_CLIENT_CHANGE, EVENT_CRON_LOOP, EVENT_FLUSHDB,
    EVENT_KEY, EVENT_REPLICATION_ROLE_CHANGED,
};
use valkey_module::error::ValkeyError;


#[test]
fn subscribes_each_used_category_once_in_order() {
    let mut ctx = Context::new(1);
    let handlers = vec![
        ServerEventHandler::KeyChangeSubevent(1),
        ServerEventHandler::Flush(2),
        ServerEventHandler::Cron(3),
        ServerEventHandler::Flush(4),
        ServerEventHandler::RoleChanged(5),
        ServerEventHandler::ClientChange(6),
    ];
    assert!(register_server_events(&mut ctx, &handlers).is_ok());
    assert_eq!(
        *ctx.subscribed_events(),
        vec![EVENT_REPLICATION_ROLE_CHANGED, EVENT_FLUSHDB, EVENT_CLIENT_CHANGE, EVENT_CRON_LOOP, EVENT_KEY]
    );
}

#[test]
fn no_handlers_no_subscription() {
    let mut ctx = Context::new(1);
    assert!(register_server_events(&mut ctx, &vec![]).is_ok());
    assert!(ctx.subscribed_events().is_empty());
}

#[test]
fn subevents_decode() {
    assert_eq!(server_role_of(0), ServerRole::Primary);
    assert_eq!(server_role_of(1), ServerRole::Replica);
    assert_eq!(loading_subevent_of(2), LoadingSubevent::ReplStarted);
    assert_eq!(loading_subevent_of(77), LoadingSubevent::Failed);
    assert_eq!(flush_subevent_of(0), FlushSubevent::Started);
    assert_eq!(flush_subevent_of(1), FlushSubevent::Ended);
    assert_eq!(module_change_subevent_of(1), ModuleChangeSubevent::Unloaded);
    assert_eq!(client_change_subevent_of(0), ClientChangeSubevent::Connected);
    assert_eq!(key_change_subevent_of(3), Some(KeyChangeSubevent::Overwritten));
    assert_eq!(key_change_subevent_of(4), None);
    assert_eq!(persistence_subevent_of(5), Some(PersistenceSubevent::SyncAofStart));
    assert_eq!(persistence_subevent_of(3), Some(PersistenceSubevent::Ended));
    assert_eq!(persistence_subevent_of(6), None);
}

#[test]
fn dispatch_in_registration_order() {
    let handlers = vec![
        ServerEventHandler::Flush(2),
        ServerEventHandler::Cron(3),
        ServerEventHandler::Flush(4),
    ];
    assert_eq!(
        handlers_for(&handlers, EVENT_FLUSHDB),
        vec![ServerEventHandler::Flush(2), ServerEventHandler::Flush(4)]
    );
    assert!(handlers_for(&handlers, EVENT_KEY).is_empty());
}

#[test]
fn refused_subscription_stops_registration() {
    let mut ctx = Context::new(1);
    ctx.refuse_server_event(EVENT_CLIENT_CHANGE);
    let handlers = vec![
        ServerEventHandler::KeyChangeSubevent(1),
        ServerEventHandler::Flush(2),
        ServerEventHandler::ClientChange(6),
    ];
    assert_eq!(
        register_server_events(&mut ctx, &handlers),
        Err(ValkeyError::Str("Failed subscribing to server event"))
    );
    // flush comes before client change in the fixed order, key events after it
    assert_eq!(*ctx.subscribed_events(), vec![EVENT_FLUSHDB]);
}
