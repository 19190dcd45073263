use valkey_module::client::RedisModuleClientInfo;
use valkey_module::context::{ClientRecord, Context};
use valkey_module::error::{Status, ValkeyError};
use valkey_module::valkey_string::ValkeyString;

fn host() -> Context {
    let mut ctx = Context::new(7);
    ctx.add_client(ClientRecord {
        id: 3,
        name: None,
        username: None,
        cert: None,
        addr: "10.0.0.3".to_string(),
        port: 6000,
        db: 1,
        flags: 0,
    });
    ctx.add_client(ClientRecord {
        id: 7,
        name: Some(ValkeyString::create("worker")),
        username: Some(ValkeyString::create("default")),
        cert: Some(ValkeyString::create("CERT")),
        addr: "127.0.0.1".to_string(),
        port: 5000,
        db: 0,
        flags: 2,
    });
    ctx.set_config("maxmemory-policy".to_string(), "noeviction".to_string());
    ctx
}

#[test]
fn client_lookups() {
    let ctx = host();
    assert_eq!(ctx.get_client_id(), 7);
    assert_eq!(ctx.get_client_name().unwrap().as_slice(), b"worker");
    assert_eq!(ctx.get_client_username().unwrap().as_slice(), b"default");
    assert_eq!(ctx.get_client_cert().unwrap().as_slice(), b"CERT");
    assert_eq!(ctx.get_client_ip(), Ok("127.0.0.1".to_string()));
    let info = ctx.get_client_info().ok().unwrap();
    assert_eq!((info.version, info.id, info.port, info.db, info.flags), (1, 7, 5000, 0, 2));
    assert_eq!(
        ctx.get_client_name_by_id(3).err(),
        Some(ValkeyError::Str("Client/Client name is null"))
    );
    assert_eq!(
        ctx.get_client_username_by_id(3).err(),
        Some(ValkeyError::Str("Client/Username is null"))
    );
    assert_eq!(ctx.get_client_ip_by_id(3), Ok("10.0.0.3".to_string()));
    assert_eq!(ctx.get_client_ip_by_id(99), Err(ValkeyError::Str("Client/Info is null")));
}

#[test]
fn client_info_new_is_empty() {
    let info = RedisModuleClientInfo::new();
    assert_eq!((info.version, info.flags, info.id, info.port, info.db), (1, 0, 0, 0, 0));
    assert!(info.addr.is_empty());
}

#[test]
fn set_name_and_close() {
    let mut ctx = host();
    assert_eq!(ctx.set_client_name(&ValkeyString::create("test_client")), Status::Success);
    assert_eq!(ctx.get_client_name().unwrap().as_slice(), b"test_client");
    assert_eq!(ctx.set_client_name_by_id(42, &ValkeyString::create("x")), Status::Failure);
    assert_eq!(ctx.deauthenticate_and_close_client(), Status::Success);
    assert!(ctx.get_client_info().is_err());
    assert_eq!(ctx.deauthenticate_and_close_client(), Status::Failure);
    assert_eq!(ctx.deauthenticate_and_close_client_by_id(3), Status::Success);
}

#[test]
fn config_get_reads_host_config() {
    let mut ctx = host();
    assert_eq!(
        ctx.config_get("maxmemory-policy".to_string()).unwrap().as_slice(),
        b"noeviction"
    );
    assert_eq!(
        ctx.config_get("nothing".to_string()).err(),
        Some(ValkeyError::Str("Unexpected CONFIG GET response"))
    );
    ctx.set_config("maxmemory-policy".to_string(), "allkeys-lru".to_string());
    assert_eq!(
        ctx.config_get("maxmemory-policy".to_string()).unwrap().as_slice(),
        b"allkeys-lru"
    );
}
