use valkey_module::allocator::ValkeyAlloc;
use valkey_module::command::{command_flags_string, key_spec_flag_names, ValkeyCommandFlags, ValkeyCommandKeySpecFlags};
use valkey_module::defrag::Defrag;
use valkey_module::digest::{Digest, DigestElement};
use valkey_module::error::{Status, ValkeyError};
use valkey_module::logging::ValkeyLogLevel;
use valkey_module::redisvalue::ValkeyValueKey;
use valkey_module::valkey_string::ValkeyString;

#[test]
fn aligned_sizes() {
    let a = ValkeyAlloc;
    assert_eq!(a.aligned_size(10, 8), 16);
    assert_eq!(a.aligned_size(16, 8), 16);
    assert_eq!(a.aligned_size(0, 8), 0);
    assert_eq!(a.aligned_size(1, 1), 1);
    assert_eq!(a.aligned_size(33, 32), 64);
}

#[test]
fn log_level_names() {
    assert_eq!(ValkeyLogLevel::Debug.as_str(), "debug");
    assert_eq!(ValkeyLogLevel::Notice.as_str(), "notice");
    assert_eq!(ValkeyLogLevel::Verbose.as_str(), "verbose");
    assert_eq!(ValkeyLogLevel::Warning.as_str(), "warning");
}

#[test]
fn command_flags_join() {
    assert_eq!(command_flags_string(&vec![]), "");
    assert_eq!(command_flags_string(&vec![ValkeyCommandFlags::ReadOnly]), "readonly");
    assert_eq!(
        command_flags_string(&vec![ValkeyCommandFlags::Write, ValkeyCommandFlags::DenyOOM, ValkeyCommandFlags::GetkeysApi]),
        "write deny-oom getkeys-api"
    );
    assert_eq!(
        key_spec_flag_names(&vec![ValkeyCommandKeySpecFlags::ReadWrite, ValkeyCommandKeySpecFlags::NotKey]),
        vec!["READ_WRITE", "NOT_KEY"]
    );
}

#[test]
fn digest_records_elements() {
    let mut d = Digest::new(ValkeyString::create("k"), 2);
    d.add_string_buffer(b"abc");
    d.add_long_long(-5);
    d.end_sequence();
    assert_eq!(d.len(), 3);
    assert_eq!(d.get_db_id(), 2);
    assert_eq!(d.get_key_name().as_slice(), b"k");
    match &d.get_elements()[0] {
        DigestElement::Bytes(b) => assert_eq!(b, b"abc"),
        _ => panic!("expected bytes"),
    }
    assert!(matches!(d.get_elements()[1], DigestElement::Integer(-5)));
    assert!(matches!(d.get_elements()[2], DigestElement::EndSequence));
}

#[test]
fn defrag_cursor() {
    let mut d = Defrag::new(Some(ValkeyString::create("key")), 0, None, false);
    assert_eq!(d.get_cursor(), None);
    assert_eq!(d.set_cursor(17), Status::Success);
    assert_eq!(d.get_cursor(), Some(17));
    assert!(!d.should_stop_defrag());
    assert_eq!(d.get_key_name_from_defrag_context().unwrap().as_slice(), b"key");
    let d2 = Defrag::new(None, -1, Some(3), true);
    assert!(d2.should_stop_defrag());
    assert!(d2.get_key_name_from_defrag_context().is_none());
    assert_eq!(d2.get_db_id_from_defrag_context(), -1);
}

#[test]
fn value_keys_from_values() {
    assert_eq!(ValkeyValueKey::from(5i64), ValkeyValueKey::Integer(5));
    assert_eq!(ValkeyValueKey::from(true), ValkeyValueKey::Bool(true));
    assert_eq!(ValkeyValueKey::from("a".to_string()), ValkeyValueKey::String("a".to_string()));
    assert_eq!(ValkeyValueKey::from(vec![1u8]), ValkeyValueKey::BulkString(vec![1]));
    assert!(ValkeyValueKey::Integer(1) < ValkeyValueKey::Integer(2));
}

#[test]
fn valkey_strings() {
    let s = ValkeyString::create("héllo");
    assert_eq!(s.len(), 6);
    assert_eq!(s.try_as_str(), Ok("héllo"));
    assert!(s.eq_bytes("héllo".as_bytes()));
    assert!(!s.eq_bytes(b"hello"));
    let bad = ValkeyString::from_bytes(vec![0x80]);
    assert!(bad.try_as_str().is_err());
    assert_eq!(bad.safe_clone().as_slice(), &[0x80]);
    assert_eq!(ValkeyError::Str("x").message(), "x");
    assert_eq!(ValkeyError::String("y".to_string()).message(), "y");
}
