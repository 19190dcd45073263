use valkey_module::filter::{CommandFilter, CommandFilterCtx};
use valkey_module::valkey_string::ValkeyString;

fn fctx(items: &[&[u8]]) -> CommandFilterCtx {
    CommandFilterCtx::new(items.iter().map(|b| ValkeyString::from_bytes(b.to_vec())).collect(), 12)
}

#[test]
fn filter_handle() {
    assert!(CommandFilter::new(None).is_null());
    assert!(!CommandFilter::new(Some(1)).is_null());
}

#[test]
fn filter_reads_arguments() {
    let f = fctx(&[b"set", b"foo", b"\xff", b"bar"]);
    assert_eq!(f.args_count(), 4);
    assert_eq!(f.cmd_get_try_as_str(), Ok("set"));
    assert_eq!(f.get_all_args_wo_cmd(), vec!["foo", "bar"]);
    assert!(f.arg_get_try_as_str(2).is_err());
    assert!(f.arg_get_try_as_str(9).is_err());
    assert!(f.arg_get(9).is_none());
    assert_eq!(f.get_client_id(), 12);
    assert!(fctx(&[]).get_all_args_wo_cmd().is_empty());
    assert!(fctx(&[]).cmd_get_try_as_str().is_err());
}

#[test]
fn filter_changes_arguments() {
    let mut f = fctx(&[b"info"]);
    f.arg_insert(1, "foo");
    f.arg_insert(2, "bar");
    f.arg_insert(9, "ignored");
    assert_eq!(f.get_all_args_wo_cmd(), vec!["foo", "bar"]);
    f.arg_replace(1, "new_key");
    f.arg_replace(5, "ignored");
    assert_eq!(f.get_all_args_wo_cmd(), vec!["new_key", "bar"]);
    f.arg_delete(2);
    f.arg_delete(7);
    assert_eq!(f.get_all_args_wo_cmd(), vec!["new_key"]);
    f.arg_replace(0, "info2");
    assert_eq!(f.cmd_get_try_as_str(), Ok("info2"));
}
