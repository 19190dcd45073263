use std::cell::{Cell, RefCell};
use std::rc::Rc;
use valkey_module::blocked::{auth_reply_outcome, AUTH_HANDLED, AUTH_NOT_HANDLED};
use valkey_module::context::{AuthReply, BlockState, CallbackFiring, Context};
use valkey_module::error::ValkeyError;
use valkey_module::valkey_string::ValkeyString;

type Seen = Rc<RefCell<Vec<(Vec<u8>, Vec<u8>, Option<i32>)>>>;

/// A reply callback that records what it saw and answers with a fixed
/// result, and a free callback that records what it received.
fn callbacks(
    answer: Result<i32, &'static str>,
) -> (
    impl Fn(&Context, ValkeyString, ValkeyString, Option<&i32>) -> Result<i32, ValkeyError> + Clone,
    impl Fn(&Context, i32) + Clone,
    Seen,
    Rc<RefCell<Vec<i32>>>,
) {
    let seen: Seen = Rc::new(RefCell::new(Vec::new()));
    let freed = Rc::new(RefCell::new(Vec::new()));
    let s = seen.clone();
    let f = freed.clone();
    (
        move |_ctx: &Context, username: ValkeyString, password: ValkeyString, data: Option<&i32>| {
            s.borrow_mut().push((
                username.as_slice().to_vec(),
                password.as_slice().to_vec(),
                data.copied(),
            ));
            answer.map_err(ValkeyError::Str)
        },
        move |_ctx: &Context, data: i32| f.borrow_mut().push(data),
        seen,
        freed,
    )
}

fn user() -> ValkeyString {
    ValkeyString::create("alice")
}

fn pass() -> ValkeyString {
    ValkeyString::create("secret")
}

#[test]
fn payload_scenario_reply_sees_42_free_gets_42() {
    let mut ctx = Context::new(7);
    let (reply, free, seen, freed) = callbacks(Ok(AUTH_HANDLED));
    let mut bc = ctx.block_client_on_auth(&user(), &pass(), reply, Some(free));
    assert!(bc.free_callback_registered());
    assert!(!bc.payload_attached());
    bc.set_blocked_private_data(42);
    assert!(bc.payload_attached());
    let pending = bc.unblock(&mut ctx);
    assert!(seen.borrow().is_empty());
    ctx.run_unblocked(pending);
    assert_eq!(
        *seen.borrow(),
        vec![(b"alice".to_vec(), b"secret".to_vec(), Some(42))]
    );
    assert_eq!(*freed.borrow(), vec![42]);
    assert_eq!(
        *ctx.fired_callbacks(),
        vec![CallbackFiring::Reply(0), CallbackFiring::Free(0)]
    );
    assert_eq!(*ctx.sent_replies(), vec![(0, AuthReply::Code(AUTH_HANDLED))]);
}

#[test]
fn completion_runs_reply_then_free_once() {
    let mut ctx = Context::new(1);
    let (reply, free, seen, freed) = callbacks(Ok(AUTH_NOT_HANDLED));
    let mut bc = ctx.block_client_on_auth(&user(), &pass(), reply, Some(free));
    let id = bc.get_id();
    bc.set_blocked_private_data(5);
    let pending = bc.unblock(&mut ctx);
    ctx.run_unblocked(pending);
    let fired = ctx.fired_callbacks().clone();
    assert_eq!(fired.iter().filter(|f| **f == CallbackFiring::Reply(id)).count(), 1);
    assert_eq!(fired.iter().filter(|f| **f == CallbackFiring::Free(id)).count(), 1);
    let r = fired.iter().position(|f| *f == CallbackFiring::Reply(id)).unwrap();
    let f = fired.iter().position(|f| *f == CallbackFiring::Free(id)).unwrap();
    assert!(r < f);
    assert_eq!(seen.borrow().len(), 1);
    assert_eq!(*freed.borrow(), vec![5]);
    assert_eq!(*ctx.sent_replies(), vec![(id, AuthReply::Code(AUTH_NOT_HANDLED))]);
}

#[test]
fn no_payload_means_no_free_call() {
    let mut ctx = Context::new(1);
    let (reply, free, seen, freed) = callbacks(Ok(AUTH_HANDLED));
    let bc = ctx.block_client_on_auth(&user(), &pass(), reply, Some(free));
    let pending = bc.unblock(&mut ctx);
    ctx.run_unblocked(pending);
    assert_eq!(seen.borrow().len(), 1);
    assert_eq!(seen.borrow()[0].2, None);
    assert!(freed.borrow().is_empty());
    assert_eq!(*ctx.fired_callbacks(), vec![CallbackFiring::Reply(0)]);
}

#[test]
fn reply_error_becomes_error_reply() {
    let mut ctx = Context::new(1);
    let (reply, free, _seen, freed) = callbacks(Err("Authentication failed"));
    let mut bc = ctx.block_client_on_auth(&user(), &pass(), reply, Some(free));
    bc.set_blocked_private_data(3);
    let pending = bc.unblock(&mut ctx);
    ctx.run_unblocked(pending);
    assert_eq!(
        *ctx.sent_replies(),
        vec![(0, AuthReply::Error("Authentication failed".to_string()))]
    );
    assert_eq!(*freed.borrow(), vec![3]);
}

#[test]
fn reply_outcome_maps_results() {
    let (r, code) = auth_reply_outcome(Ok(AUTH_NOT_HANDLED));
    assert_eq!(r, AuthReply::Code(AUTH_NOT_HANDLED));
    assert_eq!(code, AUTH_NOT_HANDLED);
    let (r, code) = auth_reply_outcome(Err(ValkeyError::String("denied".to_string())));
    assert_eq!(r, AuthReply::Error("denied".to_string()));
    assert_eq!(code, AUTH_HANDLED);
}

#[test]
fn abort_before_payload_runs_no_callback() {
    let mut ctx = Context::new(1);
    let (reply, free, seen, freed) = callbacks(Ok(AUTH_HANDLED));
    let bc = ctx.block_client_on_auth(&user(), &pass(), reply, Some(free));
    assert_eq!(bc.abort(&mut ctx), Ok(()));
    assert!(seen.borrow().is_empty());
    assert!(freed.borrow().is_empty());
    assert!(ctx.fired_callbacks().is_empty());
    assert!(ctx.sent_replies().is_empty());
}

/// A payload that notes when it is dropped.
struct Watched(Rc<Cell<bool>>);

impl Drop for Watched {
    fn drop(&mut self) {
        self.0.set(true);
    }
}

#[test]
fn abort_after_payload_drops_payload_without_callbacks() {
    let mut ctx = Context::new(1);
    let dropped = Rc::new(Cell::new(false));
    let replies = Rc::new(Cell::new(0));
    let frees = Rc::new(Cell::new(0));
    let r = replies.clone();
    let f = frees.clone();
    let mut bc = ctx.block_client_on_auth(
        &user(),
        &pass(),
        move |_c: &Context, _u: ValkeyString, _p: ValkeyString, _d: Option<&Watched>| {
            r.set(r.get() + 1);
            Ok(AUTH_HANDLED)
        },
        Some(move |_c: &Context, _d: Watched| f.set(f.get() + 1)),
    );
    bc.set_blocked_private_data(Watched(dropped.clone()));
    assert!(!dropped.get());
    assert_eq!(bc.abort(&mut ctx), Ok(()));
    assert!(dropped.get());
    assert_eq!(replies.get(), 0);
    assert_eq!(frees.get(), 0);
    assert!(ctx.fired_callbacks().is_empty());
}

#[test]
fn abort_after_disconnect_fails() {
    let mut ctx = Context::new(1);
    let (reply, free, seen, freed) = callbacks(Ok(AUTH_HANDLED));
    let mut bc = ctx.block_client_on_auth(&user(), &pass(), reply, Some(free));
    bc.set_blocked_private_data(9);
    ctx.disconnect_blocked_client(bc.get_id());
    assert_eq!(
        bc.abort(&mut ctx),
        Err(ValkeyError::Str("Failed to abort blocked client"))
    );
    assert!(seen.borrow().is_empty());
    assert!(freed.borrow().is_empty());
    assert!(ctx.fired_callbacks().is_empty());
}

#[test]
fn disconnect_skips_reply_but_frees_payload() {
    let mut ctx = Context::new(1);
    let (reply, free, seen, freed) = callbacks(Ok(AUTH_HANDLED));
    let mut bc = ctx.block_client_on_auth(&user(), &pass(), reply, Some(free));
    bc.set_blocked_private_data(11);
    ctx.disconnect_blocked_client(bc.get_id());
    let pending = bc.unblock(&mut ctx);
    ctx.run_unblocked(pending);
    assert!(seen.borrow().is_empty());
    assert_eq!(*freed.borrow(), vec![11]);
    assert_eq!(*ctx.fired_callbacks(), vec![CallbackFiring::Free(0)]);
    assert!(ctx.sent_replies().is_empty());
}

#[test]
fn plain_block_client_has_nothing_to_run() {
    let mut ctx = Context::new(1);
    let bc = ctx.block_client();
    assert!(!bc.free_callback_registered());
    assert_eq!(bc.get_id(), 0);
    assert_eq!(ctx.blocked_count(), 1);
    let pending = bc.unblock(&mut ctx);
    ctx.run_unblocked_plain(pending);
    assert!(ctx.fired_callbacks().is_empty());
    let bc2 = ctx.block_client();
    assert_eq!(bc2.get_id(), 1);
    assert_eq!(bc2.abort(&mut ctx), Ok(()));
}

#[test]
fn many_operations_finalized_in_any_order() {
    let mut ctx = Context::new(1);
    let (reply, free, seen, freed) = callbacks(Ok(AUTH_HANDLED));
    let n = 10;
    let mut pending = Vec::new();
    let mut handles = Vec::new();
    for i in 0..n {
        let mut bc = ctx.block_client_on_auth(&user(), &pass(), reply.clone(), Some(free.clone()));
        bc.set_blocked_private_data(i as i32 * 10);
        handles.push(bc);
    }
    // release in one order, finalize in another
    let release_order = [3usize, 7, 0, 9, 1, 5, 2, 8, 4, 6];
    let mut slots: Vec<Option<_>> = handles.into_iter().map(Some).collect();
    for &i in release_order.iter() {
        pending.push(slots[i].take().unwrap().unblock(&mut ctx));
    }
    let finalize_order = [9usize, 0, 4, 2, 8, 6, 1, 3, 7, 5];
    let mut pslots: Vec<Option<_>> = pending.into_iter().map(Some).collect();
    for &i in finalize_order.iter() {
        ctx.run_unblocked(pslots[i].take().unwrap());
    }
    let fired = ctx.fired_callbacks().clone();
    assert_eq!(fired.len(), 2 * n);
    for id in 0..n {
        let r: Vec<usize> = fired
            .iter()
            .enumerate()
            .filter(|(_, f)| **f == CallbackFiring::Reply(id))
            .map(|(k, _)| k)
            .collect();
        let f: Vec<usize> = fired
            .iter()
            .enumerate()
            .filter(|(_, f)| **f == CallbackFiring::Free(id))
            .map(|(k, _)| k)
            .collect();
        assert_eq!(r.len(), 1);
        assert_eq!(f.len(), 1);
        assert!(r[0] < f[0]);
    }
    assert_eq!(seen.borrow().len(), n);
    let mut got = freed.borrow().clone();
    got.sort();
    assert_eq!(got, (0..n as i32).map(|i| i * 10).collect::<Vec<_>>());
}

#[test]
fn block_state_is_tracked() {
    let mut ctx = Context::new(1);
    let bc = ctx.block_client();
    assert_eq!(ctx.block_state(0), Some(BlockState::Blocked));
    let bc2 = ctx.block_client();
    let p = bc2.unblock(&mut ctx);
    assert_eq!(ctx.block_state(1), Some(BlockState::Unblocked));
    ctx.run_unblocked_plain(p);
    assert_eq!(ctx.block_state(1), Some(BlockState::Finalized));
    assert_eq!(bc.abort(&mut ctx), Ok(()));
    assert_eq!(ctx.block_state(0), Some(BlockState::Aborted));
    assert_eq!(ctx.block_state(2), None);
}

#[test]
fn unload_aborts_held_operations() {
    let mut ctx = Context::new(1);
    let (reply, free, seen, freed) = callbacks(Ok(AUTH_HANDLED));
    let mut held = ctx.block_client_on_auth(&user(), &pass(), reply, Some(free));
    held.set_blocked_private_data(1);
    let gone = ctx.block_client();
    ctx.disconnect_blocked_client(gone.get_id());
    let released = ctx.block_client();
    let pending = released.unblock(&mut ctx);
    let failed = ctx.abort_outstanding();
    assert_eq!(failed, vec![1]);
    ctx.run_unblocked_plain(pending);
    assert!(seen.borrow().is_empty());
    assert!(freed.borrow().is_empty());
    assert!(ctx.fired_callbacks().is_empty());
    drop(held);
    drop(gone);
}
