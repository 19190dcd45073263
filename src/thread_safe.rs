use vstd::prelude::*;
use crate::context::Context;

verus! {

/// Proof that the host lock is held. It has no public constructor: only the
/// entry points that run under the lock hand one out (`Context::lock_token`,
/// `HostLock::acquire`), and it is only lent, never stored.
pub struct LockToken {
    _private: (),
}

/// The token: all tokens are alike, only where they come from matters.
pub closed spec fn lock_token_value() -> LockToken {
    LockToken { _private: () }
}

impl Context {
    /// A context exists only while its code runs under the host lock.
    pub fn lock_token(&self) -> LockToken {
        LockToken { _private: () }
    }
}

/// A value that is read or written only by code holding the host lock.
pub struct ValkeyGILGuard<T> {
    value: T,
}

impl<T> View for ValkeyGILGuard<T> {
    type V = T;

    closed spec fn view(&self) -> T {
        self.value
    }
}

impl<T> ValkeyGILGuard<T> {
    pub fn new(value: T) -> (r: ValkeyGILGuard<T>)
        ensures
            r@ == value,
    {
        ValkeyGILGuard { value }
    }

    /// Read access, for as long as the token is lent.
    pub fn lock<'a>(&'a self, token: &'a LockToken) -> (r: &'a T)
        ensures
            *r == self@,
    {
        &self.value
    }

    /// Write access, for as long as the token is lent.
    pub fn lock_mut<'a>(&'a mut self, token: &'a LockToken) -> (r: &'a mut T)
        ensures
            *r == old(self)@,
            final(self)@ == *final(r),
    {
        &mut self.value
    }

    /// Replaces the value.
    pub fn set(&mut self, token: &LockToken, value: T)
        ensures
            final(self)@ == value,
    {
        self.value = value;
    }
}

/// Why the host lock was not granted.
#[derive(Debug, Clone, Copy, PartialEq, Eq, Structural)]
pub enum LockError {
    /// The asking thread already holds the lock: taking it again would
    /// deadlock, so the request fails at once.
    Reentrant,
    /// Another thread holds the lock; the asking thread has to wait.
    Busy,
    /// The releasing thread does not hold the lock.
    NotHeld,
}

/// Who holds the host lock after `thread` asks for it.
pub open spec fn holder_after_acquire(holder: Option<u64>, thread: u64) -> Option<u64> {
    if holder is None {
        Some(thread)
    } else {
        holder
    }
}

/// Who holds the host lock after `thread` releases it.
pub open spec fn holder_after_release(holder: Option<u64>, thread: u64) -> Option<u64> {
    if holder == Some(thread) {
        None
    } else {
        holder
    }
}

/// The host lock as seen from threads other than the host's own: which
/// thread holds it, if any. Blocking until it is free is the caller's
/// loop; this type decides who gets it and refuses re-entry.
pub struct HostLock {
    holder: Option<u64>,
}

impl HostLock {
    pub closed spec fn holder(&self) -> Option<u64> {
        self.holder
    }

    /// A lock that no thread holds.
    pub fn new() -> (r: HostLock)
        ensures
            r.holder() is None,
    {
        HostLock { holder: None }
    }

    pub fn get_holder(&self) -> (r: Option<u64>)
        ensures
            r == self.holder(),
    {
        self.holder
    }

    /// Thread `thread` asks for the lock. It gets a token when no thread
    /// holds the lock; it is refused with `Reentrant` when it already holds
    /// it, and with `Busy` when another thread does.
    pub fn acquire(&mut self, thread: u64) -> (r: Result<LockToken, LockError>)
        ensures
            final(self).holder() == holder_after_acquire(old(self).holder(), thread),
            r.is_ok() <==> old(self).holder() is None,
            r == Err::<LockToken, LockError>(LockError::Reentrant) <==> old(self).holder() == Some(
                thread,
            ),
            r == Err::<LockToken, LockError>(LockError::Busy) <==> (old(self).holder() is Some
                && old(self).holder() != Some(thread)),
    {
        match self.holder {
            None => {
                self.holder = Some(thread);
                Ok(LockToken { _private: () })
            },
            Some(t) => {
                if t == thread {
                    Err(LockError::Reentrant)
                } else {
                    Err(LockError::Busy)
                }
            },
        }
    }

    /// Runs `critical_section` for thread `thread` under the lock: takes the
    /// lock, lends the token to the section, and gives the lock back when the
    /// section ends. Refused, without running the section, as `acquire`
    /// refuses.
    pub fn with_lock<R, F: FnOnce(&LockToken) -> R>(&mut self, thread: u64, critical_section: F) -> (r:
        Result<R, LockError>)
        requires
            critical_section.requires((&lock_token_value(),)),
        ensures
            final(self).holder() == old(self).holder(),
            r.is_ok() <==> old(self).holder() is None,
            r matches Ok(v) ==> critical_section.ensures((&lock_token_value(),), v),
            r matches Err(e) ==> (e == LockError::Reentrant <==> old(self).holder() == Some(thread)),
            r matches Err(e) ==> e != LockError::NotHeld,
    {
        match self.acquire(thread) {
            Ok(token) => {
                let v = critical_section(&token);
                assert(token == lock_token_value());
                let _ = self.release(thread, token);
                Ok(v)
            },
            Err(e) => Err(e),
        }
    }

    /// Thread `thread` gives the lock back, with the token it was given.
    pub fn release(&mut self, thread: u64, token: LockToken) -> (r: Result<(), LockError>)
        ensures
            final(self).holder() == holder_after_release(old(self).holder(), thread),
            r.is_ok() <==> old(self).holder() == Some(thread),
            r.is_err() ==> r == Err::<(), LockError>(LockError::NotHeld),
    {
        if self.holder == Some(thread) {
            self.holder = None;
            Ok(())
        } else {
            Err(LockError::NotHeld)
        }
    }
}

/// One update of a guarded counter by thread `thread` through the host lock:
/// take the lock, read, write back one more, give the lock back. When the
/// lock is refused nothing changes.
pub fn increment_under_lock(lock: &mut HostLock, thread: u64, counter: &mut ValkeyGILGuard<u64>) -> (r:
    Result<(), LockError>)
    requires
        old(counter)@ < u64::MAX,
    ensures
        r.is_ok() <==> old(lock).holder() is None,
        r.is_ok() ==> final(counter)@ == old(counter)@ + 1,
        r.is_err() ==> final(counter)@ == old(counter)@ && r == Err::<(), LockError>(
            if old(lock).holder() == Some(thread) {
                LockError::Reentrant
            } else {
                LockError::Busy
            },
        ),
        final(lock).holder() == old(lock).holder(),
{
    match lock.acquire(thread) {
        Ok(token) => {
            let v = *counter.lock(&token);
            counter.set(&token, v + 1);
            let _ = lock.release(thread, token);
            Ok(())
        },
        Err(e) => Err(e),
    }
}

/// Updates of a guarded counter through the host lock, one for each entry of
/// `schedule`, by the thread that the entry names, in that order: any
/// interleaving of the threads' updates. Starting with the lock free, every
/// update is granted and none is lost or counted twice: the counter rises by
/// exactly the number of updates.
pub fn run_increments(lock: &mut HostLock, counter: &mut ValkeyGILGuard<u64>, schedule: &Vec<u64>) -> (done:
    usize)
    requires
        old(lock).holder() is None,
        old(counter)@ + schedule@.len() <= u64::MAX,
    ensures
        done == schedule@.len(),
        final(counter)@ == old(counter)@ + schedule@.len(),
        final(lock).holder() is None,
{
    let mut done: usize = 0;
    while done < schedule.len()
        invariant
            0 <= done <= schedule@.len(),
            lock.holder() is None,
            counter@ == old(counter)@ + done,
            old(counter)@ + schedule@.len() <= u64::MAX,
        decreases schedule@.len() - done,
    {
        let r = increment_under_lock(lock, schedule[done], counter);
        assert(r.is_ok());
        done = done + 1;
    }
    done
}

} // verus!
