use vstd::prelude::*;
use crate::blocked::{AUTH_HANDLED, AUTH_NOT_HANDLED};
use crate::client::client_of;
use crate::context::{client_index, Context};
use crate::error::Status;
use crate::valkey_string::ValkeyString;

verus! {

/// The answer of one authentication provider.
#[derive(Clone, Copy, PartialEq, Eq, Debug, Structural)]
pub enum AuthOutcome {
    Allow,
    Deny,
    /// The provider does not decide; the next provider is asked.
    DeferToNext,
}

impl AuthOutcome {
    /// The outcome code the host reads: a decision is handled, a deferral is not.
    pub fn code(&self) -> (r: i32)
        ensures
            r == (if *self == AuthOutcome::DeferToNext {
                AUTH_NOT_HANDLED
            } else {
                AUTH_HANDLED
            }),
    {
        match self {
            AuthOutcome::DeferToNext => AUTH_NOT_HANDLED,
            _ => AUTH_HANDLED,
        }
    }
}

/// The authentication providers of a module, in the order they were registered.
pub struct AuthChain {
    providers: Vec<u64>,
}

impl AuthChain {
    pub closed spec fn providers(&self) -> Seq<u64> {
        self.providers@
    }

    pub fn new() -> (r: AuthChain)
        ensures
            r.providers().len() == 0,
    {
        AuthChain { providers: Vec::new() }
    }

    pub fn register(&mut self, provider: u64)
        ensures
            final(self).providers() == old(self).providers().push(provider),
    {
        self.providers.push(provider);
    }

    /// The providers in the order they are asked: the last registered first.
    pub fn invocation_order(&self) -> (r: Vec<u64>)
        ensures
            r@ == self.providers().reverse(),
    {
        let n = self.providers.len();
        let mut out: Vec<u64> = Vec::new();
        let mut k: usize = 0;
        while k < n
            invariant
                0 <= k <= n,
                n == self.providers@.len(),
                out@ =~= self.providers@.reverse().take(k as int),
            decreases n - k,
        {
            out.push(self.providers[n - 1 - k]);
            k = k + 1;
        }
        assert(self.providers@.reverse().take(n as int) =~= self.providers@.reverse());
        out
    }
}

/// Given the answers of the providers in the order they are asked, the
/// position and answer of the first one that decides; `None` when every
/// provider defers, and the host's own password check decides.
pub fn decide(answers: &Vec<AuthOutcome>) -> (r: Option<(usize, AuthOutcome)>)
    ensures
        match r {
            Some((i, o)) => i < answers@.len() && answers@[i as int] == o && o
                != AuthOutcome::DeferToNext && forall|j: int|
                0 <= j < i ==> answers@[j] == AuthOutcome::DeferToNext,
            None => forall|j: int| 0 <= j < answers@.len() ==> answers@[j] == AuthOutcome::DeferToNext,
        },
{
    let mut i: usize = 0;
    while i < answers.len()
        invariant
            0 <= i <= answers@.len(),
            forall|j: int| 0 <= j < i ==> answers@[j] == AuthOutcome::DeferToNext,
        decreases answers@.len() - i,
    {
        if answers[i] != AuthOutcome::DeferToNext {
            return Some((i, answers[i]));
        }
        i = i + 1;
    }
    None
}

impl Context {
    /// Authenticates the calling client as ACL user `username`. Fails when
    /// the host has no such user or does not know the client.
    pub fn authenticate_client_with_acl_user(&mut self, username: &ValkeyString) -> (r: Status)
        ensures
            final(self).same_blocked(old(self)),
            final(self).client() == old(self).client(),
            final(self).config() == old(self).config(),
            final(self).acl_users() == old(self).acl_users(),
            final(self).clients().len() == old(self).clients().len(),
            (r == Status::Success) == (old(self).acl_users().contains(username@) && client_of(
                old(self).clients(),
                old(self).client(),
            ) is Some),
            r == Status::Success ==> (client_of(final(self).clients(), final(self).client()) matches Some(c)
                && c.username.is_some() && c.username.unwrap()@ == username@),
            r == Status::Failure ==> final(self).clients() == old(self).clients(),
    {
        if !self.acl_user_exists(username) {
            return Status::Failure;
        }
        let id = self.get_client_id();
        proof {
            crate::client::lemma_client_index_in_range(self.clients(), id);
        }
        match self.find_client(id) {
            Some(i) => {
                let ghost before = self.clients();
                self.set_client_username_at(i, username.safe_clone());
                proof {
                    crate::client::lemma_client_index_unchanged(before, self.clients(), id, i as int);
                }
                Status::Success
            },
            None => Status::Failure,
        }
    }
}

} // verus!
