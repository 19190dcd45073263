use vstd::prelude::*;
use vstd::string::StringSliceAdditionalSpecFns;
use vstd::utf8::valid_utf8;
use crate::configuration::arg_views;
use crate::error::ValkeyError;
use crate::valkey_string::ValkeyString;

verus! {

/// A registered command filter, or none (`is_null`) when registration failed.
#[derive(Debug, Clone, Copy)]
pub struct CommandFilter {
    inner: Option<u64>,
}

impl CommandFilter {
    pub closed spec fn filter_id(&self) -> Option<u64> {
        self.inner
    }

    pub fn new(inner: Option<u64>) -> (r: CommandFilter)
        ensures
            r.filter_id() == inner,
    {
        CommandFilter { inner }
    }

    /// Whether no filter stands behind the handle.
    pub fn is_null(&self) -> (r: bool)
        ensures
            r == self.filter_id() is None,
    {
        self.inner.is_none()
    }
}

/// The command that a filter is looking at: its arguments, the command
/// name first, and the client that sent it.
pub struct CommandFilterCtx {
    args: Vec<ValkeyString>,
    client_id: u64,
}

/// The arguments that are valid UTF-8, in order.
pub open spec fn text_args(s: Seq<Seq<u8>>) -> Seq<Seq<u8>>
    decreases s.len(),
{
    if s.len() == 0 {
        Seq::empty()
    } else {
        text_args(s.drop_last()) + if valid_utf8(s.last()) {
            seq![s.last()]
        } else {
            Seq::<Seq<u8>>::empty()
        }
    }
}

/// The arguments after the command name.
pub open spec fn after_command(args: Seq<Seq<u8>>) -> Seq<Seq<u8>> {
    if args.len() == 0 {
        args
    } else {
        args.skip(1)
    }
}

impl CommandFilterCtx {
    /// The arguments, command name first.
    pub closed spec fn args(&self) -> Seq<Seq<u8>> {
        arg_views(self.args@)
    }

    pub closed spec fn client(&self) -> u64 {
        self.client_id
    }

    pub fn new(args: Vec<ValkeyString>, client_id: u64) -> (r: CommandFilterCtx)
        ensures
            r.args() == arg_views(args@),
            r.client() == client_id,
    {
        CommandFilterCtx { args, client_id }
    }

    /// The number of arguments, the command name included.
    pub fn args_count(&self) -> (r: usize)
        ensures
            r == self.args().len(),
    {
        self.args.len()
    }

    /// The argument at `pos`, if there is one.
    pub fn arg_get(&self, pos: usize) -> (r: Option<&ValkeyString>)
        ensures
            pos < self.args().len() ==> (r matches Some(a) && a@ == self.args()[pos as int]),
            pos >= self.args().len() ==> r is None,
    {
        if pos < self.args.len() {
            Some(&self.args[pos])
        } else {
            None
        }
    }

    /// The argument at `pos` as text; an error when there is none or it is
    /// not UTF-8.
    pub fn arg_get_try_as_str(&self, pos: usize) -> (r: Result<&str, ValkeyError>)
        ensures
            r.is_ok() <==> pos < self.args().len() && valid_utf8(self.args()[pos as int]),
            r matches Ok(s) ==> s.spec_bytes() == self.args()[pos as int],
    {
        match self.arg_get(pos) {
            Some(a) => a.try_as_str(),
            None => Err(ValkeyError::Str("No argument at this position")),
        }
    }

    /// The command name as text.
    pub fn cmd_get_try_as_str(&self) -> (r: Result<&str, ValkeyError>)
        ensures
            r.is_ok() <==> 0 < self.args().len() && valid_utf8(self.args()[0]),
            r matches Ok(s) ==> s.spec_bytes() == self.args()[0],
    {
        self.arg_get_try_as_str(0)
    }

    /// The arguments after the command name that are valid UTF-8, in order;
    /// the others are skipped.
    pub fn get_all_args_wo_cmd(&self) -> (r: Vec<&str>)
        ensures
            r@.map_values(|s: &str| s.spec_bytes()) == text_args(after_command(self.args())),
    {
        let mut output: Vec<&str> = Vec::new();
        let n = self.args.len();
        let ghost views = self.args();
        if n == 0 {
            assert(output@.map_values(|s: &str| s.spec_bytes()) =~= text_args(after_command(views)));
            return output;
        }
        let mut pos: usize = 1;
        assert(views.subrange(1, 1) =~= Seq::<Seq<u8>>::empty());
        while pos < n
            invariant
                1 <= pos <= n,
                n == views.len(),
                views == self.args(),
                output@.map_values(|s: &str| s.spec_bytes()) =~= text_args(views.subrange(1, pos as int)),
            decreases n - pos,
        {
            let ghost before = output@;
            assert(views.subrange(1, pos + 1).drop_last() =~= views.subrange(1, pos as int));
            match self.arg_get_try_as_str(pos) {
                Ok(arg) => {
                    output.push(arg);
                    assert(output@.map_values(|s: &str| s.spec_bytes()) =~= before.map_values(
                        |s: &str| s.spec_bytes(),
                    ).push(arg.spec_bytes()));
                },
                Err(_) => {},
            }
            pos = pos + 1;
        }
        assert(views.subrange(1, n as int) =~= views.skip(1));
        output
    }

    /// Replaces the argument at `pos`; nothing changes when there is none.
    pub fn arg_replace(&mut self, pos: usize, arg: &str)
        ensures
            pos < old(self).args().len() ==> final(self).args() == old(self).args().update(
                pos as int,
                arg.spec_bytes(),
            ),
            pos >= old(self).args().len() ==> final(self).args() == old(self).args(),
            final(self).client() == old(self).client(),
    {
        if pos < self.args.len() {
            self.args.set(pos, ValkeyString::create(arg));
            assert(arg_views(self.args@) =~= arg_views(old(self).args@).update(pos as int, arg.spec_bytes()));
        }
    }

    /// Inserts an argument before position `pos` (at the end when `pos` is
    /// the count); nothing changes when `pos` is past the end.
    pub fn arg_insert(&mut self, pos: usize, arg: &str)
        ensures
            pos <= old(self).args().len() ==> final(self).args() == old(self).args().insert(
                pos as int,
                arg.spec_bytes(),
            ),
            pos > old(self).args().len() ==> final(self).args() == old(self).args(),
            final(self).client() == old(self).client(),
    {
        if pos <= self.args.len() {
            self.args.insert(pos, ValkeyString::create(arg));
            assert(arg_views(self.args@) =~= arg_views(old(self).args@).insert(pos as int, arg.spec_bytes()));
        }
    }

    /// Deletes the argument at `pos`; nothing changes when there is none.
    pub fn arg_delete(&mut self, pos: usize)
        ensures
            pos < old(self).args().len() ==> final(self).args() == old(self).args().remove(pos as int),
            pos >= old(self).args().len() ==> final(self).args() == old(self).args(),
            final(self).client() == old(self).client(),
    {
        if pos < self.args.len() {
            self.args.remove(pos);
            assert(arg_views(self.args@) =~= arg_views(old(self).args@).remove(pos as int));
        }
    }

    /// The client that sent the command.
    pub fn get_client_id(&self) -> (r: u64)
        ensures
            r == self.client(),
    {
        self.client_id
    }
}

} // verus!
