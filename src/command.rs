use vstd::prelude::*;
use vstd::string::StringExecFns;

verus! {

/// Flags of a module command.
#[derive(Clone, Copy, Debug, PartialEq, Eq, Structural)]
pub enum ValkeyCommandFlags {
    /// The command may modify the data set (it may also read from it).
    Write,
    /// The command returns data from keys but never writes.
    ReadOnly,
    /// The command is an administrative command.
    Admin,
    /// The command may use additional memory and is denied when memory is short.
    DenyOOM,
    /// The command is not allowed in scripts.
    DenyScript,
    /// The command is allowed while the server loads data.
    AllowLoading,
    /// The command publishes on Pub/Sub channels.
    PubSub,
    /// The command may answer differently for the same arguments and keys.
    Random,
    /// The command may run on replicas that do not serve stale data.
    AllowStale,
    /// The command is not propagated to MONITOR.
    NoMonitor,
    /// The command is not logged in the slow log.
    NoSlowlog,
    /// The command's time complexity is at most O(log(N)).
    Fast,
    /// The command reports its key arguments through the getkeys interface.
    GetkeysApi,
    /// The command is not registered in cluster mode.
    NoCluster,
    /// The command can be run by an unauthenticated client.
    NoAuth,
    /// The command may generate replication traffic.
    MayReplicate,
    /// All the keys the command may take are optional.
    NoMandatoryKeys,
    /// The command may block the client.
    Blocking,
    /// The command is allowed while the server is busy with a script or a slow module command.
    AllowBusy,
    /// The command reports its channel arguments through the getchannels interface.
    GetchannelsApi,
}

impl ValkeyCommandFlags {
    /// The name the host knows the flag by.
    pub open spec fn name(&self) -> Seq<char> {
        match self {
            ValkeyCommandFlags::Write => "write"@,
            ValkeyCommandFlags::ReadOnly => "readonly"@,
            ValkeyCommandFlags::Admin => "admin"@,
            ValkeyCommandFlags::DenyOOM => "deny-oom"@,
            ValkeyCommandFlags::DenyScript => "deny-script"@,
            ValkeyCommandFlags::AllowLoading => "allow-loading"@,
            ValkeyCommandFlags::PubSub => "pubsub"@,
            ValkeyCommandFlags::Random => "random"@,
            ValkeyCommandFlags::AllowStale => "allow-stale"@,
            ValkeyCommandFlags::NoMonitor => "no-monitor"@,
            ValkeyCommandFlags::NoSlowlog => "no-slowlog"@,
            ValkeyCommandFlags::Fast => "fast"@,
            ValkeyCommandFlags::GetkeysApi => "getkeys-api"@,
            ValkeyCommandFlags::NoCluster => "no-cluster"@,
            ValkeyCommandFlags::NoAuth => "no-auth"@,
            ValkeyCommandFlags::MayReplicate => "may-replicate"@,
            ValkeyCommandFlags::NoMandatoryKeys => "no-mandatory-keys"@,
            ValkeyCommandFlags::Blocking => "blocking"@,
            ValkeyCommandFlags::AllowBusy => "allow-busy"@,
            ValkeyCommandFlags::GetchannelsApi => "getchannels-api"@,
        }
    }

    pub fn as_str(&self) -> (r: &'static str)
        ensures
            r@ == self.name(),
    {
        match self {
            ValkeyCommandFlags::Write => "write",
            ValkeyCommandFlags::ReadOnly => "readonly",
            ValkeyCommandFlags::Admin => "admin",
            ValkeyCommandFlags::DenyOOM => "deny-oom",
            ValkeyCommandFlags::DenyScript => "deny-script",
            ValkeyCommandFlags::AllowLoading => "allow-loading",
            ValkeyCommandFlags::PubSub => "pubsub",
            ValkeyCommandFlags::Random => "random",
            ValkeyCommandFlags::AllowStale => "allow-stale",
            ValkeyCommandFlags::NoMonitor => "no-monitor",
            ValkeyCommandFlags::NoSlowlog => "no-slowlog",
            ValkeyCommandFlags::Fast => "fast",
            ValkeyCommandFlags::GetkeysApi => "getkeys-api",
            ValkeyCommandFlags::NoCluster => "no-cluster",
            ValkeyCommandFlags::NoAuth => "no-auth",
            ValkeyCommandFlags::MayReplicate => "may-replicate",
            ValkeyCommandFlags::NoMandatoryKeys => "no-mandatory-keys",
            ValkeyCommandFlags::Blocking => "blocking",
            ValkeyCommandFlags::AllowBusy => "allow-busy",
            ValkeyCommandFlags::GetchannelsApi => "getchannels-api",
        }
    }
}

/// Flags of a key specification.
#[derive(Clone, Copy, Debug, PartialEq, Eq, Structural)]
pub enum ValkeyCommandKeySpecFlags {
    /// Reads the value of the key.
    ReadOnly,
    /// Modifies the value of the key or its metadata.
    ReadWrite,
    /// Overwrites the value of the key.
    Overwrite,
    /// Deletes the key.
    Remove,
    /// Returns, copies or uses the user data of the value.
    Access,
    /// Updates the value; the new value may depend on the old one.
    Update,
    /// Adds data to the value without changing existing data.
    Insert,
    /// Deletes some content of the value.
    Delete,
    /// Not a key, but routed in cluster mode as if it were one.
    NotKey,
    /// The key spec may not point out all the keys.
    Incomplete,
    /// Some keys may have other flags depending on the arguments.
    VariableFlags,
}

impl ValkeyCommandKeySpecFlags {
    /// The name the host knows the flag by.
    pub open spec fn name(&self) -> Seq<char> {
        match self {
            ValkeyCommandKeySpecFlags::ReadOnly => "READ_ONLY"@,
            ValkeyCommandKeySpecFlags::ReadWrite => "READ_WRITE"@,
            ValkeyCommandKeySpecFlags::Overwrite => "OVERWRITE"@,
            ValkeyCommandKeySpecFlags::Remove => "REMOVE"@,
            ValkeyCommandKeySpecFlags::Access => "ACCESS"@,
            ValkeyCommandKeySpecFlags::Update => "UPDATE"@,
            ValkeyCommandKeySpecFlags::Insert => "INSERT"@,
            ValkeyCommandKeySpecFlags::Delete => "DELETE"@,
            ValkeyCommandKeySpecFlags::NotKey => "NOT_KEY"@,
            ValkeyCommandKeySpecFlags::Incomplete => "INCOMPLETE"@,
            ValkeyCommandKeySpecFlags::VariableFlags => "VARIABLE_FLAGS"@,
        }
    }

    pub fn as_str(&self) -> (r: &'static str)
        ensures
            r@ == self.name(),
    {
        match self {
            ValkeyCommandKeySpecFlags::ReadOnly => "READ_ONLY",
            ValkeyCommandKeySpecFlags::ReadWrite => "READ_WRITE",
            ValkeyCommandKeySpecFlags::Overwrite => "OVERWRITE",
            ValkeyCommandKeySpecFlags::Remove => "REMOVE",
            ValkeyCommandKeySpecFlags::Access => "ACCESS",
            ValkeyCommandKeySpecFlags::Update => "UPDATE",
            ValkeyCommandKeySpecFlags::Insert => "INSERT",
            ValkeyCommandKeySpecFlags::Delete => "DELETE",
            ValkeyCommandKeySpecFlags::NotKey => "NOT_KEY",
            ValkeyCommandKeySpecFlags::Incomplete => "INCOMPLETE",
            ValkeyCommandKeySpecFlags::VariableFlags => "VARIABLE_FLAGS",
        }
    }
}

/// Where the keys end, for keys at fixed positions.
pub struct FindKeysRange {
    pub last_key: i32,
    pub steps: i32,
    pub limit: i32,
}

/// Where the keys are, when an argument gives their number.
pub struct FindKeysNum {
    pub key_num_idx: i32,
    pub first_key: i32,
    pub key_step: i32,
}

pub enum FindKeys {
    Range(FindKeysRange),
    Keynum(FindKeysNum),
}

/// The keys start at a fixed argument.
pub struct BeginSearchIndex {
    pub index: i32,
}

/// The keys start after a keyword, searched from `startfrom`.
pub struct BeginSearchKeyword {
    pub keyword: String,
    pub startfrom: i32,
}

pub enum BeginSearch {
    Index(BeginSearchIndex),
    Keyword(BeginSearchKeyword),
}

/// One key specification of a command.
pub struct KeySpecArg {
    pub notes: Option<String>,
    pub flags: Vec<ValkeyCommandKeySpecFlags>,
    pub begin_search: BeginSearch,
    pub find_keys: FindKeys,
}

/// The words joined with one space between two of them.
pub open spec fn join_words(words: Seq<Seq<char>>) -> Seq<char>
    decreases words.len(),
{
    if words.len() == 0 {
        Seq::empty()
    } else if words.len() == 1 {
        words[0]
    } else {
        join_words(words.drop_last()) + seq![' '] + words.last()
    }
}

pub open spec fn flag_names(flags: Seq<ValkeyCommandFlags>) -> Seq<Seq<char>> {
    flags.map_values(|f: ValkeyCommandFlags| f.name())
}

/// The flags of a command as the host reads them: their names separated by
/// single spaces.
pub fn command_flags_string(flags: &Vec<ValkeyCommandFlags>) -> (r: String)
    ensures
        r@ == join_words(flag_names(flags@)),
{
    let mut out = String::new();
    let mut i: usize = 0;
    while i < flags.len()
        invariant
            0 <= i <= flags@.len(),
            out@ == join_words(flag_names(flags@.take(i as int))),
        decreases flags@.len() - i,
    {
        proof {
            assert(flag_names(flags@.take(i + 1)).drop_last() =~= flag_names(flags@.take(i as int)));
        }
        if i > 0 {
            out.append(" ");
            proof {
                reveal_strlit(" ");
            }
        }
        out.append(flags[i].as_str());
        i = i + 1;
        assert(out@ =~= join_words(flag_names(flags@.take(i as int))));
    }
    assert(flags@.take(flags@.len() as int) =~= flags@);
    out
}

/// The names of the flags of a key specification, in order.
pub fn key_spec_flag_names(flags: &Vec<ValkeyCommandKeySpecFlags>) -> (r: Vec<&'static str>)
    ensures
        r@.len() == flags@.len(),
        forall|i: int| 0 <= i < flags@.len() ==> (#[trigger] r@[i])@ == flags@[i].name(),
{
    let mut out: Vec<&'static str> = Vec::new();
    let mut i: usize = 0;
    while i < flags.len()
        invariant
            0 <= i <= flags@.len(),
            out@.len() == i,
            forall|j: int| 0 <= j < i ==> (#[trigger] out@[j])@ == flags@[j].name(),
        decreases flags@.len() - i,
    {
        out.push(flags[i].as_str());
        i = i + 1;
    }
    out
}

} // verus!
