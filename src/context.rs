use vstd::prelude::*;
use crate::error::Status;
use crate::valkey_string::ValkeyString;

verus! {

/// Where a blocked client stands in the host's table.
#[derive(Debug, Clone, Copy, PartialEq, Eq, Structural)]
pub enum BlockState {
    /// The client waits; the module still holds the handle.
    Blocked,
    /// The handle was released; the host has yet to run the callbacks.
    Unblocked,
    /// The operation was aborted; no callback runs for it.
    Aborted,
    /// The host has run what the operation registered; nothing is left.
    Finalized,
}

/// What a blocked authentication finally answered to its client.
#[derive(Debug, Clone, PartialEq, Eq)]
pub enum AuthReply {
    /// The reply callback returned this outcome code.
    Code(i32),
    /// The reply callback failed; the client receives this error message.
    Error(String),
}

/// A callback run by the host for a blocked operation, with the handle id.
#[derive(Debug, Clone, Copy, PartialEq, Eq, Structural)]
pub enum CallbackFiring {
    Reply(usize),
    Free(usize),
}

/// The host's record of one blocked client.
#[derive(Debug, Clone, Copy, PartialEq, Eq, Structural)]
pub struct BlockedRecord {
    pub client_id: u64,
    pub state: BlockState,
    /// Whether the client is still connected.
    pub connected: bool,
}

/// What the host knows of one connected client.
pub struct ClientRecord {
    pub id: u64,
    pub name: Option<ValkeyString>,
    pub username: Option<ValkeyString>,
    pub cert: Option<ValkeyString>,
    pub addr: String,
    pub port: u16,
    pub db: u16,
    pub flags: u64,
}

/// The execution context handed to module code. Holding one (or a `&` to
/// one) means running under the host lock. It carries the host state that
/// the library reads and changes: the calling client, the client table, the
/// configuration and the table of blocked clients with the log of the
/// callbacks the host has run.
pub struct Context {
    client_id: u64,
    clients: Vec<ClientRecord>,
    config: Vec<(String, String)>,
    blocked: Vec<BlockedRecord>,
    fired: Vec<CallbackFiring>,
    replies: Vec<(usize, AuthReply)>,
    subscriptions: Vec<u64>,
    acl_users: Vec<ValkeyString>,
    refused_events: Vec<u64>,
}

impl Context {
    /// The id of the client whose command is running.
    pub closed spec fn client(&self) -> u64 {
        self.client_id
    }

    pub closed spec fn clients(&self) -> Seq<ClientRecord> {
        self.clients@
    }

    pub closed spec fn config(&self) -> Seq<(String, String)> {
        self.config@
    }

    /// The state of each blocked operation, indexed by handle id.
    pub closed spec fn records(&self) -> Seq<BlockedRecord> {
        self.blocked@
    }

    /// The callbacks run so far, in order.
    pub closed spec fn fired(&self) -> Seq<CallbackFiring> {
        self.fired@
    }

    /// The replies sent to blocked clients, with the handle id, in order.
    pub closed spec fn replies(&self) -> Seq<(usize, AuthReply)> {
        self.replies@
    }

    /// The names of the host's ACL users.
    pub closed spec fn acl_users(&self) -> Seq<Seq<u8>> {
        self.acl_users@.map_values(|u: ValkeyString| u@)
    }

    /// Adds an ACL user to the host.
    pub fn add_acl_user(&mut self, name: ValkeyString)
        ensures
            final(self).acl_users() == old(self).acl_users().push(name@),
            final(self).same_tables(old(self)),
            final(self).same_blocked(old(self)),
    {
        self.acl_users.push(name);
        assert(self.acl_users() =~= old(self).acl_users().push(name@));
    }

    pub(crate) fn acl_user_exists(&self, name: &ValkeyString) -> (r: bool)
        ensures
            r == self.acl_users().contains(name@),
    {
        let mut i: usize = 0;
        while i < self.acl_users.len()
            invariant
                0 <= i <= self.acl_users@.len(),
                forall|j: int| 0 <= j < i ==> self.acl_users()[j] != name@,
            decreases self.acl_users@.len() - i,
        {
            if self.acl_users[i].eq_bytes(name.as_slice()) {
                assert(self.acl_users()[i as int] == name@);
                return true;
            }
            i = i + 1;
        }
        false
    }

    pub(crate) fn set_client_username_at(&mut self, i: usize, username: ValkeyString)
        requires
            i < old(self).clients().len(),
        ensures
            final(self).clients().len() == old(self).clients().len(),
            forall|j: int|
                0 <= j < old(self).clients().len() && j != i ==> final(self).clients()[j]
                    == old(self).clients()[j],
            final(self).clients()[i as int].id == old(self).clients()[i as int].id,
            final(self).clients()[i as int].username == Some(username),
            final(self).client() == old(self).client(),
            final(self).config() == old(self).config(),
            final(self).subscriptions() == old(self).subscriptions(),
            final(self).acl_users() == old(self).acl_users(),
            final(self).same_blocked(old(self)),
    {
        let ghost before = self.clients@;
        let mut c = self.clients.remove(i);
        c.username = Some(username);
        self.clients.insert(i, c);
        proof {
            assert forall|j: int|
                0 <= j < before.len() && j != i implies self.clients@[j] == before[j] by {
                if j < i {
                } else {
                }
            }
        }
    }

    /// The server events the module subscribed to, in order.
    pub closed spec fn subscriptions(&self) -> Seq<u64> {
        self.subscriptions@
    }

    /// Neither the calling client, the client table, the configuration nor
    /// the event subscriptions differ between the two contexts.
    pub open spec fn same_tables(&self, other: &Context) -> bool {
        &&& self.client() == other.client()
        &&& self.clients() == other.clients()
        &&& self.config() == other.config()
        &&& self.subscriptions() == other.subscriptions()
    }

    /// The server events the host refuses subscriptions to.
    pub closed spec fn refused_events(&self) -> Seq<u64> {
        self.refused_events@
    }

    /// From now on the host refuses subscriptions to server event `event`.
    pub fn refuse_server_event(&mut self, event: u64)
        ensures
            final(self).refused_events() == old(self).refused_events().push(event),
            final(self).subscriptions() == old(self).subscriptions(),
            final(self).client() == old(self).client(),
            final(self).clients() == old(self).clients(),
            final(self).config() == old(self).config(),
            final(self).same_blocked(old(self)),
    {
        self.refused_events.push(event);
    }

    /// Subscribes the module to server event `event`, unless the host
    /// refuses it.
    pub(crate) fn subscribe(&mut self, event: u64) -> (r: Status)
        ensures
            r == Status::Success <==> !old(self).refused_events().contains(event),
            r == Status::Success ==> final(self).subscriptions() == old(self).subscriptions().push(event),
            r == Status::Failure ==> final(self).subscriptions() == old(self).subscriptions(),
            final(self).refused_events() == old(self).refused_events(),
            final(self).client() == old(self).client(),
            final(self).clients() == old(self).clients(),
            final(self).config() == old(self).config(),
            final(self).same_blocked(old(self)),
    {
        let mut i: usize = 0;
        while i < self.refused_events.len()
            invariant
                0 <= i <= self.refused_events@.len(),
                forall|j: int| 0 <= j < i ==> self.refused_events@[j] != event,
            decreases self.refused_events@.len() - i,
        {
            if self.refused_events[i] == event {
                assert(self.refused_events@.contains(event));
                return Status::Failure;
            }
            i = i + 1;
        }
        self.subscriptions.push(event);
        Status::Success
    }

    /// The server events the module subscribed to, in order.
    pub fn subscribed_events(&self) -> (r: &Vec<u64>)
        ensures
            r@ == self.subscriptions(),
    {
        &self.subscriptions
    }

    /// The blocked-client table, its callback log and its replies are the
    /// same in the two contexts.
    pub open spec fn same_blocked(&self, other: &Context) -> bool {
        &&& self.records() == other.records()
        &&& self.fired() == other.fired()
        &&& self.replies() == other.replies()
    }

    /// Opens a record for a newly blocked operation of the calling client.
    pub(crate) fn open_record(&mut self) -> (id: usize)
        requires
            old(self).records().len() < usize::MAX,
        ensures
            id == old(self).records().len(),
            final(self).records() == old(self).records().push(
                BlockedRecord { client_id: old(self).client(), state: BlockState::Blocked, connected: true },
            ),
            final(self).fired() == old(self).fired(),
            final(self).replies() == old(self).replies(),
            final(self).same_tables(old(self)),
    {
        let id = self.blocked.len();
        self.blocked.push(
            BlockedRecord { client_id: self.client_id, state: BlockState::Blocked, connected: true },
        );
        id
    }

    pub(crate) fn record(&self, id: usize) -> (r: BlockedRecord)
        requires
            id < self.records().len(),
        ensures
            r == self.records()[id as int],
    {
        self.blocked[id]
    }

    pub(crate) fn set_record(&mut self, id: usize, r: BlockedRecord)
        requires
            id < old(self).records().len(),
        ensures
            final(self).records() == old(self).records().update(id as int, r),
            final(self).fired() == old(self).fired(),
            final(self).replies() == old(self).replies(),
            final(self).same_tables(old(self)),
    {
        self.blocked.set(id, r);
    }

    pub(crate) fn log_firing(&mut self, f: CallbackFiring)
        ensures
            final(self).fired() == old(self).fired().push(f),
            final(self).records() == old(self).records(),
            final(self).replies() == old(self).replies(),
            final(self).same_tables(old(self)),
    {
        self.fired.push(f);
    }

    pub(crate) fn send_reply(&mut self, id: usize, reply: AuthReply)
        ensures
            final(self).replies() == old(self).replies().push((id, reply)),
            final(self).records() == old(self).records(),
            final(self).fired() == old(self).fired(),
            final(self).same_tables(old(self)),
    {
        self.replies.push((id, reply));
    }

    /// Where operation `id` stands, if there is such an operation.
    pub fn block_state(&self, id: usize) -> (r: Option<BlockState>)
        ensures
            id < self.records().len() ==> r == Some(self.records()[id as int].state),
            id >= self.records().len() ==> r is None,
    {
        if id < self.blocked.len() {
            Some(self.blocked[id].state)
        } else {
            None
        }
    }

    /// The number of blocked operations recorded so far.
    pub fn blocked_count(&self) -> (r: usize)
        ensures
            r == self.records().len(),
    {
        self.blocked.len()
    }

    /// The callbacks the host has run so far, in order.
    pub fn fired_callbacks(&self) -> (r: &Vec<CallbackFiring>)
        ensures
            r@ == self.fired(),
    {
        &self.fired
    }

    /// The replies sent to blocked clients so far, in order.
    pub fn sent_replies(&self) -> (r: &Vec<(usize, AuthReply)>)
        ensures
            r@ == self.replies(),
    {
        &self.replies
    }

    /// A context for client `client_id`, with no other client, no
    /// configuration and no blocked operation.
    pub fn new(client_id: u64) -> (r: Context)
        ensures
            r.client() == client_id,
            r.clients().len() == 0,
            r.config().len() == 0,
            r.records().len() == 0,
            r.fired().len() == 0,
            r.replies().len() == 0,
            r.subscriptions().len() == 0,
            r.acl_users().len() == 0,
            r.refused_events().len() == 0,
    {
        Context {
            client_id,
            clients: Vec::new(),
            config: Vec::new(),
            blocked: Vec::new(),
            fired: Vec::new(),
            replies: Vec::new(),
            subscriptions: Vec::new(),
            acl_users: Vec::new(),
            refused_events: Vec::new(),
        }
    }

    /// The id of the calling client.
    pub fn get_client_id(&self) -> (r: u64)
        ensures
            r == self.client(),
    {
        self.client_id
    }

    /// Adds a client to the host's table.
    pub fn add_client(&mut self, client: ClientRecord)
        ensures
            final(self).clients() == old(self).clients().push(client),
            final(self).client() == old(self).client(),
            final(self).config() == old(self).config(),
            final(self).same_blocked(old(self)),
    {
        self.clients.push(client);
    }

    /// Sets a configuration entry of the host, replacing one of the same name.
    pub fn set_config(&mut self, name: String, value: String)
        ensures
            final(self).client() == old(self).client(),
            final(self).clients() == old(self).clients(),
            final(self).same_blocked(old(self)),
            config_lookup(final(self).config(), name@) == Some(value@),
    {
        let mut i: usize = 0;
        while i < self.config.len()
            invariant
                0 <= i <= self.config@.len(),
                self.config@ == old(self).config@,
                self.client_id == old(self).client_id,
                self.clients@ == old(self).clients@,
                self.blocked@ == old(self).blocked@,
                self.fired@ == old(self).fired@,
                self.replies@ == old(self).replies@,
                self.subscriptions@ == old(self).subscriptions@,
                forall|j: int| 0 <= j < i ==> self.config@[j].0@ != name@,
            decreases self.config@.len() - i,
        {
            if self.config[i].0 == name {
                self.config.set(i, (name, value));
                proof {
                    lemma_lookup_first(self.config@, i as int, name@);
                }
                return;
            }
            i = i + 1;
        }
        let ghost before = self.config@;
        self.config.push((name, value));
        proof {
            lemma_lookup_first(self.config@, before.len() as int, name@);
        }
    }

    /// Index of the client with id `id` in the client table.
    pub(crate) fn find_client(&self, id: u64) -> (r: Option<usize>)
        ensures
            match r {
                Some(i) => client_index(self.clients(), id) == Some(i as int),
                None => client_index(self.clients(), id) is None,
            },
    {
        let mut i: usize = 0;
        while i < self.clients.len()
            invariant
                0 <= i <= self.clients@.len(),
                forall|j: int| 0 <= j < i ==> self.clients@[j].id != id,
            decreases self.clients@.len() - i,
        {
            if self.clients[i].id == id {
                proof {
                    lemma_client_index_first(self.clients@, i as int, id);
                }
                return Some(i);
            }
            i = i + 1;
        }
        proof {
            lemma_client_index_none(self.clients@, id);
        }
        None
    }

    pub(crate) fn client_at(&self, i: usize) -> (r: &ClientRecord)
        requires
            i < self.clients().len(),
        ensures
            *r == self.clients()[i as int],
    {
        &self.clients[i]
    }

    pub(crate) fn set_client_name_at(&mut self, i: usize, name: ValkeyString)
        requires
            i < old(self).clients().len(),
        ensures
            final(self).clients().len() == old(self).clients().len(),
            forall|j: int|
                0 <= j < old(self).clients().len() && j != i ==> final(self).clients()[j]
                    == old(self).clients()[j],
            final(self).clients()[i as int].id == old(self).clients()[i as int].id,
            final(self).clients()[i as int].name == Some(name),
            final(self).client() == old(self).client(),
            final(self).config() == old(self).config(),
            final(self).same_blocked(old(self)),
    {
        let ghost before = self.clients@;
        let mut c = self.clients.remove(i);
        c.name = Some(name);
        self.clients.insert(i, c);
        proof {
            assert forall|j: int|
                0 <= j < before.len() && j != i implies self.clients@[j] == before[j] by {
                if j < i {
                } else {
                }
            }
        }
    }

    pub(crate) fn remove_client_at(&mut self, i: usize)
        requires
            i < old(self).clients().len(),
        ensures
            final(self).clients() == old(self).clients().remove(i as int),
            final(self).client() == old(self).client(),
            final(self).config() == old(self).config(),
            final(self).same_blocked(old(self)),
    {
        self.clients.remove(i);
    }

    pub(crate) fn config_entries(&self) -> (r: &Vec<(String, String)>)
        ensures
            r@ == self.config(),
    {
        &self.config
    }
}

/// The value of the first configuration entry named `name`.
pub open spec fn config_lookup(config: Seq<(String, String)>, name: Seq<char>) -> Option<Seq<char>>
    decreases config.len(),
{
    if config.len() == 0 {
        None
    } else if config[0].0@ == name {
        Some(config[0].1@)
    } else {
        config_lookup(config.drop_first(), name)
    }
}

/// The index of the first client with id `id`.
pub open spec fn client_index(clients: Seq<ClientRecord>, id: u64) -> Option<int>
    decreases clients.len(),
{
    if clients.len() == 0 {
        None
    } else if clients[0].id == id {
        Some(0)
    } else {
        match client_index(clients.drop_first(), id) {
            Some(i) => Some(i + 1),
            None => None,
        }
    }
}

proof fn lemma_lookup_first(config: Seq<(String, String)>, i: int, name: Seq<char>)
    requires
        0 <= i < config.len(),
        config[i].0@ == name,
        forall|j: int| 0 <= j < i ==> config[j].0@ != name,
    ensures
        config_lookup(config, name) == Some(config[i].1@),
    decreases i,
{
    if i > 0 {
        lemma_lookup_first(config.drop_first(), i - 1, name);
    }
}

pub(crate) proof fn lemma_client_index_first(clients: Seq<ClientRecord>, i: int, id: u64)
    requires
        0 <= i < clients.len(),
        clients[i].id == id,
        forall|j: int| 0 <= j < i ==> clients[j].id != id,
    ensures
        client_index(clients, id) == Some(i),
    decreases i,
{
    if i > 0 {
        lemma_client_index_first(clients.drop_first(), i - 1, id);
    }
}

proof fn lemma_client_index_none(clients: Seq<ClientRecord>, id: u64)
    requires
        forall|j: int| 0 <= j < clients.len() ==> clients[j].id != id,
    ensures
        client_index(clients, id) == None::<int>,
    decreases clients.len(),
{
    if clients.len() > 0 {
        lemma_client_index_none(clients.drop_first(), id);
    }
}

} // verus!
