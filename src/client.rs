use vstd::prelude::*;
use crate::context::{client_index, config_lookup, ClientRecord, Context};
use crate::error::{Status, ValkeyError, ValkeyResult};
use crate::valkey_string::ValkeyString;
use vstd::utf8::encode_utf8;

verus! {

/// What the host reports about a client.
pub struct RedisModuleClientInfo {
    pub version: u64,
    pub flags: u64,
    pub id: u64,
    pub addr: String,
    pub port: u16,
    pub db: u16,
}

impl RedisModuleClientInfo {
    /// An empty record of the current layout version.
    pub fn new() -> (r: RedisModuleClientInfo)
        ensures
            r.version == 1,
            r.flags == 0,
            r.id == 0,
            r.addr@.len() == 0,
            r.port == 0,
            r.db == 0,
    {
        RedisModuleClientInfo { version: 1, flags: 0, id: 0, addr: String::new(), port: 0, db: 0 }
    }
}

/// The record of client `id` in the table, if it is there.
pub open spec fn client_of(clients: Seq<ClientRecord>, id: u64) -> Option<ClientRecord> {
    match client_index(clients, id) {
        Some(i) => Some(clients[i as int]),
        None => None,
    }
}

pub(crate) proof fn lemma_client_index_in_range(clients: Seq<ClientRecord>, id: u64)
    ensures
        client_index(clients, id) matches Some(i) ==> 0 <= i < clients.len() && clients[i].id == id
            && forall|j: int| 0 <= j < i ==> clients[j].id != id,
    decreases clients.len(),
{
    if clients.len() > 0 && clients[0].id != id {
        let rest = clients.drop_first();
        lemma_client_index_in_range(rest, id);
        if let Some(i) = client_index(clients, id) {
            assert forall|j: int| 0 <= j < i implies clients[j].id != id by {
                if j > 0 {
                    assert(clients[j] == rest[j - 1]);
                }
            }
        }
    }
}

/// Changing the record at the index of client `id`, but not its id, keeps
/// that index.
pub(crate) proof fn lemma_client_index_unchanged(a: Seq<ClientRecord>, b: Seq<ClientRecord>, id: u64, i: int)
    requires
        client_index(a, id) == Some(i),
        0 <= i < a.len(),
        a.len() == b.len(),
        b[i].id == a[i].id,
        forall|j: int| 0 <= j < a.len() && j != i ==> b[j] == a[j],
    ensures
        client_index(b, id) == Some(i),
{
    lemma_client_index_in_range(a, id);
    crate::context::lemma_client_index_first(b, i, id);
}

impl Context {
    /// The name of client `client_id`; an error when there is no such client
    /// or it has no name.
    pub fn get_client_name_by_id(&self, client_id: u64) -> (r: ValkeyResult<ValkeyString>)
        ensures
            match client_of(self.clients(), client_id) {
                Some(c) if c.name is Some => r matches Ok(s) && s@ == c.name.unwrap()@,
                _ => r == Err::<ValkeyString, ValkeyError>(ValkeyError::Str("Client/Client name is null")),
            },
    {
        proof {
            lemma_client_index_in_range(self.clients(), client_id);
        }
        match self.find_client(client_id) {
            Some(i) => match &self.client_at(i).name {
                Some(n) => Ok(n.safe_clone()),
                None => Err(ValkeyError::Str("Client/Client name is null")),
            },
            None => Err(ValkeyError::Str("Client/Client name is null")),
        }
    }

    /// The name of the calling client.
    pub fn get_client_name(&self) -> (r: ValkeyResult<ValkeyString>)
        ensures
            match client_of(self.clients(), self.client()) {
                Some(c) if c.name is Some => r matches Ok(s) && s@ == c.name.unwrap()@,
                _ => r == Err::<ValkeyString, ValkeyError>(ValkeyError::Str("Client/Client name is null")),
            },
    {
        self.get_client_name_by_id(self.get_client_id())
    }

    /// Names client `client_id`; fails when there is no such client.
    pub fn set_client_name_by_id(&mut self, client_id: u64, client_name: &ValkeyString) -> (r: Status)
        ensures
            final(self).same_blocked(old(self)),
            final(self).client() == old(self).client(),
            final(self).config() == old(self).config(),
            final(self).clients().len() == old(self).clients().len(),
            match client_index(old(self).clients(), client_id) {
                Some(i) => r == Status::Success && final(self).clients()[i as int].name.is_some()
                    && final(self).clients()[i as int].name.unwrap()@ == client_name@ && final(self).clients()[i as int].id == client_id
                    && forall|j: int|
                    0 <= j < old(self).clients().len() && j != i ==> final(self).clients()[j]
                        == old(self).clients()[j],
                None => r == Status::Failure && final(self).clients() == old(self).clients(),
            },
    {
        proof {
            lemma_client_index_in_range(self.clients(), client_id);
        }
        match self.find_client(client_id) {
            Some(i) => {
                self.set_client_name_at(i, client_name.safe_clone());
                Status::Success
            },
            None => Status::Failure,
        }
    }

    /// Names the calling client.
    pub fn set_client_name(&mut self, client_name: &ValkeyString) -> (r: Status)
        ensures
            final(self).same_blocked(old(self)),
            final(self).client() == old(self).client(),
            final(self).config() == old(self).config(),
            final(self).clients().len() == old(self).clients().len(),
            match client_index(old(self).clients(), old(self).client()) {
                Some(i) => r == Status::Success && final(self).clients()[i as int].name.is_some()
                    && final(self).clients()[i as int].name.unwrap()@ == client_name@ && forall|j: int|
                    0 <= j < old(self).clients().len() && j != i ==> final(self).clients()[j]
                        == old(self).clients()[j],
                None => r == Status::Failure && final(self).clients() == old(self).clients(),
            },
    {
        let id = self.get_client_id();
        self.set_client_name_by_id(id, client_name)
    }

    /// The ACL user of client `client_id`; an error when there is no such
    /// client or it has no user.
    pub fn get_client_username_by_id(&self, client_id: u64) -> (r: ValkeyResult<ValkeyString>)
        ensures
            match client_of(self.clients(), client_id) {
                Some(c) if c.username is Some => r matches Ok(s) && s@ == c.username.unwrap()@,
                _ => r == Err::<ValkeyString, ValkeyError>(ValkeyError::Str("Client/Username is null")),
            },
    {
        proof {
            lemma_client_index_in_range(self.clients(), client_id);
        }
        match self.find_client(client_id) {
            Some(i) => match &self.client_at(i).username {
                Some(n) => Ok(n.safe_clone()),
                None => Err(ValkeyError::Str("Client/Username is null")),
            },
            None => Err(ValkeyError::Str("Client/Username is null")),
        }
    }

    /// The ACL user of the calling client.
    pub fn get_client_username(&self) -> (r: ValkeyResult<ValkeyString>)
        ensures
            match client_of(self.clients(), self.client()) {
                Some(c) if c.username is Some => r matches Ok(s) && s@ == c.username.unwrap()@,
                _ => r == Err::<ValkeyString, ValkeyError>(ValkeyError::Str("Client/Username is null")),
            },
    {
        self.get_client_username_by_id(self.get_client_id())
    }

    /// The TLS certificate of the calling client; an error when it has none.
    pub fn get_client_cert(&self) -> (r: ValkeyResult<ValkeyString>)
        ensures
            match client_of(self.clients(), self.client()) {
                Some(c) if c.cert is Some => r matches Ok(s) && s@ == c.cert.unwrap()@,
                _ => r == Err::<ValkeyString, ValkeyError>(ValkeyError::Str("Client/Cert is null")),
            },
    {
        let client_id = self.get_client_id();
        proof {
            lemma_client_index_in_range(self.clients(), client_id);
        }
        match self.find_client(client_id) {
            Some(i) => match &self.client_at(i).cert {
                Some(n) => Ok(n.safe_clone()),
                None => Err(ValkeyError::Str("Client/Cert is null")),
            },
            None => Err(ValkeyError::Str("Client/Cert is null")),
        }
    }

    /// What the host knows of client `client_id`; an error when there is no
    /// such client.
    pub fn get_client_info_by_id(&self, client_id: u64) -> (r: ValkeyResult<RedisModuleClientInfo>)
        ensures
            match client_of(self.clients(), client_id) {
                Some(c) => r matches Ok(info) && info.version == 1 && info.flags == c.flags && info.id
                    == c.id && info.addr@ == c.addr@ && info.port == c.port && info.db == c.db,
                None => r == Err::<RedisModuleClientInfo, ValkeyError>(ValkeyError::Str("Client/Info is null")),
            },
    {
        proof {
            lemma_client_index_in_range(self.clients(), client_id);
        }
        match self.find_client(client_id) {
            Some(i) => {
                let c = self.client_at(i);
                Ok(
                    RedisModuleClientInfo {
                        version: 1,
                        flags: c.flags,
                        id: c.id,
                        addr: c.addr.clone(),
                        port: c.port,
                        db: c.db,
                    },
                )
            },
            None => Err(ValkeyError::Str("Client/Info is null")),
        }
    }

    /// What the host knows of the calling client.
    pub fn get_client_info(&self) -> (r: ValkeyResult<RedisModuleClientInfo>)
        ensures
            match client_of(self.clients(), self.client()) {
                Some(c) => r matches Ok(info) && info.version == 1 && info.flags == c.flags && info.id
                    == c.id && info.addr@ == c.addr@ && info.port == c.port && info.db == c.db,
                None => r == Err::<RedisModuleClientInfo, ValkeyError>(ValkeyError::Str("Client/Info is null")),
            },
    {
        self.get_client_info_by_id(self.get_client_id())
    }

    /// The address of client `client_id`.
    pub fn get_client_ip_by_id(&self, client_id: u64) -> (r: ValkeyResult<String>)
        ensures
            match client_of(self.clients(), client_id) {
                Some(c) => r matches Ok(a) && a@ == c.addr@,
                None => r == Err::<String, ValkeyError>(ValkeyError::Str("Client/Info is null")),
            },
    {
        let info = self.get_client_info_by_id(client_id)?;
        Ok(info.addr)
    }

    /// The address of the calling client.
    pub fn get_client_ip(&self) -> (r: ValkeyResult<String>)
        ensures
            match client_of(self.clients(), self.client()) {
                Some(c) => r matches Ok(a) && a@ == c.addr@,
                None => r == Err::<String, ValkeyError>(ValkeyError::Str("Client/Info is null")),
            },
    {
        self.get_client_ip_by_id(self.get_client_id())
    }

    /// Logs client `client_id` out and closes its connection: it leaves the
    /// client table. Fails when there is no such client.
    pub fn deauthenticate_and_close_client_by_id(&mut self, client_id: u64) -> (r: Status)
        ensures
            final(self).same_blocked(old(self)),
            final(self).client() == old(self).client(),
            final(self).config() == old(self).config(),
            match client_index(old(self).clients(), client_id) {
                Some(i) => r == Status::Success && final(self).clients() == old(self).clients().remove(
                    i as int,
                ),
                None => r == Status::Failure && final(self).clients() == old(self).clients(),
            },
    {
        proof {
            lemma_client_index_in_range(self.clients(), client_id);
        }
        match self.find_client(client_id) {
            Some(i) => {
                self.remove_client_at(i);
                Status::Success
            },
            None => Status::Failure,
        }
    }

    /// Logs the calling client out and closes its connection.
    pub fn deauthenticate_and_close_client(&mut self) -> (r: Status)
        ensures
            final(self).same_blocked(old(self)),
            final(self).client() == old(self).client(),
            final(self).config() == old(self).config(),
            match client_index(old(self).clients(), old(self).client()) {
                Some(i) => r == Status::Success && final(self).clients() == old(self).clients().remove(
                    i as int,
                ),
                None => r == Status::Failure && final(self).clients() == old(self).clients(),
            },
    {
        let id = self.get_client_id();
        self.deauthenticate_and_close_client_by_id(id)
    }

    /// The value of the host configuration entry `config`; an error when
    /// the host has no such entry.
    pub fn config_get(&self, config: String) -> (r: ValkeyResult<ValkeyString>)
        ensures
            match config_lookup(self.config(), config@) {
                Some(v) => r matches Ok(s) && s@ == encode_utf8(v),
                None => r == Err::<ValkeyString, ValkeyError>(ValkeyError::Str("Unexpected CONFIG GET response")),
            },
    {
        let entries = self.config_entries();
        let mut i: usize = 0;
        assert(entries@.skip(0) =~= entries@);
        while i < entries.len()
            invariant
                0 <= i <= entries@.len(),
                entries@ == self.config(),
                config_lookup(self.config(), config@) == config_lookup(entries@.skip(i as int), config@),
            decreases entries@.len() - i,
        {
            assert(entries@.skip(i as int).drop_first() =~= entries@.skip(i + 1));
            if entries[i].0 == config {
                return Ok(ValkeyString::create(entries[i].1.as_str()));
            }
            i = i + 1;
        }
        Err(ValkeyError::Str("Unexpected CONFIG GET response"))
    }
}

} // verus!
