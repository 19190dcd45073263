use vstd::prelude::*;
use crate::error::Status;
use crate::valkey_string::ValkeyString;

verus! {

/// The state the host lends to a module's defragmentation callback: the key
/// being processed, if known, the cursor saved for the next cycle, and
/// whether the host wants the callback to stop.
pub struct Defrag {
    key_name: Option<ValkeyString>,
    db_id: i32,
    cursor: Option<u64>,
    stop: bool,
}

impl Defrag {
    pub closed spec fn key(&self) -> Option<Seq<u8>> {
        match self.key_name {
            Some(k) => Some(k@),
            None => None,
        }
    }

    pub closed spec fn db(&self) -> i32 {
        self.db_id
    }

    pub closed spec fn cursor(&self) -> Option<u64> {
        self.cursor
    }

    pub closed spec fn stop_requested(&self) -> bool {
        self.stop
    }

    /// A defragmentation context for key `key_name` (when the host knows it)
    /// in database `db_id` (-1 when unknown), with the cursor saved by the
    /// previous cycle, if any.
    pub fn new(key_name: Option<ValkeyString>, db_id: i32, cursor: Option<u64>, stop: bool) -> (r: Defrag)
        ensures
            r.key() == (match key_name {
                Some(k) => Some(k@),
                None => None::<Seq<u8>>,
            }),
            r.db() == db_id,
            r.cursor() == cursor,
            r.stop_requested() == stop,
    {
        Defrag { key_name, db_id, cursor, stop }
    }

    /// Saves where the callback stopped, for the next cycle to resume from.
    pub fn set_cursor(&mut self, cursor: u64) -> (r: Status)
        ensures
            r == Status::Success,
            final(self).cursor() == Some(cursor),
            final(self).key() == old(self).key(),
            final(self).db() == old(self).db(),
            final(self).stop_requested() == old(self).stop_requested(),
    {
        self.cursor = Some(cursor);
        Status::Success
    }

    /// The cursor saved by `set_cursor`, if any.
    pub fn get_cursor(&self) -> (r: Option<u64>)
        ensures
            r == self.cursor(),
    {
        self.cursor
    }

    /// Whether the host has been defragmenting too long and the callback
    /// should stop.
    pub fn should_stop_defrag(&self) -> (r: bool)
        ensures
            r == self.stop_requested(),
    {
        self.stop
    }

    /// The name of the key being processed, when the host knows it.
    pub fn get_key_name_from_defrag_context(&self) -> (r: Option<&ValkeyString>)
        ensures
            match r {
                Some(k) => self.key() == Some(k@),
                None => self.key() is None,
            },
    {
        match &self.key_name {
            Some(k) => Some(k),
            None => None,
        }
    }

    /// The database of the key being processed, -1 when unknown.
    pub fn get_db_id_from_defrag_context(&self) -> (r: i32)
        ensures
            r == self.db(),
    {
        self.db_id
    }
}

} // verus!
