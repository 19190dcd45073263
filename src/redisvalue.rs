use vstd::prelude::*;
use crate::valkey_string::ValkeyString;

verus! {

/// A value that can be a key of a map reply or an element of a set reply.
#[derive(Debug, PartialEq, Eq, Hash, Clone, PartialOrd, Ord)]
pub enum ValkeyValueKey {
    Integer(i64),
    String(String),
    BulkValkeyString(ValkeyString),
    BulkString(Vec<u8>),
    Bool(bool),
}

impl From<i64> for ValkeyValueKey {
    fn from(v: i64) -> (r: ValkeyValueKey)
        ensures
            r == ValkeyValueKey::Integer(v),
    {
        ValkeyValueKey::Integer(v)
    }
}

impl vstd::std_specs::convert::FromSpecImpl<i64> for ValkeyValueKey {
    open spec fn obeys_from_spec() -> bool {
        true
    }

    open spec fn from_spec(v: i64) -> ValkeyValueKey {
        ValkeyValueKey::Integer(v)
    }
}

impl From<bool> for ValkeyValueKey {
    fn from(v: bool) -> (r: ValkeyValueKey)
        ensures
            r == ValkeyValueKey::Bool(v),
    {
        ValkeyValueKey::Bool(v)
    }
}

impl vstd::std_specs::convert::FromSpecImpl<bool> for ValkeyValueKey {
    open spec fn obeys_from_spec() -> bool {
        true
    }

    open spec fn from_spec(v: bool) -> ValkeyValueKey {
        ValkeyValueKey::Bool(v)
    }
}

impl From<String> for ValkeyValueKey {
    fn from(v: String) -> (r: ValkeyValueKey)
        ensures
            r == ValkeyValueKey::String(v),
    {
        ValkeyValueKey::String(v)
    }
}

impl vstd::std_specs::convert::FromSpecImpl<String> for ValkeyValueKey {
    open spec fn obeys_from_spec() -> bool {
        true
    }

    open spec fn from_spec(v: String) -> ValkeyValueKey {
        ValkeyValueKey::String(v)
    }
}

impl From<Vec<u8>> for ValkeyValueKey {
    fn from(v: Vec<u8>) -> (r: ValkeyValueKey)
        ensures
            r == ValkeyValueKey::BulkString(v),
    {
        ValkeyValueKey::BulkString(v)
    }
}

impl vstd::std_specs::convert::FromSpecImpl<Vec<u8>> for ValkeyValueKey {
    open spec fn obeys_from_spec() -> bool {
        true
    }

    open spec fn from_spec(v: Vec<u8>) -> ValkeyValueKey {
        ValkeyValueKey::BulkString(v)
    }
}

impl From<ValkeyString> for ValkeyValueKey {
    fn from(v: ValkeyString) -> (r: ValkeyValueKey)
        ensures
            r == ValkeyValueKey::BulkValkeyString(v),
    {
        ValkeyValueKey::BulkValkeyString(v)
    }
}

impl vstd::std_specs::convert::FromSpecImpl<ValkeyString> for ValkeyValueKey {
    open spec fn obeys_from_spec() -> bool {
        true
    }

    open spec fn from_spec(v: ValkeyString) -> ValkeyValueKey {
        ValkeyValueKey::BulkValkeyString(v)
    }
}

} // verus!
