use vstd::prelude::*;
use vstd::string::StringSliceAdditionalSpecFns;
use vstd::utf8::valid_utf8;
use crate::error::ValkeyError;

verus! {

/// A binary-safe string as the host hands it out: any sequence of bytes.
#[derive(Debug, Clone, PartialEq, Eq, Hash, PartialOrd, Ord)]
pub struct ValkeyString {
    bytes: Vec<u8>,
}

impl View for ValkeyString {
    type V = Seq<u8>;

    closed spec fn view(&self) -> Seq<u8> {
        self.bytes@
    }
}

/// Relies on std::str::from_utf8: it accepts exactly the valid UTF-8 byte
/// sequences and then returns a string slice over those same bytes.
#[verifier::external_body]
fn utf8_str(b: &[u8]) -> (r: Option<&str>)
    ensures
        r.is_some() <==> valid_utf8(b@),
        r matches Some(s) ==> s.spec_bytes() == b@,
{
    std::str::from_utf8(b).ok()
}

impl ValkeyString {
    /// A string holding the UTF-8 encoding of `s`.
    pub fn create(s: &str) -> (r: ValkeyString)
        ensures
            r@ == s.spec_bytes(),
    {
        ValkeyString { bytes: vstd::slice::slice_to_vec(s.as_bytes()) }
    }

    /// A string holding exactly the given bytes.
    pub fn from_bytes(bytes: Vec<u8>) -> (r: ValkeyString)
        ensures
            r@ == bytes@,
    {
        ValkeyString { bytes }
    }

    pub fn as_slice(&self) -> (r: &[u8])
        ensures
            r@ == self@,
    {
        self.bytes.as_slice()
    }

    pub fn len(&self) -> (r: usize)
        ensures
            r == self@.len(),
    {
        self.bytes.len()
    }

    /// A copy that owns its own buffer.
    pub fn safe_clone(&self) -> (r: ValkeyString)
        ensures
            r@ == self@,
    {
        ValkeyString { bytes: self.bytes.clone() }
    }

    /// The content as text, or an error when the bytes are not valid UTF-8.
    pub fn try_as_str(&self) -> (r: Result<&str, ValkeyError>)
        ensures
            r.is_ok() <==> valid_utf8(self@),
            r matches Ok(s) ==> s.spec_bytes() == self@,
    {
        match utf8_str(self.bytes.as_slice()) {
            Some(s) => Ok(s),
            None => Err(ValkeyError::Str("Couldn't parse as UTF-8 string")),
        }
    }

    /// Whether the content equals the given bytes.
    pub fn eq_bytes(&self, other: &[u8]) -> (r: bool)
        ensures
            r == (self@ == other@),
    {
        let n = self.bytes.len();
        if n != other.len() {
            return false;
        }
        let mut i: usize = 0;
        while i < n
            invariant
                n == self.bytes@.len(),
                n == other@.len(),
                0 <= i <= n,
                forall|j: int| 0 <= j < i ==> self.bytes@[j] == other@[j],
            decreases n - i,
        {
            if self.bytes[i] != other[i] {
                return false;
            }
            i = i + 1;
        }
        assert(self.bytes@ =~= other@);
        true
    }
}

} // verus!
