use vstd::prelude::*;
use crate::valkey_string::ValkeyString;

verus! {

/// One element fed to a digest.
pub enum DigestElement {
    Bytes(Vec<u8>),
    Integer(i64),
    EndSequence,
}

/// The digest of one key that the host computes (`DEBUG DIGEST`): the
/// module feeds it the key's value, element by element.
pub struct Digest {
    key_name: ValkeyString,
    db_id: i32,
    elements: Vec<DigestElement>,
}

impl Digest {
    pub closed spec fn key(&self) -> Seq<u8> {
        self.key_name@
    }

    pub closed spec fn db(&self) -> i32 {
        self.db_id
    }

    /// What was fed so far, in order.
    pub closed spec fn elements(&self) -> Seq<DigestElement> {
        self.elements@
    }

    /// A digest of key `key_name` in database `db_id`, fed nothing yet.
    pub fn new(key_name: ValkeyString, db_id: i32) -> (r: Digest)
        ensures
            r.key() == key_name@,
            r.db() == db_id,
            r.elements().len() == 0,
    {
        Digest { key_name, db_id, elements: Vec::new() }
    }

    pub fn get_key_name(&self) -> (r: ValkeyString)
        ensures
            r@ == self.key(),
    {
        self.key_name.safe_clone()
    }

    pub fn get_db_id(&self) -> (r: i32)
        ensures
            r == self.db(),
    {
        self.db_id
    }

    /// How many elements were fed so far.
    pub fn len(&self) -> (r: usize)
        ensures
            r == self.elements().len(),
    {
        self.elements.len()
    }

    /// What was fed so far, in order.
    pub fn get_elements(&self) -> (r: &Vec<DigestElement>)
        ensures
            r@ == self.elements(),
    {
        &self.elements
    }

    /// Feeds a string element.
    pub fn add_string_buffer(&mut self, ele: &[u8])
        ensures
            final(self).elements().drop_last() == old(self).elements(),
            final(self).elements().len() == old(self).elements().len() + 1,
            final(self).elements().last() matches DigestElement::Bytes(b) && b@ == ele@,
            final(self).key() == old(self).key(),
            final(self).db() == old(self).db(),
    {
        self.elements.push(DigestElement::Bytes(vstd::slice::slice_to_vec(ele)));
        assert(self.elements@.drop_last() =~= old(self).elements@);
    }

    /// Feeds an integer element.
    pub fn add_long_long(&mut self, ll: i64)
        ensures
            final(self).elements() == old(self).elements().push(DigestElement::Integer(ll)),
            final(self).key() == old(self).key(),
            final(self).db() == old(self).db(),
    {
        self.elements.push(DigestElement::Integer(ll));
    }

    /// Closes the current sequence of elements.
    pub fn end_sequence(&mut self)
        ensures
            final(self).elements() == old(self).elements().push(DigestElement::EndSequence),
            final(self).key() == old(self).key(),
            final(self).db() == old(self).db(),
    {
        self.elements.push(DigestElement::EndSequence);
    }
}

} // verus!
