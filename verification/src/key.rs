use vstd::prelude::*;

verus! {

/// The abstract value of a [`Key`]: what the contracts of this crate speak of.
pub struct KeyView {
    pub key: Seq<char>,
    pub guid: Seq<char>,
    pub incarnation_id: Option<u32>,
}

impl KeyView {
    /// The value of a record that was never set: empty fields, no incarnation.
    pub open spec fn empty() -> KeyView {
        KeyView { key: Seq::empty(), guid: Seq::empty(), incarnation_id: None }
    }
}

/// One key record: raw key material (opaque here), the guid of this key
/// version, and a generation number that is absent until first assigned.
#[derive(Debug)]
pub struct Key {
    pub key: String,
    pub guid: String,
    pub incarnation_id: Option<u32>,
}

impl View for Key {
    type V = KeyView;

    open spec fn view(&self) -> KeyView {
        KeyView { key: self.key@, guid: self.guid@, incarnation_id: self.incarnation_id }
    }
}

impl Key {
    /// The record meaning "no key has ever been set".
    pub fn empty() -> (r: Key)
        ensures
            r@ == KeyView::empty(),
    {
        Key { key: String::new(), guid: String::new(), incarnation_id: None }
    }

    /// The raw key material of this record, and nothing else.
    pub fn into_value(self) -> (r: String)
        ensures
            r@ == self@.key,
    {
        self.key
    }

    /// The guid of this record, and nothing else.
    pub fn into_guid(self) -> (r: String)
        ensures
            r@ == self@.guid,
    {
        self.guid
    }

    /// The incarnation number of this record, and nothing else.
    pub fn into_incarnation(self) -> (r: Option<u32>)
        ensures
            r == self@.incarnation_id,
    {
        self.incarnation_id
    }
}

impl Clone for Key {
    fn clone(&self) -> (r: Key)
        ensures
            r@ == self@,
    {
        Key { key: self.key.clone(), guid: self.guid.clone(), incarnation_id: self.incarnation_id }
    }
}

} // verus!
