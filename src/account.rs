use vstd::prelude::*;

use crate::identity::Identity;

verus! {

/// What a transition sees of one supplied account: its address, whether it
/// signed the invocation, the program that owns its storage, and the bytes
/// stored there.
#[derive(Debug)]
pub struct AccountRef {
    pub key: Identity,
    pub is_signer: bool,
    pub owner: Identity,
    pub data: Vec<u8>,
}

impl AccountRef {
    pub fn new(key: Identity, is_signer: bool, owner: Identity, data: Vec<u8>) -> (r: Self)
        ensures
            r.key == key,
            r.is_signer == is_signer,
            r.owner == owner,
            r.data@ == data@,
    {
        AccountRef { key, is_signer, owner, data }
    }

    /// The account holds no stored bytes.
    pub fn data_is_empty(&self) -> (r: bool)
        ensures
            r == (self.data@.len() == 0),
    {
        self.data.len() == 0
    }
}

} // verus!
