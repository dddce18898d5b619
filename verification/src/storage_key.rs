//! Keys under which the registry's collections are kept in contract storage.

use vstd::prelude::*;
use vstd::string::*;
use vstd::utf8::encode_utf8;

use crate::types::AppchainId;

verus! {

/// Storage keys for collections of sub-struct in main contract
pub enum StorageKey {
    AppchainIds,
    AppchainBasedatas,
    ContractCode,
    UpvoteDeposits,
    DownvoteDeposits,
    AppchainMetadata(AppchainId),
    AppchainBasedata(AppchainId),
    AppchainAnchorCode(AppchainId),
    AppchainVotingScore(AppchainId),
}

/// The text of a storage key.
pub open spec fn storage_key_text(key: &StorageKey) -> Seq<char> {
    match key {
        StorageKey::AppchainIds => "i"@,
        StorageKey::AppchainBasedatas => "a"@,
        StorageKey::ContractCode => "contract_code"@,
        StorageKey::UpvoteDeposits => "u"@,
        StorageKey::DownvoteDeposits => "d"@,
        StorageKey::AppchainMetadata(id) => id@ + "md"@,
        StorageKey::AppchainBasedata(id) => id@ + "bd"@,
        StorageKey::AppchainAnchorCode(id) => id@ + "ac"@,
        StorageKey::AppchainVotingScore(id) => id@ + "vs"@,
    }
}

/// The kind of a storage key, by its variant.
pub open spec fn storage_key_kind(key: &StorageKey) -> int {
    match key {
        StorageKey::AppchainIds => 0,
        StorageKey::AppchainBasedatas => 1,
        StorageKey::ContractCode => 2,
        StorageKey::UpvoteDeposits => 3,
        StorageKey::DownvoteDeposits => 4,
        StorageKey::AppchainMetadata(_) => 5,
        StorageKey::AppchainBasedata(_) => 6,
        StorageKey::AppchainAnchorCode(_) => 7,
        StorageKey::AppchainVotingScore(_) => 8,
    }
}

/// The appchain id that a storage key is for; empty for the keys of the registry.
pub open spec fn storage_key_id(key: &StorageKey) -> Seq<char> {
    match key {
        StorageKey::AppchainMetadata(id) => id@,
        StorageKey::AppchainBasedata(id) => id@,
        StorageKey::AppchainAnchorCode(id) => id@,
        StorageKey::AppchainVotingScore(id) => id@,
        _ => Seq::empty(),
    }
}

/// Two storage keys name the same entry: the same kind for the same appchain id.
pub open spec fn same_storage_key(k1: &StorageKey, k2: &StorageKey) -> bool {
    storage_key_kind(k1) == storage_key_kind(k2) && storage_key_id(k1) == storage_key_id(k2)
}

/// The shape of the text of each key: the single letter of a collection of the
/// registry, the code key's last letters, or the appchain id followed by the two
/// letters of the kind.
pub proof fn lemma_storage_key_text_shape(key: &StorageKey)
    ensures
        ({
            let t = storage_key_text(key);
            let id = storage_key_id(key);
            &&& storage_key_kind(key) == 0 ==> t.len() == 1 && t[0] == 'i'
            &&& storage_key_kind(key) == 1 ==> t.len() == 1 && t[0] == 'a'
            &&& storage_key_kind(key) == 2 ==> t.len() == 13 && t[11] == 'd'
            &&& storage_key_kind(key) == 3 ==> t.len() == 1 && t[0] == 'u'
            &&& storage_key_kind(key) == 4 ==> t.len() == 1 && t[0] == 'd'
            &&& storage_key_kind(key) >= 5 ==> t.len() == id.len() + 2 && t.subrange(0, id.len() as int) == id
            &&& storage_key_kind(key) == 5 ==> t[t.len() - 2] == 'm'
            &&& storage_key_kind(key) == 6 ==> t[t.len() - 2] == 'b'
            &&& storage_key_kind(key) == 7 ==> t[t.len() - 2] == 'a'
            &&& storage_key_kind(key) == 8 ==> t[t.len() - 2] == 'v'
        }),
{
    reveal_strlit("i");
    reveal_strlit("a");
    reveal_strlit("contract_code");
    reveal_strlit("u");
    reveal_strlit("d");
    reveal_strlit("md");
    reveal_strlit("bd");
    reveal_strlit("ac");
    reveal_strlit("vs");
    let t = storage_key_text(key);
    let id = storage_key_id(key);
    if storage_key_kind(key) >= 5 {
        assert(t.subrange(0, id.len() as int) =~= id);
        assert(t[t.len() - 2] == t[id.len() as int]);
    }
}

/// Appends `suffix` to a copy of the appchain id.
fn suffixed(id: &AppchainId, suffix: &str) -> (r: String)
    ensures
        r@ == id@ + suffix@,
{
    id.clone().concat(suffix)
}

impl StorageKey {
    /// The text of the key.
    pub fn to_string(&self) -> (r: String)
        ensures
            r@ == storage_key_text(self),
    {
        match self {
            StorageKey::AppchainIds => String::from_str("i"),
            StorageKey::AppchainBasedatas => String::from_str("a"),
            StorageKey::ContractCode => String::from_str("contract_code"),
            StorageKey::UpvoteDeposits => String::from_str("u"),
            StorageKey::DownvoteDeposits => String::from_str("d"),
            StorageKey::AppchainMetadata(appchain_id) => suffixed(appchain_id, "md"),
            StorageKey::AppchainBasedata(appchain_id) => suffixed(appchain_id, "bd"),
            StorageKey::AppchainAnchorCode(appchain_id) => suffixed(appchain_id, "ac"),
            StorageKey::AppchainVotingScore(appchain_id) => suffixed(appchain_id, "vs"),
        }
    }

    /// The UTF-8 bytes of the key's text.
    pub fn into_bytes(&self) -> (r: Vec<u8>)
        ensures
            r@ == encode_utf8(storage_key_text(self)),
    {
        let text = self.to_string();
        text.as_str().as_bytes_vec()
    }
}

/// The storage key of the entry for `index` in a collection under `prefix`:
/// the bytes of the prefix followed by the serialized index.
pub fn get_storage_key_in_lookup_array(prefix: &StorageKey, serialized_index: &Vec<u8>) -> (r:
    Vec<u8>)
    ensures
        r@ == encode_utf8(storage_key_text(prefix)) + serialized_index@,
{
    let mut key = prefix.into_bytes();
    let mut i: usize = 0;
    let ghost start = key@;
    while i < serialized_index.len()
        invariant
            i <= serialized_index.len(),
            key@ == start + serialized_index@.subrange(0, i as int),
        decreases serialized_index.len() - i,
    {
        key.push(serialized_index[i]);
        i = i + 1;
        assert(serialized_index@.subrange(0, i as int) == serialized_index@.subrange(0, i - 1)
            .push(serialized_index@[i - 1]));
    }
    assert(serialized_index@.subrange(0, i as int) == serialized_index@);
    key
}

} // verus!
