//! The metadata that an appchain is registered with.

use vstd::prelude::*;
use vstd::string::*;

use crate::kv::{kv_keys_unique, kv_map, lemma_kv_dom, lemma_kv_index, lemma_kv_push, lemma_kv_update};

verus! {

/// The version of the fungible token metadata standard that the registry accepts.
pub const FT_METADATA_SPEC: &'static str = "ft-1.0.0";

/// The text of an optional string.
pub open spec fn opt_text(o: Option<String>) -> Option<Seq<char>> {
    match o {
        Some(s) => Some(s@),
        None => None,
    }
}

/// The bytes of an optional byte vector.
pub open spec fn opt_bytes(o: Option<Vec<u8>>) -> Option<Seq<u8>> {
    match o {
        Some(v) => Some(v@),
        None => None,
    }
}

/// Copies an optional string.
pub fn clone_opt_string(o: &Option<String>) -> (r: Option<String>)
    ensures
        r == *o,
{
    match o {
        Some(s) => Some(s.clone()),
        None => None,
    }
}

/// Metadata of the fungible token that wraps the appchain's native token (NEP-148).
pub struct FungibleTokenMetadata {
    pub spec: String,
    pub name: String,
    pub symbol: String,
    pub icon: Option<String>,
    pub reference: Option<String>,
    pub reference_hash: Option<Vec<u8>>,
    pub decimals: u8,
}

/// The content of [`FungibleTokenMetadata`].
pub struct FungibleTokenMetadataView {
    pub spec: Seq<char>,
    pub name: Seq<char>,
    pub symbol: Seq<char>,
    pub icon: Option<Seq<char>>,
    pub reference: Option<Seq<char>>,
    pub reference_hash: Option<Seq<u8>>,
    pub decimals: u8,
}

impl View for FungibleTokenMetadata {
    type V = FungibleTokenMetadataView;

    open spec fn view(&self) -> FungibleTokenMetadataView {
        FungibleTokenMetadataView {
            spec: self.spec@,
            name: self.name@,
            symbol: self.symbol@,
            icon: opt_text(self.icon),
            reference: opt_text(self.reference),
            reference_hash: opt_bytes(self.reference_hash),
            decimals: self.decimals,
        }
    }
}

/// The checks of `FungibleTokenMetadata::assert_valid` in `near_contract_standards`:
/// the standard's version, a reference given exactly when its hash is, and a hash
/// of 32 bytes.
pub open spec fn ft_metadata_valid(m: FungibleTokenMetadataView) -> bool {
    &&& m.spec == FT_METADATA_SPEC@
    &&& m.reference.is_some() == m.reference_hash.is_some()
    &&& (m.reference_hash matches Some(h) ==> h.len() == 32)
}

impl FungibleTokenMetadata {
    /// Whether the metadata passes the checks of the standard.
    pub fn is_valid(&self) -> (r: bool)
        ensures
            r == ft_metadata_valid(self@),
    {
        let expected = String::from_str(FT_METADATA_SPEC);
        if self.spec != expected {
            return false;
        }
        if self.reference.is_some() != self.reference_hash.is_some() {
            return false;
        }
        match &self.reference_hash {
            Some(hash) => hash.len() == 32,
            None => true,
        }
    }

    /// A copy of the metadata.
    pub fn copy(&self) -> (r: Self)
        ensures
            r@ == self@,
    {
        let reference_hash = match &self.reference_hash {
            Some(hash) => {
                let h = hash.clone();
                assert(h@ =~= hash@);
                Some(h)
            },
            None => None,
        };
        FungibleTokenMetadata {
            spec: self.spec.clone(),
            name: self.name.clone(),
            symbol: self.symbol.clone(),
            icon: clone_opt_string(&self.icon),
            reference: clone_opt_string(&self.reference),
            reference_hash,
            decimals: self.decimals,
        }
    }
}

/// The pairs of a list of string pairs, by their text.
pub open spec fn text_pairs(s: Seq<(String, String)>) -> Seq<(Seq<char>, Seq<char>)> {
    s.map_values(|e: (String, String)| (e.0@, e.1@))
}

/// Free-form key-value metadata of an appchain; a key occurs once.
pub struct CustomMetadata {
    entries: Vec<(String, String)>,
}

impl CustomMetadata {
    #[verifier::type_invariant]
    spec fn keys_unique(self) -> bool {
        kv_keys_unique(text_pairs(self.entries@))
    }

    /// The entries, in the order in which their keys were first set.
    pub closed spec fn entry_seq(&self) -> Seq<(String, String)> {
        self.entries@
    }
}

impl View for CustomMetadata {
    type V = Map<Seq<char>, Seq<char>>;

    closed spec fn view(&self) -> Map<Seq<char>, Seq<char>> {
        kv_map(text_pairs(self.entries@))
    }
}

impl CustomMetadata {
    /// Empty metadata.
    pub fn new() -> (r: Self)
        ensures
            r@ == Map::<Seq<char>, Seq<char>>::empty(),
            r.entry_seq().len() == 0,
    {
        let r = CustomMetadata { entries: Vec::new() };
        assert(text_pairs(r.entries@) =~= Seq::empty());
        r
    }

    /// The metadata given by a list of pairs; for a key given twice the later value
    /// stands.
    pub fn from_pairs(pairs: Vec<(String, String)>) -> (r: Self)
        ensures
            r@ == kv_map(text_pairs(pairs@)),
    {
        let mut r = CustomMetadata::new();
        let mut i: usize = 0;
        while i < pairs.len()
            invariant
                i <= pairs.len(),
                r@ == kv_map(text_pairs(pairs@.subrange(0, i as int))),
            decreases pairs.len() - i,
        {
            let (k, v) = (pairs[i].0.clone(), pairs[i].1.clone());
            r.insert(k, v);
            proof {
                let s = pairs@.subrange(0, i as int);
                assert(pairs@.subrange(0, i + 1) =~= s.push(pairs@[i as int]));
                assert(text_pairs(s.push(pairs@[i as int])) =~= text_pairs(s).push(
                    (pairs@[i as int].0@, pairs@[i as int].1@),
                ));
                lemma_kv_push(text_pairs(s), (pairs@[i as int].0@, pairs@[i as int].1@));
            }
            i = i + 1;
        }
        assert(pairs@.subrange(0, i as int) =~= pairs@);
        r
    }

    /// The entries, each key once.
    pub fn pairs(&self) -> (r: &Vec<(String, String)>)
        ensures
            r@ == self.entry_seq(),
            kv_map(text_pairs(r@)) == self@,
            kv_keys_unique(text_pairs(r@)),
    {
        proof {
            use_type_invariant(self);
        }
        &self.entries
    }

    /// Position of the entry for `key`.
    fn find(&self, key: &String) -> (r: Option<usize>)
        ensures
            match r {
                Some(i) => i < self.entries@.len() && self.entries@[i as int].0@ == key@,
                None => forall|j: int|
                    0 <= j < self.entries@.len() ==> self.entries@[j].0@ != key@,
            },
    {
        let mut i: usize = 0;
        while i < self.entries.len()
            invariant
                i <= self.entries@.len(),
                forall|j: int| 0 <= j < i ==> self.entries@[j].0@ != key@,
            decreases self.entries.len() - i,
        {
            if self.entries[i].0 == *key {
                return Some(i);
            }
            i = i + 1;
        }
        None
    }

    /// The value under `key`.
    pub fn get(&self, key: &String) -> (r: Option<String>)
        ensures
            opt_text(r) == (if self@.dom().contains(key@) {
                Some(self@[key@])
            } else {
                None
            }),
    {
        proof {
            use_type_invariant(self);
        }
        let ghost s = text_pairs(self.entries@);
        match self.find(key) {
            Some(i) => {
                proof {
                    lemma_kv_index(s, i as int);
                }
                Some(self.entries[i].1.clone())
            },
            None => {
                proof {
                    lemma_kv_dom(s, key@);
                    if self@.dom().contains(key@) {
                        let j = choose|j: int| 0 <= j < s.len() && #[trigger] s[j].0 == key@;
                        assert(self.entries@[j].0@ == key@);
                    }
                }
                None
            },
        }
    }

    /// The number of keys.
    pub fn len(&self) -> (r: usize)
        ensures
            r == self@.dom().len(),
    {
        proof {
            use_type_invariant(self);
            lemma_kv_len(text_pairs(self.entries@));
        }
        self.entries.len()
    }

    /// Sets `key` to `value`, replacing a value it had.
    pub fn insert(&mut self, key: String, value: String)
        ensures
            final(self)@ == old(self)@.insert(key@, value@),
    {
        proof {
            use_type_invariant(&*self);
        }
        let ghost s = text_pairs(self.entries@);
        match self.find(&key) {
            Some(i) => {
                proof {
                    lemma_kv_update(s, i as int, value@);
                }
                let mut entries: Vec<(String, String)> = Vec::new();
                std::mem::swap(&mut entries, &mut self.entries);
                entries.set(i, (key, value));
                proof {
                    assert(text_pairs(entries@) =~= s.update(i as int, (s[i as int].0, value@)));
                }
                self.entries = entries;
            },
            None => {
                proof {
                    assert(text_pairs(self.entries@.push((key, value))) =~= s.push((key@, value@)));
                    lemma_kv_push(s, (key@, value@));
                    assert forall|a: int, b: int|
                        0 <= a < b < s.len() + 1 implies #[trigger] s.push((key@, value@))[a].0
                        != #[trigger] s.push((key@, value@))[b].0 by {
                        if b == s.len() {
                            assert(self.entries@[a].0@ == s[a].0);
                        }
                    }
                }
                let mut entries: Vec<(String, String)> = Vec::new();
                std::mem::swap(&mut entries, &mut self.entries);
                entries.push((key, value));
                self.entries = entries;
            },
        }
    }

    /// Sets every key of `other` to its value there.
    pub fn merge(&mut self, other: &CustomMetadata)
        ensures
            final(self)@ == old(self)@.union_prefer_right(other@),
    {
        proof {
            use_type_invariant(other);
        }
        let ghost s = text_pairs(other.entries@);
        let ghost start = self@;
        let mut i: usize = 0;
        while i < other.entries.len()
            invariant
                i <= other.entries@.len(),
                s == text_pairs(other.entries@),
                self@ == start.union_prefer_right(kv_map(s.subrange(0, i as int))),
            decreases other.entries.len() - i,
        {
            let k = other.entries[i].0.clone();
            let v = other.entries[i].1.clone();
            self.insert(k, v);
            proof {
                assert(s.subrange(0, i + 1) =~= s.subrange(0, i as int).push(s[i as int]));
                lemma_kv_push(s.subrange(0, i as int), s[i as int]);
                assert(self@ =~= start.union_prefer_right(kv_map(s.subrange(0, i + 1))));
            }
            i = i + 1;
        }
        assert(s.subrange(0, i as int) =~= s);
    }
}

/// With unique keys, the map has as many keys as the list has pairs.
pub proof fn lemma_kv_len<K, V>(s: Seq<(K, V)>)
    requires
        kv_keys_unique(s),
    ensures
        kv_map(s).dom().len() == s.len(),
        kv_map(s).dom().finite(),
    decreases s.len(),
{
    if s.len() > 0 {
        let t = s.drop_last();
        assert(kv_keys_unique(t));
        lemma_kv_len(t);
        lemma_kv_dom(t, s.last().0);
        if kv_map(t).dom().contains(s.last().0) {
            let j = choose|j: int| 0 <= j < t.len() && #[trigger] t[j].0 == s.last().0;
            assert(s[j].0 == s[s.len() - 1].0);
        }
    }
}


/// Appchain metadata
pub struct AppchainMetadata {
    pub description: String,
    pub website_url: String,
    pub function_spec_url: String,
    pub github_address: String,
    pub github_release: String,
    pub commit_id: String,
    pub contact_email: String,
    pub premined_wrapped_appchain_token_beneficiary: Option<String>,
    pub premined_wrapped_appchain_token: u128,
    pub initial_supply_of_wrapped_appchain_token: u128,
    pub ido_amount_of_wrapped_appchain_token: u128,
    pub initial_era_reward: u128,
    pub fungible_token_metadata: FungibleTokenMetadata,
    pub custom_metadata: CustomMetadata,
}

/// The content of [`AppchainMetadata`].
pub struct AppchainMetadataView {
    pub description: Seq<char>,
    pub website_url: Seq<char>,
    pub function_spec_url: Seq<char>,
    pub github_address: Seq<char>,
    pub github_release: Seq<char>,
    pub commit_id: Seq<char>,
    pub contact_email: Seq<char>,
    pub premined_wrapped_appchain_token_beneficiary: Option<Seq<char>>,
    pub premined_wrapped_appchain_token: u128,
    pub initial_supply_of_wrapped_appchain_token: u128,
    pub ido_amount_of_wrapped_appchain_token: u128,
    pub initial_era_reward: u128,
    pub fungible_token_metadata: FungibleTokenMetadataView,
    pub custom_metadata: Map<Seq<char>, Seq<char>>,
}

impl View for AppchainMetadata {
    type V = AppchainMetadataView;

    open spec fn view(&self) -> AppchainMetadataView {
        AppchainMetadataView {
            description: self.description@,
            website_url: self.website_url@,
            function_spec_url: self.function_spec_url@,
            github_address: self.github_address@,
            github_release: self.github_release@,
            commit_id: self.commit_id@,
            contact_email: self.contact_email@,
            premined_wrapped_appchain_token_beneficiary: opt_text(
                self.premined_wrapped_appchain_token_beneficiary,
            ),
            premined_wrapped_appchain_token: self.premined_wrapped_appchain_token,
            initial_supply_of_wrapped_appchain_token: self.initial_supply_of_wrapped_appchain_token,
            ido_amount_of_wrapped_appchain_token: self.ido_amount_of_wrapped_appchain_token,
            initial_era_reward: self.initial_era_reward,
            fungible_token_metadata: self.fungible_token_metadata@,
            custom_metadata: self.custom_metadata@,
        }
    }
}

impl CustomMetadata {
    /// A copy of the metadata.
    pub fn copy(&self) -> (r: Self)
        ensures
            r@ == self@,
    {
        let mut r = CustomMetadata::new();
        r.merge(self);
        assert(r@ =~= self@);
        r
    }
}

impl AppchainMetadata {
    /// A copy of the metadata.
    pub fn copy(&self) -> (r: Self)
        ensures
            r@ == self@,
    {
        AppchainMetadata {
            description: self.description.clone(),
            website_url: self.website_url.clone(),
            function_spec_url: self.function_spec_url.clone(),
            github_address: self.github_address.clone(),
            github_release: self.github_release.clone(),
            commit_id: self.commit_id.clone(),
            contact_email: self.contact_email.clone(),
            premined_wrapped_appchain_token_beneficiary: clone_opt_string(
                &self.premined_wrapped_appchain_token_beneficiary,
            ),
            premined_wrapped_appchain_token: self.premined_wrapped_appchain_token,
            initial_supply_of_wrapped_appchain_token: self.initial_supply_of_wrapped_appchain_token,
            ido_amount_of_wrapped_appchain_token: self.ido_amount_of_wrapped_appchain_token,
            initial_era_reward: self.initial_era_reward,
            fungible_token_metadata: self.fungible_token_metadata.copy(),
            custom_metadata: self.custom_metadata.copy(),
        }
    }
}

/// Appchain metadata as an earlier layout of the registry stored it.
pub struct OldAppchainMetadata {
    pub description: String,
    pub website_url: String,
    pub function_spec_url: String,
    pub github_address: String,
    pub github_release: String,
    pub contact_email: String,
    pub premined_wrapped_appchain_token_beneficiary: Option<String>,
    pub premined_wrapped_appchain_token: u128,
    pub initial_supply_of_wrapped_appchain_token: u128,
    pub ido_amount_of_wrapped_appchain_token: u128,
    pub initial_era_reward: u128,
    pub fungible_token_metadata: FungibleTokenMetadata,
    pub custom_metadata: CustomMetadata,
}

impl AppchainMetadata {
    /// The metadata that an old record becomes: every field carried over, and no
    /// commit id.
    pub fn from_old(old: OldAppchainMetadata) -> (r: Self)
        ensures
            r@ == (AppchainMetadataView {
                description: old.description@,
                website_url: old.website_url@,
                function_spec_url: old.function_spec_url@,
                github_address: old.github_address@,
                github_release: old.github_release@,
                commit_id: Seq::empty(),
                contact_email: old.contact_email@,
                premined_wrapped_appchain_token_beneficiary: opt_text(
                    old.premined_wrapped_appchain_token_beneficiary,
                ),
                premined_wrapped_appchain_token: old.premined_wrapped_appchain_token,
                initial_supply_of_wrapped_appchain_token: old.initial_supply_of_wrapped_appchain_token,
                ido_amount_of_wrapped_appchain_token: old.ido_amount_of_wrapped_appchain_token,
                initial_era_reward: old.initial_era_reward,
                fungible_token_metadata: old.fungible_token_metadata@,
                custom_metadata: old.custom_metadata@,
            }),
    {
        AppchainMetadata {
            description: old.description,
            website_url: old.website_url,
            function_spec_url: old.function_spec_url,
            github_address: old.github_address,
            github_release: old.github_release,
            commit_id: String::new(),
            contact_email: old.contact_email,
            premined_wrapped_appchain_token_beneficiary: old.premined_wrapped_appchain_token_beneficiary,
            premined_wrapped_appchain_token: old.premined_wrapped_appchain_token,
            initial_supply_of_wrapped_appchain_token: old.initial_supply_of_wrapped_appchain_token,
            ido_amount_of_wrapped_appchain_token: old.ido_amount_of_wrapped_appchain_token,
            initial_era_reward: old.initial_era_reward,
            fungible_token_metadata: old.fungible_token_metadata,
            custom_metadata: old.custom_metadata,
        }
    }
}

} // verus!
