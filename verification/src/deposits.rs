//! The deposits that voters have made for appchains.

use vstd::prelude::*;

use crate::kv::{kv_keys_unique, kv_map, lemma_kv_dom, lemma_kv_index, lemma_kv_push, lemma_kv_remove, lemma_kv_update};

verus! {

/// The deposit of one voter for one appchain.
pub struct VoteDeposit {
    pub appchain_id: String,
    pub account_id: String,
    pub amount: u128,
}

/// The list of deposits as pairs of (appchain id, account id) and amount.
pub open spec fn deposit_pairs(s: Seq<VoteDeposit>) -> Seq<((Seq<char>, Seq<char>), u128)> {
    s.map_values(|d: VoteDeposit| ((d.appchain_id@, d.account_id@), d.amount))
}

/// The deposit that `account_id` holds for `appchain_id`: zero where it holds none.
pub open spec fn deposit_in(
    m: Map<(Seq<char>, Seq<char>), u128>,
    appchain_id: Seq<char>,
    account_id: Seq<char>,
) -> u128 {
    if m.dom().contains((appchain_id, account_id)) {
        m[(appchain_id, account_id)]
    } else {
        0
    }
}

/// The deposits of voters, keyed by appchain id and account id; each key occurs
/// once and with a positive amount.
pub struct VoteDeposits {
    entries: Vec<VoteDeposit>,
}

impl VoteDeposits {
    #[verifier::type_invariant]
    spec fn well_formed(self) -> bool {
        &&& kv_keys_unique(deposit_pairs(self.entries@))
        &&& forall|i: int| 0 <= i < self.entries@.len() ==> #[trigger] self.entries@[i].amount > 0
    }
}

impl View for VoteDeposits {
    type V = Map<(Seq<char>, Seq<char>), u128>;

    closed spec fn view(&self) -> Map<(Seq<char>, Seq<char>), u128> {
        kv_map(deposit_pairs(self.entries@))
    }
}

/// Every recorded deposit is positive.
pub open spec fn deposits_positive(m: Map<(Seq<char>, Seq<char>), u128>) -> bool {
    forall|k: (Seq<char>, Seq<char>)| #[trigger] m.dom().contains(k) ==> m[k] > 0
}

/// A list of positive deposits with unique keys denotes positive deposits.
proof fn lemma_pairs_positive(s: Seq<((Seq<char>, Seq<char>), u128)>)
    requires
        kv_keys_unique(s),
        forall|i: int| 0 <= i < s.len() ==> #[trigger] s[i].1 > 0,
    ensures
        deposits_positive(kv_map(s)),
{
    assert forall|k: (Seq<char>, Seq<char>)| #[trigger] kv_map(s).dom().contains(k) implies kv_map(s)[k]
        > 0 by {
        lemma_kv_dom(s, k);
        let i = choose|i: int| 0 <= i < s.len() && #[trigger] s[i].0 == k;
        lemma_kv_index(s, i);
    }
}

impl VoteDeposits {
    /// No deposits.
    pub fn new() -> (r: Self)
        ensures
            r@ == Map::<(Seq<char>, Seq<char>), u128>::empty(),
            deposits_positive(r@),
    {
        let r = VoteDeposits { entries: Vec::new() };
        assert(deposit_pairs(r.entries@) =~= Seq::empty());
        r
    }

    /// Position of the deposit under the key.
    fn find(&self, appchain_id: &String, account_id: &String) -> (r: Option<usize>)
        ensures
            match r {
                Some(i) => i < self.entries@.len() && deposit_pairs(self.entries@)[i as int].0 == (
                appchain_id@, account_id@),
                None => forall|j: int|
                    0 <= j < self.entries@.len() ==> deposit_pairs(self.entries@)[j].0 != (
                    appchain_id@, account_id@),
            },
    {
        let mut i: usize = 0;
        while i < self.entries.len()
            invariant
                i <= self.entries@.len(),
                forall|j: int|
                    0 <= j < i ==> deposit_pairs(self.entries@)[j].0 != (appchain_id@, account_id@),
            decreases self.entries.len() - i,
        {
            if self.entries[i].appchain_id == *appchain_id && self.entries[i].account_id
                == *account_id {
                return Some(i);
            }
            i = i + 1;
        }
        None
    }

    /// The deposit that `account_id` holds for `appchain_id`.
    pub fn amount_of(&self, appchain_id: &String, account_id: &String) -> (r: u128)
        ensures
            r == deposit_in(self@, appchain_id@, account_id@),
    {
        proof {
            use_type_invariant(self);
        }
        let ghost s = deposit_pairs(self.entries@);
        match self.find(appchain_id, account_id) {
            Some(i) => {
                proof {
                    lemma_kv_index(s, i as int);
                }
                self.entries[i].amount
            },
            None => {
                proof {
                    lemma_kv_dom(s, (appchain_id@, account_id@));
                }
                0
            },
        }
    }

    /// The recorded deposits, each key once and each amount positive.
    pub fn entries(&self) -> (r: &Vec<VoteDeposit>)
        ensures
            kv_map(deposit_pairs(r@)) == self@,
            kv_keys_unique(deposit_pairs(r@)),
            forall|i: int| 0 <= i < r@.len() ==> #[trigger] r@[i].amount > 0,
            deposits_positive(self@),
    {
        proof {
            use_type_invariant(self);
            let t = deposit_pairs(self.entries@);
            assert forall|i: int| 0 <= i < t.len() implies #[trigger] t[i].1 > 0 by {
                assert(self.entries@[i].amount > 0);
            }
            lemma_pairs_positive(t);
        }
        &self.entries
    }

    /// Records `amount` as the deposit that `account_id` holds for `appchain_id`; an
    /// amount of zero drops the record.
    pub fn set_amount(&mut self, appchain_id: String, account_id: String, amount: u128)
        ensures
            final(self)@ == (if amount == 0 {
                old(self)@.remove((appchain_id@, account_id@))
            } else {
                old(self)@.insert((appchain_id@, account_id@), amount)
            }),
            deposits_positive(old(self)@) ==> deposits_positive(final(self)@),
    {
        proof {
            use_type_invariant(&*self);
        }
        let ghost s = deposit_pairs(self.entries@);
        let ghost key = (appchain_id@, account_id@);
        let mut entries: Vec<VoteDeposit> = Vec::new();
        std::mem::swap(&mut entries, &mut self.entries);
        match self.find_in(&entries, &appchain_id, &account_id) {
            Some(i) => {
                if amount == 0 {
                    entries.remove(i);
                    proof {
                        assert(deposit_pairs(entries@) =~= s.remove(i as int));
                        lemma_kv_remove(s, i as int);
                    }
                } else {
                    entries.set(i, VoteDeposit { appchain_id, account_id, amount });
                    proof {
                        assert(deposit_pairs(entries@) =~= s.update(i as int, (key, amount)));
                        lemma_kv_update(s, i as int, amount);
                    }
                }
            },
            None => {
                proof {
                    lemma_kv_dom(s, key);
                }
                if amount == 0 {
                    proof {
                        assert(kv_map(s) =~= kv_map(s).remove(key));
                    }
                } else {
                    entries.push(VoteDeposit { appchain_id, account_id, amount });
                    proof {
                        assert(deposit_pairs(entries@) =~= s.push((key, amount)));
                        lemma_kv_push(s, (key, amount));
                    }
                }
            },
        }
        self.entries = entries;
        proof {
            use_type_invariant(&*self);
            let t = deposit_pairs(self.entries@);
            assert forall|i: int| 0 <= i < t.len() implies #[trigger] t[i].1 > 0 by {
                assert(self.entries@[i].amount > 0);
            }
            lemma_pairs_positive(t);
        }
    }

    /// Position of the deposit under the key in a list of deposits.
    fn find_in(&self, entries: &Vec<VoteDeposit>, appchain_id: &String, account_id: &String) -> (r:
        Option<usize>)
        ensures
            match r {
                Some(i) => i < entries@.len() && deposit_pairs(entries@)[i as int].0 == (
                appchain_id@, account_id@),
                None => forall|j: int|
                    0 <= j < entries@.len() ==> deposit_pairs(entries@)[j].0 != (appchain_id@, account_id@),
            },
    {
        let mut i: usize = 0;
        while i < entries.len()
            invariant
                i <= entries@.len(),
                forall|j: int| 0 <= j < i ==> deposit_pairs(entries@)[j].0 != (appchain_id@, account_id@),
            decreases entries.len() - i,
        {
            if entries[i].appchain_id == *appchain_id && entries[i].account_id == *account_id {
                return Some(i);
            }
            i = i + 1;
        }
        None
    }
}

} // verus!
