//! Finding addresses in lists, checking lists for repeated addresses and
//! counting approvals.
use vstd::prelude::*;

use crate::pubkey::Pubkey;
use crate::state::{SupportedToken, TokenBalance};

verus! {

/// The position of the first occurrence of `key` in `keys`, if any.
pub open spec fn first_index_of(keys: Seq<Pubkey>, key: Pubkey) -> Option<int>
    decreases keys.len(),
{
    if keys.len() == 0 {
        None
    } else {
        match first_index_of(keys.drop_last(), key) {
            Some(i) => Some(i),
            None => if keys.last() == key {
                Some(keys.len() - 1)
            } else {
                None
            },
        }
    }
}

/// What `first_index_of` gives: the first position that holds the key, or
/// `None` where no position does.
pub proof fn lemma_first_index_of(keys: Seq<Pubkey>, key: Pubkey)
    ensures
        match first_index_of(keys, key) {
            Some(i) => {
                &&& 0 <= i < keys.len()
                &&& keys[i] == key
                &&& forall|j: int| 0 <= j < i ==> keys[j] != key
            },
            None => forall|j: int| 0 <= j < keys.len() ==> keys[j] != key,
        },
    decreases keys.len(),
{
    if keys.len() > 0 {
        let prefix = keys.drop_last();
        lemma_first_index_of(prefix, key);
        assert(forall|j: int| 0 <= j < prefix.len() ==> prefix[j] == keys[j]);
    }
}

/// A position is the first occurrence exactly when `first_index_of` names it.
pub proof fn lemma_first_index_unique(keys: Seq<Pubkey>, key: Pubkey, i: int)
    requires
        0 <= i < keys.len(),
        keys[i] == key,
        forall|j: int| 0 <= j < i ==> keys[j] != key,
    ensures
        first_index_of(keys, key) == Some(i),
{
    lemma_first_index_of(keys, key);
}

/// The mints of a list of supported tokens.
pub open spec fn token_mints(tokens: Seq<SupportedToken>) -> Seq<Pubkey> {
    tokens.map_values(|t: SupportedToken| t.mint)
}

/// The mints of a list of balances.
pub open spec fn balance_mints(balances: Seq<TokenBalance>) -> Seq<Pubkey> {
    balances.map_values(|b: TokenBalance| b.mint)
}

/// Whether some entry of the list has the mint and is active.
pub open spec fn is_active_token(tokens: Seq<SupportedToken>, mint: Pubkey) -> bool {
    exists|i: int| 0 <= i < tokens.len() && tokens[i].mint == mint && tokens[i].is_active
}

/// The number of `true` entries.
pub open spec fn approval_count(signers: Seq<bool>) -> nat
    decreases signers.len(),
{
    if signers.len() == 0 {
        0
    } else {
        approval_count(signers.drop_last()) + if signers.last() {
            1nat
        } else {
            0nat
        }
    }
}

/// The count of `true` entries is at most the length.
pub proof fn lemma_approval_count_bounded(signers: Seq<bool>)
    ensures
        approval_count(signers) <= signers.len(),
    decreases signers.len(),
{
    if signers.len() > 0 {
        lemma_approval_count_bounded(signers.drop_last());
    }
}

/// Setting one `false` entry to `true` adds one to the count.
pub proof fn lemma_approval_count_set(signers: Seq<bool>, i: int)
    requires
        0 <= i < signers.len(),
        !signers[i],
    ensures
        approval_count(signers.update(i, true)) == approval_count(signers) + 1,
    decreases signers.len(),
{
    let s2 = signers.update(i, true);
    if i == signers.len() - 1 {
        assert(s2.drop_last() =~= signers.drop_last());
    } else {
        assert(s2.drop_last() =~= signers.drop_last().update(i, true));
        lemma_approval_count_set(signers.drop_last(), i);
    }
}

/// The position of the first occurrence of `key` in `keys`.
pub fn position_of_key(keys: &Vec<Pubkey>, key: &Pubkey) -> (pos: Option<usize>)
    ensures
        match pos {
            Some(i) => i < keys.len() && first_index_of(keys@, *key) == Some(i as int),
            None => first_index_of(keys@, *key) is None,
        },
{
    proof {
        lemma_first_index_of(keys@, *key);
    }
    let mut i: usize = 0;
    while i < keys.len()
        invariant
            i <= keys.len(),
            forall|j: int| 0 <= j < i ==> keys@[j] != *key,
        decreases keys.len() - i,
    {
        if keys[i].same_as(key) {
            proof {
                lemma_first_index_unique(keys@, *key, i as int);
            }
            return Some(i);
        }
        i = i + 1;
    }
    None
}

/// The position of the first supported token with the mint.
pub fn position_of_token(tokens: &Vec<SupportedToken>, mint: &Pubkey) -> (pos: Option<usize>)
    ensures
        match pos {
            Some(i) => i < tokens.len() && first_index_of(token_mints(tokens@), *mint) == Some(i as int),
            None => first_index_of(token_mints(tokens@), *mint) is None,
        },
{
    let ghost mints = token_mints(tokens@);
    proof {
        lemma_first_index_of(mints, *mint);
    }
    let mut i: usize = 0;
    while i < tokens.len()
        invariant
            i <= tokens.len(),
            mints == token_mints(tokens@),
            forall|j: int| 0 <= j < i ==> mints[j] != *mint,
        decreases tokens.len() - i,
    {
        if tokens[i].mint.same_as(mint) {
            proof {
                lemma_first_index_unique(mints, *mint, i as int);
            }
            return Some(i);
        }
        i = i + 1;
    }
    None
}

/// The position of the first balance with the mint.
pub fn position_of_balance(balances: &Vec<TokenBalance>, mint: &Pubkey) -> (pos: Option<usize>)
    ensures
        match pos {
            Some(i) => i < balances.len() && first_index_of(balance_mints(balances@), *mint) == Some(i as int),
            None => first_index_of(balance_mints(balances@), *mint) is None,
        },
{
    let ghost mints = balance_mints(balances@);
    proof {
        lemma_first_index_of(mints, *mint);
    }
    let mut i: usize = 0;
    while i < balances.len()
        invariant
            i <= balances.len(),
            mints == balance_mints(balances@),
            forall|j: int| 0 <= j < i ==> mints[j] != *mint,
        decreases balances.len() - i,
    {
        if balances[i].mint.same_as(mint) {
            proof {
                lemma_first_index_unique(mints, *mint, i as int);
            }
            return Some(i);
        }
        i = i + 1;
    }
    None
}

/// Whether some supported token with the mint is active.
pub fn has_active_token(tokens: &Vec<SupportedToken>, mint: &Pubkey) -> (found: bool)
    ensures
        found == is_active_token(tokens@, *mint),
{
    let mut i: usize = 0;
    while i < tokens.len()
        invariant
            i <= tokens.len(),
            forall|j: int| 0 <= j < i ==> !(tokens@[j].mint == *mint && tokens@[j].is_active),
        decreases tokens.len() - i,
    {
        if tokens[i].mint.same_as(mint) && tokens[i].is_active {
            return true;
        }
        i = i + 1;
    }
    false
}

/// Whether no address occurs twice in the list.
pub fn all_distinct(keys: &Vec<Pubkey>) -> (distinct: bool)
    ensures
        distinct == keys@.no_duplicates(),
{
    let mut i: usize = 0;
    while i < keys.len()
        invariant
            i <= keys.len(),
            forall|a: int, b: int| 0 <= a < b < keys.len() && a < i ==> keys@[a] != keys@[b],
        decreases keys.len() - i,
    {
        let mut j: usize = i + 1;
        while j < keys.len()
            invariant
                i < keys.len(),
                i + 1 <= j <= keys.len(),
                forall|a: int, b: int| 0 <= a < b < keys.len() && a < i ==> keys@[a] != keys@[b],
                forall|b: int| i < b < j ==> keys@[i as int] != keys@[b],
            decreases keys.len() - j,
        {
            if keys[i].same_as(&keys[j]) {
                return false;
            }
            j = j + 1;
        }
        i = i + 1;
    }
    true
}

/// The number of owners that approved.
pub fn count_approvals(signers: &Vec<bool>) -> (count: usize)
    ensures
        count == approval_count(signers@),
{
    let mut count: usize = 0;
    let mut i: usize = 0;
    while i < signers.len()
        invariant
            i <= signers.len(),
            count == approval_count(signers@.take(i as int)),
            count <= i,
        decreases signers.len() - i,
    {
        assert(signers@.take(i + 1).drop_last() =~= signers@.take(i as int));
        if signers[i] {
            count = count + 1;
        }
        i = i + 1;
    }
    assert(signers@.take(signers.len() as int) =~= signers@);
    count
}

} // verus!
