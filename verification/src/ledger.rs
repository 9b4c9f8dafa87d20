//! What the credits of the balances block add up to, account by account.

use vstd::prelude::*;
use crate::economics::{ENDOWMENT, STASH};
use crate::genesis::{balance_credits, stash_accounts};
use crate::keys::{AccountId, AuthorityKeys};

verus! {

/// The sum of the credits that name `who`.
pub open spec fn credited(credits: Seq<(AccountId, u128)>, who: AccountId) -> nat
    decreases credits.len(),
{
    if credits.len() == 0 {
        0
    } else {
        credited(credits.drop_last(), who) + if credits.last().0 == who {
            credits.last().1 as nat
        } else {
            0
        }
    }
}

/// How often `who` occurs in a list of accounts.
pub open spec fn occurrences(accounts: Seq<AccountId>, who: AccountId) -> nat
    decreases accounts.len(),
{
    if accounts.len() == 0 {
        0
    } else {
        occurrences(accounts.drop_last(), who) + if accounts.last() == who {
            1nat
        } else {
            0nat
        }
    }
}

/// The accounts that a list of credits names.
pub open spec fn credited_accounts(credits: Seq<(AccountId, u128)>) -> Set<AccountId> {
    Set::new(|who: AccountId| exists|i: int| 0 <= i < credits.len() && credits[i].0 == who)
}

proof fn lemma_credited_concat(
    first: Seq<(AccountId, u128)>,
    second: Seq<(AccountId, u128)>,
    who: AccountId,
)
    ensures
        credited(first + second, who) == credited(first, who) + credited(second, who),
    decreases second.len(),
{
    if second.len() == 0 {
        assert(first + second =~= first);
    } else {
        assert((first + second).drop_last() =~= first + second.drop_last());
        lemma_credited_concat(first, second.drop_last(), who);
    }
}

proof fn lemma_credited_uniform(
    credits: Seq<(AccountId, u128)>,
    accounts: Seq<AccountId>,
    amount: u128,
    who: AccountId,
)
    requires
        credits.len() == accounts.len(),
        forall|i: int| 0 <= i < accounts.len() ==> credits[i] == (accounts[i], amount),
    ensures
        credited(credits, who) == occurrences(accounts, who) * amount,
    decreases accounts.len(),
{
    if accounts.len() == 0 {
        assert(0 * amount == 0);
    } else {
        lemma_credited_uniform(credits.drop_last(), accounts.drop_last(), amount, who);
        let before = occurrences(accounts.drop_last(), who);
        assert(credits.last() == (accounts.last(), amount));
        assert((before + 1) * amount == before * amount + amount) by (nonlinear_arith);
    }
}

/// An account occurs in a list at least once exactly if the list contains
/// it.
pub proof fn lemma_occurrences_contains(accounts: Seq<AccountId>, who: AccountId)
    ensures
        occurrences(accounts, who) > 0 <==> accounts.contains(who),
    decreases accounts.len(),
{
    if accounts.len() > 0 {
        lemma_occurrences_contains(accounts.drop_last(), who);
        if accounts.contains(who) {
            let i = choose|i: int| 0 <= i < accounts.len() && accounts[i] == who;
            if i < accounts.len() - 1 {
                assert(accounts.drop_last()[i] == who);
            }
        }
        if accounts.drop_last().contains(who) {
            let i = choose|i: int|
                0 <= i < accounts.drop_last().len() && accounts.drop_last()[i] == who;
            assert(accounts[i] == who);
        }
        if accounts.last() == who {
            assert(accounts[accounts.len() - 1] == who);
        }
    }
}

/// In a list without duplicates no account occurs twice.
pub proof fn lemma_occurrences_no_duplicates(accounts: Seq<AccountId>, who: AccountId)
    requires
        accounts.no_duplicates(),
    ensures
        occurrences(accounts, who) <= 1,
    decreases accounts.len(),
{
    if accounts.len() > 0 {
        lemma_occurrences_no_duplicates(accounts.drop_last(), who);
        if accounts.last() == who {
            lemma_occurrences_contains(accounts.drop_last(), who);
            if accounts.drop_last().contains(who) {
                let i = choose|i: int|
                    0 <= i < accounts.drop_last().len() && accounts.drop_last()[i] == who;
                assert(accounts[i] == accounts[accounts.len() - 1]);
            }
        }
    }
}

/// The balances block names exactly the endowed accounts and the
/// authorities' stash accounts.
pub proof fn lemma_balance_accounts(endowed: Seq<AccountId>, authorities: Seq<AuthorityKeys>)
    ensures
        credited_accounts(balance_credits(endowed, authorities)) == endowed.to_set().union(
            stash_accounts(authorities).to_set(),
        ),
{
    let credits = balance_credits(endowed, authorities);
    let stashes = stash_accounts(authorities);
    assert forall|who: AccountId|
        credited_accounts(credits).contains(who) <==> endowed.to_set().union(
            stashes.to_set(),
        ).contains(who) by {
        if credited_accounts(credits).contains(who) {
            let i = choose|i: int| 0 <= i < credits.len() && credits[i].0 == who;
            if i < endowed.len() {
                assert(endowed[i] == who);
            } else {
                assert(stashes[i - endowed.len()] == who);
            }
        }
        if endowed.contains(who) {
            let i = choose|i: int| 0 <= i < endowed.len() && endowed[i] == who;
            assert(credits[i].0 == who);
        }
        if stashes.contains(who) {
            let i = choose|i: int| 0 <= i < stashes.len() && stashes[i] == who;
            assert(credits[endowed.len() + i].0 == who);
        }
    }
    assert(credited_accounts(credits) =~= endowed.to_set().union(stashes.to_set()));
}

/// The balances block credits an account with the endowment for each time
/// it is endowed, plus the stash amount for each authority whose stash it
/// is.
pub proof fn lemma_credited_amount(
    endowed: Seq<AccountId>,
    authorities: Seq<AuthorityKeys>,
    who: AccountId,
)
    ensures
        credited(balance_credits(endowed, authorities), who) == occurrences(endowed, who)
            * ENDOWMENT + occurrences(stash_accounts(authorities), who) * STASH,
{
    let endowments = endowed.map_values(|a: AccountId| (a, ENDOWMENT));
    let stashes = authorities.map_values(|a: AuthorityKeys| (a.0, STASH));
    lemma_credited_concat(endowments, stashes, who);
    lemma_credited_uniform(endowments, endowed, ENDOWMENT, who);
    lemma_credited_uniform(stashes, stash_accounts(authorities), STASH, who);
}

/// An account that is endowed once and is the stash of one authority is
/// credited with both amounts: the endowment plus the stash amount, not
/// either alone.
pub proof fn lemma_credited_in_both(
    endowed: Seq<AccountId>,
    authorities: Seq<AuthorityKeys>,
    who: AccountId,
)
    requires
        endowed.contains(who),
        stash_accounts(authorities).contains(who),
        occurrences(endowed, who) <= 1,
        occurrences(stash_accounts(authorities), who) <= 1,
    ensures
        credited(balance_credits(endowed, authorities), who) == ENDOWMENT + STASH,
{
    lemma_occurrences_contains(endowed, who);
    lemma_occurrences_contains(stash_accounts(authorities), who);
    lemma_credited_amount(endowed, authorities, who);
}

/// An account that is endowed once and is no authority's stash is credited
/// with the endowment alone; one that is the stash of one authority and not
/// endowed, with the stash amount alone.
pub proof fn lemma_credited_in_one(
    endowed: Seq<AccountId>,
    authorities: Seq<AuthorityKeys>,
    who: AccountId,
)
    requires
        occurrences(endowed, who) <= 1,
        occurrences(stash_accounts(authorities), who) <= 1,
    ensures
        endowed.contains(who) && !stash_accounts(authorities).contains(who) ==> credited(
            balance_credits(endowed, authorities),
            who,
        ) == ENDOWMENT,
        !endowed.contains(who) && stash_accounts(authorities).contains(who) ==> credited(
            balance_credits(endowed, authorities),
            who,
        ) == STASH,
        !endowed.contains(who) && !stash_accounts(authorities).contains(who) ==> credited(
            balance_credits(endowed, authorities),
            who,
        ) == 0,
{
    lemma_occurrences_contains(endowed, who);
    lemma_occurrences_contains(stash_accounts(authorities), who);
    lemma_credited_amount(endowed, authorities, who);
    assert(0 * ENDOWMENT == 0 && 0 * STASH == 0);
    assert(1 * ENDOWMENT == ENDOWMENT && 1 * STASH == STASH);
}

} // verus!
