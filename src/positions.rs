//! Answers "how much of a denom does an owner have actively lent" from the
//! results of two read-only credit-manager queries.
use vstd::prelude::*;

verus! {

/// A credit account record, as listed for an owner.
#[derive(Clone, Debug)]
pub struct Account {
    pub id: String,
    pub kind: String,
}

/// An amount of one denom.
#[derive(Clone, Debug)]
pub struct Coin {
    pub denom: String,
    pub amount: u128,
}

/// The active positions of one credit account.
#[derive(Clone, Debug)]
pub struct Positions {
    pub account_id: String,
    pub deposits: Vec<Coin>,
    pub debts: Vec<Coin>,
    pub lends: Vec<Coin>,
}

/// Why a lending lookup found nothing.
#[derive(Clone, Debug)]
pub enum PositionError {
    /// The owner has no credit account.
    NoCreditAccount { owner: String },
    /// The inspected account lends none of the denom.
    DenomNotLent { denom: String },
}

/// Whether some entry of `coins` is of `denom`.
pub open spec fn holds_denom(coins: Seq<Coin>, denom: Seq<char>) -> bool {
    exists|i: int| 0 <= i < coins.len() && (#[trigger] coins[i]).denom@ == denom
}

/// The index of the first entry of `coins` that is of `denom`.
pub open spec fn first_of_denom(coins: Seq<Coin>, denom: Seq<char>) -> int
    recommends
        holds_denom(coins, denom),
{
    choose|i: int|
        0 <= i < coins.len() && coins[i].denom@ == denom && forall|j: int|
            0 <= j < i ==> (#[trigger] coins[j]).denom@ != denom
}

/// Picks the credit account to inspect for `owner`: the first one listed.
/// An owner is expected to hold at most one credit account.
pub fn first_credit_account(owner: &str, accounts: &Vec<Account>) -> (r: Result<
    String,
    PositionError,
>)
    ensures
        accounts@.len() == 0 <==> r is Err,
        r matches Ok(id) ==> id@ == accounts@[0].id@,
        r matches Err(e) ==> e matches PositionError::NoCreditAccount { owner: o } && o@ == owner@,
{
    if accounts.len() == 0 {
        Err(PositionError::NoCreditAccount { owner: owner.to_owned() })
    } else {
        Ok(accounts[0].id.clone())
    }
}

/// The amount of the first active lending entry of `denom`.
pub fn lending_amount(positions: &Positions, denom: &str) -> (r: Result<u128, PositionError>)
    ensures
        r is Ok <==> holds_denom(positions.lends@, denom@),
        r matches Ok(a) ==> a == positions.lends@[first_of_denom(positions.lends@, denom@)].amount,
        r matches Err(e) ==> e matches PositionError::DenomNotLent { denom: d } && d@ == denom@,
{
    let wanted = denom.to_owned();
    let mut i: usize = 0;
    while i < positions.lends.len()
        invariant
            wanted@ == denom@,
            0 <= i <= positions.lends@.len(),
            forall|j: int| 0 <= j < i ==> (#[trigger] positions.lends@[j]).denom@ != denom@,
        decreases positions.lends@.len() - i,
    {
        if positions.lends[i].denom == wanted {
            let ghost k = first_of_denom(positions.lends@, denom@);
            proof {
                assert(holds_denom(positions.lends@, denom@));
                if k != i as int {
                    if k < i as int {
                        assert(positions.lends@[k].denom@ != denom@);
                    } else {
                        assert(positions.lends@[i as int].denom@ == denom@);
                    }
                }
            }
            return Ok(positions.lends[i].amount);
        }
        i = i + 1;
    }
    Err(PositionError::DenomNotLent { denom: wanted })
}

/// Composes the two lookups once both query results are at hand: the
/// accounts listed for `owner`, and the positions of the account that
/// `first_credit_account` picked.
pub fn lending_denom_amount(
    owner: &str,
    accounts: &Vec<Account>,
    positions: &Positions,
    denom: &str,
) -> (r: Result<u128, PositionError>)
    ensures
        accounts@.len() == 0 ==> (r matches Err(e) && e matches PositionError::NoCreditAccount {
            owner: o,
        } && o@ == owner@),
        accounts@.len() > 0 ==> (r is Ok <==> holds_denom(positions.lends@, denom@)),
        r matches Ok(a) ==> a == positions.lends@[first_of_denom(positions.lends@, denom@)].amount,
        accounts@.len() > 0 ==> (r matches Err(e) ==> e matches PositionError::DenomNotLent {
            denom: d,
        } && d@ == denom@),
{
    match first_credit_account(owner, accounts) {
        Err(e) => Err(e),
        Ok(_) => lending_amount(positions, denom),
    }
}

} // verus!
