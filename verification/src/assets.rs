//! Custody accounts: how much of each asset each principal holds, and the
//! movement of an amount from one account to another.

use crate::error::ContractError;
use crate::identity::Address;
use crate::table::Table;
use vstd::prelude::*;

verus! {

/// What is held: for an asset and an owner, the amount. A pair that is
/// absent holds nothing.
pub type Balances = Map<(Seq<char>, Seq<char>), i128>;

/// The amount of the asset that the owner holds.
pub open spec fn balance_in(b: Balances, asset: Seq<char>, owner: Seq<char>) -> i128 {
    if b.dom().contains((asset, owner)) {
        b[(asset, owner)]
    } else {
        0
    }
}

/// Whether the amount can be credited to the owner: it is not negative and
/// the sum stays in range.
pub open spec fn can_credit(b: Balances, asset: Seq<char>, owner: Seq<char>, amount: i128) -> bool {
    0 <= amount && balance_in(b, asset, owner) + amount <= i128::MAX
}

/// The balances after the amount was credited to the owner.
pub open spec fn credited(b: Balances, asset: Seq<char>, owner: Seq<char>, amount: i128) -> Balances {
    b.insert((asset, owner), (balance_in(b, asset, owner) + amount) as i128)
}

/// Whether the amount can move: it is not negative, the sender holds it, and
/// the receiver's balance stays in range.
pub open spec fn can_move(
    b: Balances,
    asset: Seq<char>,
    from: Seq<char>,
    to: Seq<char>,
    amount: i128,
) -> bool {
    &&& 0 <= amount <= balance_in(b, asset, from)
    &&& from == to || balance_in(b, asset, to) + amount <= i128::MAX
}

/// The balances after the amount moved from one account to the other. A
/// movement from an account to itself changes nothing.
pub open spec fn moved(
    b: Balances,
    asset: Seq<char>,
    from: Seq<char>,
    to: Seq<char>,
    amount: i128,
) -> Balances {
    if from == to {
        b
    } else {
        b.insert((asset, from), (balance_in(b, asset, from) - amount) as i128).insert(
            (asset, to),
            (balance_in(b, asset, to) + amount) as i128,
        )
    }
}

/// A movement between two different accounts takes the amount from the
/// sender, gives it to the receiver, and leaves every other account as it was.
pub proof fn movement_conserves(
    b: Balances,
    asset: Seq<char>,
    from: Seq<char>,
    to: Seq<char>,
    amount: i128,
    other_asset: Seq<char>,
    other: Seq<char>,
)
    requires
        can_move(b, asset, from, to, amount),
        from != to,
    ensures
        balance_in(moved(b, asset, from, to, amount), asset, from) == balance_in(b, asset, from)
            - amount,
        balance_in(moved(b, asset, from, to, amount), asset, to) == balance_in(b, asset, to)
            + amount,
        (other_asset, other) != (asset, from) && (other_asset, other) != (asset, to) ==> balance_in(
            moved(b, asset, from, to, amount),
            other_asset,
            other,
        ) == balance_in(b, other_asset, other),
{
}

/// Whether no account holds less than nothing.
pub open spec fn no_overdraft(b: Balances) -> bool {
    forall|asset: Seq<char>, owner: Seq<char>| balance_in(b, asset, owner) >= 0
}

/// Neither a credit nor a movement overdraws an account: where none held
/// less than nothing before, none does after.
pub proof fn accounts_stay_covered(
    b: Balances,
    asset: Seq<char>,
    from: Seq<char>,
    to: Seq<char>,
    amount: i128,
)
    requires
        no_overdraft(b),
    ensures
        can_credit(b, asset, to, amount) ==> no_overdraft(credited(b, asset, to, amount)),
        can_move(b, asset, from, to, amount) ==> no_overdraft(moved(b, asset, from, to, amount)),
{
    if can_credit(b, asset, to, amount) {
        let after = credited(b, asset, to, amount);
        assert forall|a: Seq<char>, o: Seq<char>| balance_in(after, a, o) >= 0 by {
            assert(balance_in(b, a, o) >= 0);
            assert(balance_in(b, asset, to) >= 0);
        }
    }
    if can_move(b, asset, from, to, amount) {
        let after = moved(b, asset, from, to, amount);
        assert forall|a: Seq<char>, o: Seq<char>| balance_in(after, a, o) >= 0 by {
            assert(balance_in(b, a, o) >= 0);
            assert(balance_in(b, asset, to) >= 0);
            assert(balance_in(b, asset, from) >= 0);
        }
    }
}

/// The custody accounts of every asset.
pub struct AssetLedger {
    balances: Table<(Address, Address), i128>,
}

impl View for AssetLedger {
    type V = Balances;

    closed spec fn view(&self) -> Balances {
        self.balances@
    }
}

impl AssetLedger {
    /// The ledger in which nobody holds anything.
    pub fn new() -> (l: AssetLedger)
        ensures
            l@ == Map::<(Seq<char>, Seq<char>), i128>::empty(),
    {
        AssetLedger { balances: Table::new() }
    }

    /// The amount of the asset that the owner holds.
    pub fn balance(&self, asset: &Address, owner: &Address) -> (amount: i128)
        ensures
            amount == balance_in(self@, asset@, owner@),
    {
        let key = (asset.clone(), owner.clone());
        match self.balances.get(&key) {
            Some(a) => *a,
            None => 0,
        }
    }

    /// Credits the owner with a new amount of the asset. Refused, with
    /// nothing changed, where the amount is negative or the balance would
    /// leave its range.
    pub fn mint(&mut self, asset: &Address, owner: &Address, amount: i128) -> (r: Result<
        (),
        ContractError,
    >)
        ensures
            r == if can_credit(old(self)@, asset@, owner@, amount) {
                Ok::<(), ContractError>(())
            } else {
                Err::<(), ContractError>(ContractError::TransferFailed)
            },
            final(self)@ == if can_credit(old(self)@, asset@, owner@, amount) {
                credited(old(self)@, asset@, owner@, amount)
            } else {
                old(self)@
            },
    {
        let held = self.balance(asset, owner);
        if amount < 0 || held > i128::MAX - amount {
            return Err(ContractError::TransferFailed);
        }
        self.balances.set((asset.clone(), owner.clone()), held + amount);
        Ok(())
    }

    /// Moves the amount of the asset from one account to the other. Refused,
    /// with nothing changed, where the amount is negative, the sender holds
    /// less, or the receiver's balance would leave its range.
    pub fn transfer(&mut self, asset: &Address, from: &Address, to: &Address, amount: i128) -> (r:
        Result<(), ContractError>)
        ensures
            r == if can_move(old(self)@, asset@, from@, to@, amount) {
                Ok::<(), ContractError>(())
            } else {
                Err::<(), ContractError>(ContractError::TransferFailed)
            },
            final(self)@ == if can_move(old(self)@, asset@, from@, to@, amount) {
                moved(old(self)@, asset@, from@, to@, amount)
            } else {
                old(self)@
            },
    {
        let held = self.balance(asset, from);
        if amount < 0 || held < amount {
            return Err(ContractError::TransferFailed);
        }
        if from.same(to) {
            return Ok(());
        }
        let there = self.balance(asset, to);
        if there > i128::MAX - amount {
            return Err(ContractError::TransferFailed);
        }
        self.balances.set((asset.clone(), from.clone()), held - amount);
        self.balances.set((asset.clone(), to.clone()), there + amount);
        Ok(())
    }
}

} // verus!
