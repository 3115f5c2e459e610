//! The two ledger operations, the accounts each one works on, and what
//! is proved of them.

use vstd::prelude::*;
use crate::account::MyAccount;
use crate::error::MyError;

verus! {

/// The accounts of an `initialize` call: the freshly allocated account that
/// receives its first balance.
#[derive(Clone, Copy, Debug, PartialEq, Eq, Structural)]
pub struct Initialize {
    pub my_account: MyAccount,
}

/// The accounts of a `transfer` call. They are two separate records: a
/// `Transfer` cannot name one account on both sides.
#[derive(Clone, Copy, Debug, PartialEq, Eq, Structural)]
pub struct Transfer {
    pub sender: MyAccount,
    pub recipient: MyAccount,
}

impl Transfer {
    /// The balance that the two accounts hold together.
    pub open spec fn total(&self) -> nat {
        self.sender@ + self.recipient@
    }

    /// Whether moving `amount` from the sender to the recipient is accepted,
    /// and if not, why. The sender's balance is examined first.
    pub open spec fn outcome(&self, amount: u64) -> Result<(), MyError> {
        if amount > self.sender.supply {
            Err(MyError::InsufficientFunds)
        } else if self.recipient.supply + amount > u64::MAX {
            Err(MyError::Overflow)
        } else {
            Ok(())
        }
    }

    /// The accounts once a transfer of `amount` has been asked for: debited
    /// and credited where it is accepted, as they were where it is refused.
    pub open spec fn settled(&self, amount: u64) -> Transfer {
        if self.outcome(amount) is Ok {
            Transfer {
                sender: MyAccount { supply: (self.sender.supply - amount) as u64 },
                recipient: MyAccount { supply: (self.recipient.supply + amount) as u64 },
            }
        } else {
            *self
        }
    }
}

/// Sets the balance of the new account to `initial_supply`. Never fails.
pub fn initialize(accounts: &mut Initialize, initial_supply: u64) -> (result: Result<(), MyError>)
    ensures
        result is Ok,
        final(accounts).my_account@ == initial_supply,
{
    accounts.my_account.supply = initial_supply;
    Ok(())
}

/// Moves `amount` from the sender to the recipient.
///
/// Refused with `InsufficientFunds` where the sender holds less than
/// `amount`, and otherwise with `Overflow` where the recipient's new balance
/// would exceed `u64::MAX`. A refused transfer leaves both accounts as they
/// were, so the two balances add up to the same total after every call.
pub fn transfer(accounts: &mut Transfer, amount: u64) -> (result: Result<(), MyError>)
    ensures
        result == old(accounts).outcome(amount),
        *final(accounts) == old(accounts).settled(amount),
        final(accounts).total() == old(accounts).total(),
{
    if accounts.sender.supply < amount {
        return Err(MyError::InsufficientFunds);
    }
    match accounts.recipient.supply.checked_add(amount) {
        None => Err(MyError::Overflow),
        Some(credited) => {
            accounts.sender.supply = accounts.sender.supply - amount;
            accounts.recipient.supply = credited;
            Ok(())
        },
    }
}

/// A transfer that the sender can cover and the recipient can hold succeeds:
/// the sender has `amount` less, the recipient `amount` more.
pub proof fn lemma_transfer_moves_amount(accounts: Transfer, amount: u64)
    requires
        amount <= accounts.sender.supply,
        accounts.recipient.supply + amount <= u64::MAX,
    ensures
        accounts.outcome(amount) is Ok,
        accounts.settled(amount).sender@ == accounts.sender@ - amount,
        accounts.settled(amount).recipient@ == accounts.recipient@ + amount,
        (accounts.sender@ - amount) + (accounts.recipient@ + amount)
            == accounts.sender@ + accounts.recipient@,
        accounts.settled(amount).total() == accounts.total(),
{
}

/// A transfer of more than the sender holds is refused with
/// `InsufficientFunds`, and both balances stay as they were.
pub proof fn lemma_overdraft_refused(accounts: Transfer, amount: u64)
    requires
        amount > accounts.sender.supply,
    ensures
        accounts.outcome(amount) == Err::<(), MyError>(MyError::InsufficientFunds),
        accounts.settled(amount) == accounts,
        accounts.settled(amount).sender@ == accounts.sender@,
        accounts.settled(amount).recipient@ == accounts.recipient@,
{
}

/// A transfer that the sender can cover, but that would take the recipient
/// past `u64::MAX`, is refused with `Overflow`, and both balances stay as
/// they were.
pub proof fn lemma_overflow_refused(accounts: Transfer, amount: u64)
    requires
        amount <= accounts.sender.supply,
        accounts.recipient.supply + amount > u64::MAX,
    ensures
        accounts.outcome(amount) == Err::<(), MyError>(MyError::Overflow),
        accounts.settled(amount) == accounts,
{
}

/// Transferring all that the sender holds leaves the sender with nothing,
/// where the recipient can hold it.
pub proof fn lemma_transfer_whole_balance(accounts: Transfer)
    requires
        accounts.recipient.supply + accounts.sender.supply <= u64::MAX,
    ensures
        accounts.outcome(accounts.sender.supply) is Ok,
        accounts.settled(accounts.sender.supply).sender@ == 0,
        accounts.settled(accounts.sender.supply).recipient@ == accounts.total(),
{
}

/// Whatever the amount and whether or not the transfer is accepted, the two
/// balances together are what they were.
pub proof fn lemma_transfer_conserves_total(accounts: Transfer, amount: u64)
    ensures
        accounts.settled(amount).total() == accounts.total(),
{
}

/// The outcome is `Ok` exactly where the sender can cover the amount and the
/// recipient can hold it; each refusal has its own condition.
pub proof fn lemma_outcome_cases(accounts: Transfer, amount: u64)
    ensures
        accounts.outcome(amount) is Ok <==> (amount <= accounts.sender.supply
            && accounts.recipient.supply + amount <= u64::MAX),
        accounts.outcome(amount) == Err::<(), MyError>(MyError::InsufficientFunds)
            <==> amount > accounts.sender.supply,
        accounts.outcome(amount) == Err::<(), MyError>(MyError::Overflow)
            <==> (amount <= accounts.sender.supply
            && accounts.recipient.supply + amount > u64::MAX),
{
}

} // verus!
