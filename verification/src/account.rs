//! The ledger account: a single storage record holding a balance.

use vstd::prelude::*;

verus! {

/// A ledger account. Its only content is `supply`, the balance it holds.
#[derive(Clone, Copy, Debug, PartialEq, Eq, Structural)]
pub struct MyAccount {
    pub supply: u64,
}

impl View for MyAccount {
    type V = nat;

    /// The balance as a natural number.
    open spec fn view(&self) -> nat {
        self.supply as nat
    }
}

} // verus!
