//! The ledger as the counter program sees it: identities, and accounts that
//! carry an owner and a byte buffer.

use vstd::prelude::*;

verus! {

/// A 32-byte identity: of an account, or of the program that owns one.
#[derive(Clone, Copy, Debug, Eq)]
pub struct Pubkey {
    pub bytes: [u8; 32],
}

impl View for Pubkey {
    type V = Seq<u8>;

    open spec fn view(&self) -> Seq<u8> {
        self.bytes@
    }
}

impl PartialEq for Pubkey {
    fn eq(&self, other: &Pubkey) -> (same: bool) {
        let mut i: usize = 0;
        while i < 32
            invariant
                i <= 32,
                forall|j: int| 0 <= j < i ==> self.bytes@[j] == other.bytes@[j],
            decreases 32 - i,
        {
            if self.bytes[i] != other.bytes[i] {
                return false;
            }
            i = i + 1;
        }
        assert(self.bytes@ =~= other.bytes@);
        true
    }
}

impl vstd::std_specs::cmp::PartialEqSpecImpl for Pubkey {
    open spec fn obeys_eq_spec() -> bool {
        true
    }

    open spec fn eq_spec(&self, other: &Pubkey) -> bool {
        self@ == other@
    }
}

impl Pubkey {
    /// The identity spelled by `bytes`.
    pub fn new(bytes: [u8; 32]) -> (key: Pubkey)
        ensures
            key.bytes == bytes,
    {
        Pubkey { bytes }
    }

    /// The 32 bytes of this identity.
    pub fn to_bytes(&self) -> (bytes: [u8; 32])
        ensures
            bytes == self.bytes,
    {
        self.bytes
    }
}

/// An account on the ledger, reduced to what the counter program reads and
/// writes: who owns it, and its buffer.
#[derive(Clone, Debug, PartialEq, Eq)]
pub struct Account {
    pub owner: Pubkey,
    pub data: Vec<u8>,
}

/// The mathematical content of an [`Account`].
pub ghost struct AccountView {
    pub owner: Seq<u8>,
    pub data: Seq<u8>,
}

impl View for Account {
    type V = AccountView;

    open spec fn view(&self) -> AccountView {
        AccountView { owner: self.owner@, data: self.data@ }
    }
}

impl Account {
    /// An account owned by `owner` whose buffer is `data`.
    pub fn new(owner: Pubkey, data: Vec<u8>) -> (account: Account)
        ensures
            account.owner == owner,
            account.data == data,
    {
        Account { owner, data }
    }
}

/// The content of every account of `accounts`, in order.
pub open spec fn snapshot(accounts: Seq<Account>) -> Seq<AccountView> {
    accounts.map_values(|account: Account| account@)
}

} // verus!
