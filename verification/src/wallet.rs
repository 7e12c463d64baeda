//! The accounts that the client acts for.

use vstd::prelude::*;
use crate::signing::SigningKey;
use crate::types::Address;

verus! {

/// One account: its address, and the key to sign with where the client
/// holds it.
#[derive(Debug)]
pub struct Account {
    public: Address,
    private: Option<SigningKey>,
}

/// A list of accounts, in a fixed order.
#[derive(Debug)]
pub struct Wallet {
    accounts: Vec<Account>,
}

impl View for Wallet {
    type V = Seq<Address>;

    /// The addresses of the accounts, in order.
    closed spec fn view(&self) -> Seq<Address> {
        Seq::new(self.accounts@.len(), |i: int| self.accounts@[i].public)
    }
}

impl Wallet {
    /// A wallet of the accounts that a node manages: the client holds no
    /// key for any of them.
    pub fn local(accounts: &Vec<Address>) -> (r: Wallet)
        ensures
            r@ == accounts@,
            forall|i: int| 0 <= i < accounts.len() ==> r.key_spec(i) is None,
    {
        let mut list: Vec<Account> = Vec::new();
        let mut i: usize = 0;
        while i < accounts.len()
            invariant
                i <= accounts.len(),
                list.len() == i,
                forall|j: int| 0 <= j < i ==> list[j].public == accounts[j],
                forall|j: int| 0 <= j < i ==> list[j].private is None,
            decreases accounts.len() - i,
        {
            list.push(Account { public: accounts[i], private: None });
            i = i + 1;
        }
        let r = Wallet { accounts: list };
        assert(r@ =~= accounts@);
        r
    }

    /// The key held for the account at `index`, if any.
    pub closed spec fn key_spec(&self, index: int) -> Option<SigningKey> {
        self.accounts@[index].private
    }

    /// The addresses of the accounts, in order.
    pub fn accounts(&self) -> (r: Vec<Address>)
        ensures
            r@ == self@,
    {
        let mut out: Vec<Address> = Vec::new();
        let mut i: usize = 0;
        while i < self.accounts.len()
            invariant
                i <= self.accounts.len(),
                out.len() == i,
                forall|j: int| 0 <= j < i ==> out[j] == self.accounts[j].public,
            decreases self.accounts.len() - i,
        {
            out.push(self.accounts[i].public);
            i = i + 1;
        }
        assert(out@ =~= self@);
        out
    }
}

} // verus!
