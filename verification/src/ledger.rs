use vstd::prelude::*;
use vstd::pervasive::VecAdditionalExecFns;
use crate::address::{Address, address_eq};
use crate::errors::TransferError;
use crate::table::{
    pairs_lookup, pairs_set, distinct_keys, pairs_find, lemma_set_is_update, lemma_lookup_none_iff,
};

verus! {

/// One account of the external token ledger, as the vault core models it: the
/// identity allowed to transfer out of it, and its balance.
#[derive(Clone, Copy, Debug, PartialEq, Eq)]
pub struct TokenAccount {
    pub owner: Address,
    pub balance: u64,
}

/// The external ledger's balance book. The vault core never edits balances
/// itself: it only invokes `transfer` and treats that verdict as
/// authoritative, so every failure leaves the book exactly as it was.
pub struct TokenLedger {
    pub accounts: Vec<(Address, TokenAccount)>,
}

/// What `transfer(from, to, authority, amount)` does to the book: it moves
/// `amount` from `from` to `to` when both accounts exist, `authority` owns
/// `from`, `from` holds enough, and `to` does not overflow; otherwise it
/// refuses with the matching error and changes nothing. A transfer of an
/// account onto itself that passes every check is a no-op.
pub open spec fn spec_transfer(
    l: Seq<(Address, TokenAccount)>,
    from: Seq<u8>,
    to: Seq<u8>,
    authority: Seq<u8>,
    amount: u64,
) -> Result<Seq<(Address, TokenAccount)>, TransferError> {
    match (pairs_lookup(l, from), pairs_lookup(l, to)) {
        (Some(fa), Some(ta)) => if fa.owner@ != authority {
            Err(TransferError::NotAuthorized)
        } else if fa.balance < amount {
            Err(TransferError::InsufficientFunds)
        } else if from == to {
            Ok(l)
        } else if ta.balance + amount > u64::MAX {
            Err(TransferError::Overflow)
        } else {
            Ok(
                pairs_set(
                    pairs_set(
                        l,
                        from,
                        TokenAccount { owner: fa.owner, balance: (fa.balance - amount) as u64 },
                    ),
                    to,
                    TokenAccount { owner: ta.owner, balance: (ta.balance + amount) as u64 },
                ),
            )
        },
        _ => Err(TransferError::UnknownAccount),
    }
}

/// What minting does to the book: it credits an existing account, or refuses.
pub open spec fn spec_mint(
    l: Seq<(Address, TokenAccount)>,
    addr: Seq<u8>,
    amount: u64,
) -> Result<Seq<(Address, TokenAccount)>, TransferError> {
    match pairs_lookup(l, addr) {
        None => Err(TransferError::UnknownAccount),
        Some(a) => if a.balance + amount > u64::MAX {
            Err(TransferError::Overflow)
        } else {
            Ok(pairs_set(l, addr, TokenAccount { owner: a.owner, balance: (a.balance + amount) as u64 }))
        },
    }
}

impl TokenLedger {
    /// Each account address appears at most once.
    pub open spec fn wf(self) -> bool {
        distinct_keys(self.accounts@)
    }

    /// The balance under an address, if the account exists.
    pub open spec fn spec_balance_of(self, addr: Seq<u8>) -> Option<u64> {
        match pairs_lookup(self.accounts@, addr) {
            Some(a) => Some(a.balance),
            None => None,
        }
    }

    /// An empty book.
    pub fn new() -> (r: TokenLedger)
        ensures
            r.wf(),
            r.accounts@.len() == 0,
    {
        TokenLedger { accounts: Vec::new() }
    }

    /// Open an account with the given owning authority and a zero balance.
    /// Returns whether the account was created; an address already in use is
    /// left untouched.
    pub fn create_account(&mut self, addr: &Address, owner: &Address) -> (r: bool)
        requires
            old(self).wf(),
        ensures
            final(self).wf(),
            r == (pairs_lookup(old(self).accounts@, addr@) is None),
            r ==> final(self).accounts@ == old(self).accounts@.push(
                ((*addr, TokenAccount { owner: *owner, balance: 0 })),
            ),
            !r ==> final(self).accounts@ == old(self).accounts@,
    {
        match pairs_find(&self.accounts, addr) {
            Some(_) => false,
            None => {
                proof {
                    lemma_lookup_none_iff(self.accounts@, addr@);
                }
                let p = (*addr, TokenAccount { owner: *owner, balance: 0 });
                self.accounts.push(p);
                proof {
                    let s0 = old(self).accounts@;
                    assert forall|i: int, j: int|
                        0 <= i < j < self.accounts@.len() implies self.accounts@[i].0@
                        != self.accounts@[j].0@ by {
                        if j < s0.len() {
                            assert(self.accounts@[i] == s0[i]);
                            assert(self.accounts@[j] == s0[j]);
                        } else {
                            assert(self.accounts@[i] == s0[i]);
                            assert(s0[i].0@ != addr@);
                        }
                    }
                }
                true
            },
        }
    }

    /// Credit freshly minted tokens to an account: the external ledger's own
    /// capability, modeled so that funded states can be built.
    pub fn mint_to(&mut self, addr: &Address, amount: u64) -> (r: Result<(), TransferError>)
        requires
            old(self).wf(),
        ensures
            final(self).wf(),
            match r {
                Ok(()) => spec_mint(old(self).accounts@, addr@, amount) == Ok::<
                    Seq<(Address, TokenAccount)>,
                    TransferError,
                >(final(self).accounts@),
                Err(e) => spec_mint(old(self).accounts@, addr@, amount) == Err::<
                    Seq<(Address, TokenAccount)>,
                    TransferError,
                >(e) && final(self).accounts@ == old(self).accounts@,
            },
    {
        let i = match pairs_find(&self.accounts, addr) {
            Some(i) => i,
            None => {
                return Err(TransferError::UnknownAccount);
            },
        };
        let a = self.accounts[i].1;
        if amount > u64::MAX - a.balance {
            return Err(TransferError::Overflow);
        }
        let key = self.accounts[i].0;
        self.accounts.set(i, (key, TokenAccount { owner: a.owner, balance: a.balance + amount }));
        proof {
            lemma_set_is_update(
                old(self).accounts@,
                i as int,
                TokenAccount { owner: a.owner, balance: (a.balance + amount) as u64 },
            );
        }
        Ok(())
    }

    /// The external ledger's transfer capability. Exactly one balance-changing
    /// step per successful call; any refusal leaves the book untouched.
    pub fn transfer(
        &mut self,
        from: &Address,
        to: &Address,
        authority: &Address,
        amount: u64,
    ) -> (r: Result<(), TransferError>)
        requires
            old(self).wf(),
        ensures
            final(self).wf(),
            match r {
                Ok(()) => spec_transfer(old(self).accounts@, from@, to@, authority@, amount)
                    == Ok::<Seq<(Address, TokenAccount)>, TransferError>(final(self).accounts@),
                Err(e) => spec_transfer(old(self).accounts@, from@, to@, authority@, amount)
                    == Err::<Seq<(Address, TokenAccount)>, TransferError>(e)
                    && final(self).accounts@ == old(self).accounts@,
            },
    {
        let fi = match pairs_find(&self.accounts, from) {
            Some(i) => i,
            None => {
                return Err(TransferError::UnknownAccount);
            },
        };
        let ti = match pairs_find(&self.accounts, to) {
            Some(i) => i,
            None => {
                return Err(TransferError::UnknownAccount);
            },
        };
        let fa = self.accounts[fi].1;
        let ta = self.accounts[ti].1;
        if !address_eq(&fa.owner, authority) {
            return Err(TransferError::NotAuthorized);
        }
        if fa.balance < amount {
            return Err(TransferError::InsufficientFunds);
        }
        if address_eq(from, to) {
            return Ok(());
        }
        if amount > u64::MAX - ta.balance {
            return Err(TransferError::Overflow);
        }
        let fkey = self.accounts[fi].0;
        let tkey = self.accounts[ti].0;
        let fa2 = TokenAccount { owner: fa.owner, balance: fa.balance - amount };
        let ta2 = TokenAccount { owner: ta.owner, balance: ta.balance + amount };
        proof {
            assert(fi != ti);
            lemma_set_is_update(self.accounts@, fi as int, fa2);
        }
        self.accounts.set(fi, (fkey, fa2));
        proof {
            let s1 = self.accounts@;
            assert(s1[ti as int] == old(self).accounts@[ti as int]);
            assert forall|j: int| 0 <= j < ti implies s1[j].0@ != to@ by {
                if j == fi {
                    assert(s1[j].0@ == from@);
                } else {
                    assert(s1[j] == old(self).accounts@[j]);
                }
            }
            lemma_set_is_update(s1, ti as int, ta2);
        }
        self.accounts.set(ti, (tkey, ta2));
        proof {
            let s0 = old(self).accounts@;
            let s2 = self.accounts@;
            assert(s2 =~= s0.update(fi as int, (fkey, fa2)).update(ti as int, (tkey, ta2)));
            assert forall|i: int, j: int| 0 <= i < j < s2.len() implies s2[i].0@ != s2[j].0@ by {
                assert(s2[i].0 == s0[i].0);
                assert(s2[j].0 == s0[j].0);
            }
        }
        Ok(())
    }

    /// The balance held under an address.
    pub fn balance_of(&self, addr: &Address) -> (r: Option<u64>)
        ensures
            r == self.spec_balance_of(addr@),
    {
        match pairs_find(&self.accounts, addr) {
            Some(i) => Some(self.accounts[i].1.balance),
            None => None,
        }
    }
}

} // verus!
