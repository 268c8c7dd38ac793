use vstd::prelude::*;
use crate::address::Address;
use crate::errors::{TransferError, VaultError};
use crate::ledger::{TokenAccount, spec_transfer};
use crate::table::{pairs_lookup, pairs_set, lemma_lookup_push, lemma_lookup_set};
use crate::vault::{
    Vault, InitializeVault, Deposit, Withdraw, spec_initialize, spec_deposit, spec_withdraw,
    deposit_authorized, withdraw_authorized,
};

verus! {

/// Authorization gate, withdrawal direction: when the vault record names
/// authority `A` and the invocation's signer is any identity `B != A`, the
/// whole withdrawal is refused with `MissingSignature`. By `withdraw`'s
/// contract an `Err` outcome leaves every ledger balance at its pre-invocation
/// value, so no funds move.
pub proof fn lemma_withdraw_needs_vault_authority(
    records: Seq<(Address, Vault)>,
    accounts: Seq<(Address, TokenAccount)>,
    ctx: Withdraw,
    amount: u64,
    program: Address,
)
    requires
        pairs_lookup(records, ctx.vault@) matches Some(rec) && rec.authority@ != ctx.authority@,
    ensures
        spec_withdraw(records, accounts, ctx, amount, program) == Err::<
            Seq<(Address, TokenAccount)>,
            VaultError,
        >(VaultError::MissingSignature),
{
}

/// Authorization gate, deposit direction: a deposit goes through on the
/// depositing user's signature alone. The gates never consult the vault's
/// authority, so the depositor may be any identity — related to the vault's
/// owner or not — as long as the ledger accepts the transfer it authorizes.
pub proof fn lemma_deposit_needs_only_user_signature(
    records: Seq<(Address, Vault)>,
    accounts: Seq<(Address, TokenAccount)>,
    ctx: Deposit,
    amount: u64,
    program: Address,
)
    requires
        deposit_authorized(records, ctx, program),
        spec_transfer(
            accounts,
            ctx.user_token_account@,
            pairs_lookup(records, ctx.vault@)->0.token_account@,
            ctx.user_authority@,
            amount,
        ) is Ok,
    ensures
        spec_deposit(records, accounts, ctx, amount, program) is Ok,
{
}

/// Round trip: a deposit of some amount followed by a withdrawal of the same
/// amount against the same vault and the same user account restores the user
/// balance and the custody balance to exactly their starting values — and in
/// fact leaves every account of the book exactly as it began.
pub proof fn lemma_deposit_withdraw_round_trip(
    records: Seq<(Address, Vault)>,
    accounts0: Seq<(Address, TokenAccount)>,
    accounts1: Seq<(Address, TokenAccount)>,
    accounts2: Seq<(Address, TokenAccount)>,
    dctx: Deposit,
    wctx: Withdraw,
    amount: u64,
    program: Address,
)
    requires
        spec_deposit(records, accounts0, dctx, amount, program) == Ok::<
            Seq<(Address, TokenAccount)>,
            VaultError,
        >(accounts1),
        spec_withdraw(records, accounts1, wctx, amount, program) == Ok::<
            Seq<(Address, TokenAccount)>,
            VaultError,
        >(accounts2),
        wctx.vault@ == dctx.vault@,
        wctx.user_token_account@ == dctx.user_token_account@,
    ensures
        pairs_lookup(accounts2, dctx.user_token_account@) == pairs_lookup(
            accounts0,
            dctx.user_token_account@,
        ),
        pairs_lookup(accounts2, pairs_lookup(records, dctx.vault@)->0.token_account@)
            == pairs_lookup(accounts0, pairs_lookup(records, dctx.vault@)->0.token_account@),
        forall|k: Seq<u8>|
            pairs_lookup(accounts2, k) == pairs_lookup(accounts0, k),
{
    let rec = pairs_lookup(records, dctx.vault@)->0;
    let u = dctx.user_token_account@;
    let c = rec.token_account@;
    let fa = pairs_lookup(accounts0, u)->0;
    let ta = pairs_lookup(accounts0, c)->0;
    if u == c {
        assert(accounts1 == accounts0);
        assert(accounts2 == accounts1);
    } else {
        let fa2 = TokenAccount { owner: fa.owner, balance: (fa.balance - amount) as u64 };
        let ta2 = TokenAccount { owner: ta.owner, balance: (ta.balance + amount) as u64 };
        let s1 = pairs_set(accounts0, u, fa2);
        assert(accounts1 == pairs_set(s1, c, ta2));
        lemma_lookup_set(accounts0, u, fa2, u);
        lemma_lookup_set(accounts0, u, fa2, c);
        lemma_lookup_set(s1, c, ta2, u);
        lemma_lookup_set(s1, c, ta2, c);
        assert(pairs_lookup(accounts1, c) == Some(ta2));
        assert(pairs_lookup(accounts1, u) == Some(fa2));
        let ga2 = TokenAccount { owner: ta2.owner, balance: (ta2.balance - amount) as u64 };
        let gb2 = TokenAccount { owner: fa2.owner, balance: (fa2.balance + amount) as u64 };
        let t1 = pairs_set(accounts1, c, ga2);
        assert(accounts2 == pairs_set(t1, u, gb2));
        lemma_lookup_set(accounts1, c, ga2, c);
        lemma_lookup_set(accounts1, c, ga2, u);
        lemma_lookup_set(t1, u, gb2, u);
        lemma_lookup_set(t1, u, gb2, c);
        assert(ga2 == ta);
        assert(gb2 == fa);
        assert(pairs_lookup(accounts2, u) == Some(fa));
        assert(pairs_lookup(accounts2, c) == Some(ta));
        assert forall|k: Seq<u8>| pairs_lookup(accounts2, k) == pairs_lookup(accounts0, k) by {
            if k != u && k != c {
                lemma_lookup_set(accounts0, u, fa2, k);
                lemma_lookup_set(s1, c, ta2, k);
                lemma_lookup_set(accounts1, c, ga2, k);
                lemma_lookup_set(t1, u, gb2, k);
            }
        }
    }
}

/// Atomicity on failure, insufficient-funds shape: when every authorization
/// gate passes but the custody account holds less than the requested amount,
/// the withdrawal fails with the ledger's own `InsufficientFunds` carried
/// verbatim. By `withdraw`'s contract an `Err` outcome leaves both balances
/// exactly at their pre-invocation values.
pub proof fn lemma_withdraw_insufficient_funds(
    records: Seq<(Address, Vault)>,
    accounts: Seq<(Address, TokenAccount)>,
    ctx: Withdraw,
    amount: u64,
    program: Address,
)
    requires
        withdraw_authorized(records, ctx, program),
        pairs_lookup(accounts, ctx.user_token_account@) is Some,
        pairs_lookup(accounts, pairs_lookup(records, ctx.vault@)->0.token_account@) matches Some(ca)
            && ca.owner@ == ctx.vault@ && ca.balance < amount,
    ensures
        spec_withdraw(records, accounts, ctx, amount, program) == Err::<
            Seq<(Address, TokenAccount)>,
            VaultError,
        >(VaultError::ExternalTransferFailure(TransferError::InsufficientFunds)),
{
}

/// Single initialization: once a record stands at the derived address, a
/// second initialization for the same owner identity fails with
/// `AlreadyInitialized`, and the record keeps the authority, custody account
/// and bump set by the first call.
pub proof fn lemma_initialize_once(
    records0: Seq<(Address, Vault)>,
    addr: Address,
    rec: Vault,
    ctx1: InitializeVault,
    ctx2: InitializeVault,
    program: Address,
)
    requires
        spec_initialize(records0, ctx1, program) == Ok::<(Seq<u8>, Vault), VaultError>(
            (addr@, rec),
        ),
        ctx2.authority@ == ctx1.authority@,
        ctx2.authority_signed,
    ensures
        spec_initialize(records0.push((addr, rec)), ctx2, program) == Err::<
            (Seq<u8>, Vault),
            VaultError,
        >(VaultError::AlreadyInitialized),
        pairs_lookup(records0.push((addr, rec)), addr@) == Some(rec),
{
    lemma_lookup_push(records0, (addr, rec), addr@);
}

} // verus!
