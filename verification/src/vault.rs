use vstd::prelude::*;
use crate::address::{Address, address_eq};
use crate::errors::VaultError;
use crate::derivation::{
    spec_derive, vault_seed_address, derive_vault_address, verify_derivation, DerivedAuthority,
};
use crate::ledger::{TokenAccount, TokenLedger, spec_transfer};
use crate::table::{pairs_lookup, pairs_find, distinct_keys, lemma_lookup_none_iff};

verus! {

/// The persisted custody descriptor: the one record a vault keeps. Its own
/// storage address is derived from the authority, the fixed domain tag and the
/// bump, so the record is self-describing; none of its fields is ever
/// reassigned after initialization.
#[derive(Clone, Copy, Debug, PartialEq, Eq)]
pub struct Vault {
    /// The owning principal: the only identity allowed to withdraw.
    pub authority: Address,
    /// The external ledger account the vault treats as its held funds.
    pub token_account: Address,
    /// The disambiguation byte that made the derivation land off-curve.
    pub bump: u8,
}

/// All vault records, keyed by their derived storage address. Insertion-once:
/// only initialization inserts, and only at an address not yet taken.
pub struct VaultRegistry {
    pub records: Vec<(Address, Vault)>,
}

/// The account references an initialization names, plus whether the paying
/// owner actually signed the invocation.
#[derive(Clone, Copy, Debug)]
pub struct InitializeVault {
    /// The owning identity; it pays for and authorizes creation.
    pub authority: Address,
    /// Whether `authority` signed this invocation.
    pub authority_signed: bool,
    /// The custody account to record; taken as supplied, un-validated beyond
    /// being a well-formed account reference.
    pub vault_token_account: Address,
}

/// The account references a deposit names, plus the depositing signer.
#[derive(Clone, Copy, Debug)]
pub struct Deposit {
    /// Claimed storage address of the vault record.
    pub vault: Address,
    /// The user-controlled source of the funds.
    pub user_token_account: Address,
    /// The depositing identity; it authorizes the transfer out of its account.
    pub user_authority: Address,
    /// Whether `user_authority` signed this invocation.
    pub user_authority_signed: bool,
}

/// The account references a withdrawal names, plus the claimed owner.
#[derive(Clone, Copy, Debug)]
pub struct Withdraw {
    /// Claimed storage address of the vault record.
    pub vault: Address,
    /// The user-controlled destination of the funds.
    pub user_token_account: Address,
    /// The identity claiming to be the vault's authority.
    pub authority: Address,
    /// Whether `authority` signed this invocation.
    pub authority_signed: bool,
}

/// What initialization decides and records: the owner must sign, the
/// derivation must succeed, and no record may already sit at the derived
/// address; then the new record is pinned down together with that address.
pub open spec fn spec_initialize(
    records: Seq<(Address, Vault)>,
    ctx: InitializeVault,
    program: Address,
) -> Result<(Seq<u8>, Vault), VaultError> {
    if !ctx.authority_signed {
        Err(VaultError::MissingSignature)
    } else {
        match spec_derive(ctx.authority@, program@) {
            None => Err(VaultError::DerivationFailure),
            Some(p) => if pairs_lookup(records, p.0) is Some {
                Err(VaultError::AlreadyInitialized)
            } else {
                Ok(
                    (
                        p.0,
                        Vault {
                            authority: ctx.authority,
                            token_account: ctx.vault_token_account,
                            bump: p.1,
                        },
                    ),
                )
            },
        }
    }
}

/// Every authorization gate a deposit must pass before any transfer is
/// invoked: the depositing user signed, the claimed record exists, and its
/// authority/bump pair re-derives its storage address. The vault's own
/// authority is deliberately not consulted.
pub open spec fn deposit_authorized(
    records: Seq<(Address, Vault)>,
    ctx: Deposit,
    program: Address,
) -> bool {
    &&& ctx.user_authority_signed
    &&& pairs_lookup(records, ctx.vault@) matches Some(rec) && vault_seed_address(
        rec.authority@,
        rec.bump,
        program@,
    ) == Some(ctx.vault@)
}

/// What a deposit does: after the gates, the external transfer moves the
/// amount from the user's account into the recorded custody account, with the
/// depositing user as the transfer authority; a ledger refusal is carried
/// through verbatim.
pub open spec fn spec_deposit(
    records: Seq<(Address, Vault)>,
    accounts: Seq<(Address, TokenAccount)>,
    ctx: Deposit,
    amount: u64,
    program: Address,
) -> Result<Seq<(Address, TokenAccount)>, VaultError> {
    if !ctx.user_authority_signed {
        Err(VaultError::MissingSignature)
    } else {
        match pairs_lookup(records, ctx.vault@) {
            None => Err(VaultError::DerivationMismatch),
            Some(rec) => if vault_seed_address(rec.authority@, rec.bump, program@) != Some(
                ctx.vault@,
            ) {
                Err(VaultError::DerivationMismatch)
            } else {
                match spec_transfer(
                    accounts,
                    ctx.user_token_account@,
                    rec.token_account@,
                    ctx.user_authority@,
                    amount,
                ) {
                    Ok(l2) => Ok(l2),
                    Err(te) => Err(VaultError::ExternalTransferFailure(te)),
                }
            },
        }
    }
}

/// Every authorization gate a withdrawal must pass before any transfer is
/// invoked: the claimed owner signed, the record exists, the signer is the
/// record's authority, and the authority/bump pair re-derives the record's
/// storage address.
pub open spec fn withdraw_authorized(
    records: Seq<(Address, Vault)>,
    ctx: Withdraw,
    program: Address,
) -> bool {
    &&& ctx.authority_signed
    &&& pairs_lookup(records, ctx.vault@) matches Some(rec) && rec.authority@ == ctx.authority@
        && vault_seed_address(rec.authority@, rec.bump, program@) == Some(ctx.vault@)
}

/// What a withdrawal does: after the gates, the external transfer moves the
/// amount out of the recorded custody account into the user's account, with
/// the vault's own derived identity — not the human authority — as the
/// transfer authority; a ledger refusal is carried through verbatim.
pub open spec fn spec_withdraw(
    records: Seq<(Address, Vault)>,
    accounts: Seq<(Address, TokenAccount)>,
    ctx: Withdraw,
    amount: u64,
    program: Address,
) -> Result<Seq<(Address, TokenAccount)>, VaultError> {
    if !ctx.authority_signed {
        Err(VaultError::MissingSignature)
    } else {
        match pairs_lookup(records, ctx.vault@) {
            None => Err(VaultError::DerivationMismatch),
            Some(rec) => if rec.authority@ != ctx.authority@ {
                Err(VaultError::MissingSignature)
            } else if vault_seed_address(rec.authority@, rec.bump, program@) != Some(ctx.vault@) {
                Err(VaultError::DerivationMismatch)
            } else {
                match spec_transfer(
                    accounts,
                    rec.token_account@,
                    ctx.user_token_account@,
                    ctx.vault@,
                    amount,
                ) {
                    Ok(l2) => Ok(l2),
                    Err(te) => Err(VaultError::ExternalTransferFailure(te)),
                }
            },
        }
    }
}

impl VaultRegistry {
    /// Each storage address carries at most one record.
    pub open spec fn wf(self) -> bool {
        distinct_keys(self.records@)
    }

    /// An empty registry.
    pub fn new() -> (r: VaultRegistry)
        ensures
            r.wf(),
            r.records@.len() == 0,
    {
        VaultRegistry { records: Vec::new() }
    }

    /// The record stored at an address, if any.
    pub fn record_of(&self, addr: &Address) -> (r: Option<Vault>)
        ensures
            r == pairs_lookup(self.records@, addr@),
    {
        match pairs_find(&self.records, addr) {
            Some(i) => Some(self.records[i].1),
            None => None,
        }
    }
}

/// Create the vault record for an owner: derive the custody address from the
/// owner identity and the fixed domain tag, refuse a second record for the
/// same owner, and persist authority, custody account and bump.
pub fn initialize_vault(
    registry: &mut VaultRegistry,
    ctx: &InitializeVault,
    program_id: &Address,
) -> (r: Result<(), VaultError>)
    requires
        old(registry).wf(),
    ensures
        final(registry).wf(),
        match r {
            Ok(()) => ({
                &&& spec_initialize(old(registry).records@, *ctx, *program_id) matches Ok(p)
                &&& final(registry).records@.len() == old(registry).records@.len() + 1
                &&& final(registry).records@.drop_last() == old(registry).records@
                &&& final(registry).records@.last().0@ == p.0
                &&& final(registry).records@.last().1 == p.1
            }),
            Err(e) => spec_initialize(old(registry).records@, *ctx, *program_id) == Err::<
                (Seq<u8>, Vault),
                VaultError,
            >(e) && final(registry).records@ == old(registry).records@,
        },
{
    if !ctx.authority_signed {
        return Err(VaultError::MissingSignature);
    }
    let (addr, bump) = match derive_vault_address(&ctx.authority, program_id) {
        Some(p) => p,
        None => {
            return Err(VaultError::DerivationFailure);
        },
    };
    match pairs_find(&registry.records, &addr) {
        Some(_) => Err(VaultError::AlreadyInitialized),
        None => {
            proof {
                lemma_lookup_none_iff(registry.records@, addr@);
            }
            let rec = Vault {
                authority: ctx.authority,
                token_account: ctx.vault_token_account,
                bump,
            };
            registry.records.push((addr, rec));
            proof {
                let s0 = old(registry).records@;
                assert(registry.records@.drop_last() =~= s0);
                assert forall|i: int, j: int|
                    0 <= i < j < registry.records@.len() implies registry.records@[i].0@
                    != registry.records@[j].0@ by {
                    if j < s0.len() {
                        assert(registry.records@[i] == s0[i]);
                        assert(registry.records@[j] == s0[j]);
                    } else {
                        assert(registry.records@[i] == s0[i]);
                        assert(s0[i].0@ != addr@);
                    }
                }
            }
            Ok(())
        },
    }
}

/// Deposit: after the authorization gates pass, invoke the external transfer
/// from the user's account into the recorded custody account, authorized by
/// the depositing user's own signature. The vault record never signs.
pub fn deposit(
    registry: &VaultRegistry,
    ledger: &mut TokenLedger,
    ctx: &Deposit,
    amount: u64,
    program_id: &Address,
) -> (r: Result<(), VaultError>)
    requires
        registry.wf(),
        old(ledger).wf(),
    ensures
        final(ledger).wf(),
        match r {
            Ok(()) => spec_deposit(registry.records@, old(ledger).accounts@, *ctx, amount, *program_id)
                == Ok::<Seq<(Address, TokenAccount)>, VaultError>(final(ledger).accounts@),
            Err(e) => spec_deposit(registry.records@, old(ledger).accounts@, *ctx, amount, *program_id)
                == Err::<Seq<(Address, TokenAccount)>, VaultError>(e)
                && final(ledger).accounts@ == old(ledger).accounts@,
        },
{
    if !ctx.user_authority_signed {
        return Err(VaultError::MissingSignature);
    }
    let rec = match registry.record_of(&ctx.vault) {
        Some(rec) => rec,
        None => {
            return Err(VaultError::DerivationMismatch);
        },
    };
    if !verify_derivation(&rec.authority, rec.bump, program_id, &ctx.vault) {
        return Err(VaultError::DerivationMismatch);
    }
    match ledger.transfer(&ctx.user_token_account, &rec.token_account, &ctx.user_authority, amount) {
        Ok(()) => Ok(()),
        Err(te) => Err(VaultError::ExternalTransferFailure(te)),
    }
}

/// Withdraw: after the authorization gates pass, reproduce the vault's derived
/// identity from the stored authority and bump, and invoke the external
/// transfer out of the recorded custody account with that identity — never the
/// human authority — as the transfer signer.
pub fn withdraw(
    registry: &VaultRegistry,
    ledger: &mut TokenLedger,
    ctx: &Withdraw,
    amount: u64,
    program_id: &Address,
) -> (r: Result<(), VaultError>)
    requires
        registry.wf(),
        old(ledger).wf(),
    ensures
        final(ledger).wf(),
        match r {
            Ok(()) => spec_withdraw(registry.records@, old(ledger).accounts@, *ctx, amount, *program_id)
                == Ok::<Seq<(Address, TokenAccount)>, VaultError>(final(ledger).accounts@),
            Err(e) => spec_withdraw(registry.records@, old(ledger).accounts@, *ctx, amount, *program_id)
                == Err::<Seq<(Address, TokenAccount)>, VaultError>(e)
                && final(ledger).accounts@ == old(ledger).accounts@,
        },
{
    if !ctx.authority_signed {
        return Err(VaultError::MissingSignature);
    }
    let rec = match registry.record_of(&ctx.vault) {
        Some(rec) => rec,
        None => {
            return Err(VaultError::DerivationMismatch);
        },
    };
    if !address_eq(&rec.authority, &ctx.authority) {
        return Err(VaultError::MissingSignature);
    }
    if !verify_derivation(&rec.authority, rec.bump, program_id, &ctx.vault) {
        return Err(VaultError::DerivationMismatch);
    }
    let authority = DerivedAuthority { owner: rec.authority, bump: rec.bump };
    let vault_signer = match authority.reproduce(program_id) {
        Some(a) => a,
        None => {
            // The derivation was verified just above, so it cannot miss here.
            return Err(VaultError::DerivationMismatch);
        },
    };
    match ledger.transfer(&rec.token_account, &ctx.user_token_account, &vault_signer, amount) {
        Ok(()) => Ok(()),
        Err(te) => Err(VaultError::ExternalTransferFailure(te)),
    }
}

} // verus!
