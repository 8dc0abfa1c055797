use vstd::prelude::*;

use crate::keys::AccountId;
use crate::table::Table;

verus! {

/// A fungible-asset definition: its precision, its authorities, and the
/// total quantity of units created so far.
#[derive(Clone, Copy, Debug)]
pub struct TokenMint {
    pub decimals: u8,
    pub mint_authority: Option<AccountId>,
    pub freeze_authority: Option<AccountId>,
    pub supply: u64,
}

/// A holding of units of one mint, spendable only by its owner.
#[derive(Clone, Copy, Debug)]
pub struct TokenAccount {
    pub mint: AccountId,
    pub owner: AccountId,
    pub amount: u64,
}

/// The errors the asset-ledger model surfaces.
#[derive(Clone, Copy, PartialEq, Eq, Structural, Debug)]
pub enum LedgerError {
    /// The target mint or account slot is already initialized.
    AlreadyInitialized,
    /// The addressed mint does not exist.
    UnknownMint,
    /// The addressed token account does not exist.
    UnknownAccount,
    /// The token account belongs to a different mint.
    MintMismatch,
    /// The caller is not the mint's minting authority.
    AuthorityMismatch,
    /// Minting would overflow the supply or the receiving balance.
    Overflow,
}

/// A model of the asset-ledger collaborator: the mints and token accounts it
/// keeps, with the initialize-mint, initialize-account and mint-to
/// primitives the lifecycle controller consumes.
pub struct TokenLedger {
    pub mints: Table<TokenMint>,
    pub accounts: Table<TokenAccount>,
}

impl TokenLedger {
    /// Well-formed: each side keys its slots uniquely.
    pub open spec fn wf(&self) -> bool {
        &&& self.mints.wf()
        &&& self.accounts.wf()
    }

    /// An empty ledger.
    pub fn new() -> (r: Self)
        ensures
            r.wf(),
            r.mints.entries@.len() == 0,
            r.accounts.entries@.len() == 0,
            forall|k: AccountId| r.mints.lookup(k) is None,
            forall|k: AccountId| r.accounts.lookup(k) is None,
    {
        TokenLedger { mints: Table::new(), accounts: Table::new() }
    }

    /// Initializes a fresh mint with the given precision and authorities and
    /// zero supply. Fails, changing nothing, exactly when the mint slot is
    /// already initialized.
    pub fn initialize_mint(
        &mut self,
        mint: AccountId,
        decimals: u8,
        mint_authority: AccountId,
        freeze_authority: Option<AccountId>,
    ) -> (r: Result<(), LedgerError>)
        requires
            old(self).wf(),
        ensures
            final(self).wf(),
            r == Ok::<(), LedgerError>(()) <==> !old(self).mints.contains_key(mint),
            r is Err ==> r == Err::<(), LedgerError>(LedgerError::AlreadyInitialized) && *final(self)
                == *old(self),
            r is Ok ==> {
                &&& final(self).mints.entries@ == old(self).mints.entries@.push(
                    (
                        mint,
                        TokenMint {
                            decimals,
                            mint_authority: Some(mint_authority),
                            freeze_authority,
                            supply: 0,
                        },
                    ),
                )
                &&& final(self).mints.lookup(mint) == Some(
                    TokenMint {
                        decimals,
                        mint_authority: Some(mint_authority),
                        freeze_authority,
                        supply: 0,
                    },
                )
                &&& forall|k: AccountId|
                    k != mint ==> final(self).mints.lookup(k) == old(self).mints.lookup(k)
                &&& final(self).accounts == old(self).accounts
            },
    {
        if self.mints.has(mint) {
            return Err(LedgerError::AlreadyInitialized);
        }
        self.mints.insert_new(
            mint,
            TokenMint { decimals, mint_authority: Some(mint_authority), freeze_authority, supply: 0 },
        );
        Ok(())
    }

    /// Initializes a fresh token account bound to an existing mint, owned by
    /// `owner`, with zero balance. Fails, changing nothing, when the account
    /// slot is already initialized or the mint does not exist.
    pub fn initialize_account(
        &mut self,
        account: AccountId,
        mint: AccountId,
        owner: AccountId,
    ) -> (r: Result<(), LedgerError>)
        requires
            old(self).wf(),
        ensures
            final(self).wf(),
            r == Err::<(), LedgerError>(LedgerError::AlreadyInitialized) <==> old(self)
                .accounts.contains_key(account),
            r == Err::<(), LedgerError>(LedgerError::UnknownMint) <==> !old(self)
                .accounts.contains_key(account) && !old(self).mints.contains_key(mint),
            r == Ok::<(), LedgerError>(()) <==> !old(self).accounts.contains_key(account) && old(self)
                .mints.contains_key(mint),
            r is Err ==> *final(self) == *old(self),
            r is Ok ==> {
                &&& final(self).accounts.entries@ == old(self).accounts.entries@.push(
                    (account, TokenAccount { mint, owner, amount: 0 }),
                )
                &&& final(self).accounts.lookup(account) == Some(
                    TokenAccount { mint, owner, amount: 0 },
                )
                &&& forall|k: AccountId|
                    k != account ==> final(self).accounts.lookup(k) == old(self).accounts.lookup(k)
                &&& final(self).mints == old(self).mints
            },
    {
        if self.accounts.has(account) {
            return Err(LedgerError::AlreadyInitialized);
        }
        if !self.mints.has(mint) {
            return Err(LedgerError::UnknownMint);
        }
        self.accounts.insert_new(account, TokenAccount { mint, owner, amount: 0 });
        Ok(())
    }

    /// Creates `amount` fresh units of `mint` in account `to`, authorized by
    /// the mint's minting authority: the supply and the receiving balance
    /// each grow by exactly `amount`, and nothing else changes. Fails,
    /// changing nothing, when the mint or account is missing, the account
    /// belongs to another mint, the authority is wrong, or either sum would
    /// overflow.
    pub fn mint_to(
        &mut self,
        mint: AccountId,
        to: AccountId,
        authority: AccountId,
        amount: u64,
    ) -> (r: Result<(), LedgerError>)
        requires
            old(self).wf(),
        ensures
            final(self).wf(),
            r == Err::<(), LedgerError>(LedgerError::UnknownMint) <==> old(self).mints.lookup(mint)
                is None,
            r == Err::<(), LedgerError>(LedgerError::UnknownAccount) <==> old(self).mints.lookup(
                mint,
            ) is Some && old(self).accounts.lookup(to) is None,
            r == Err::<(), LedgerError>(LedgerError::MintMismatch) <==> match (
                old(self).mints.lookup(mint),
                old(self).accounts.lookup(to),
            ) {
                (Some(m), Some(a)) => a.mint != mint,
                _ => false,
            },
            r == Err::<(), LedgerError>(LedgerError::AuthorityMismatch) <==> match (
                old(self).mints.lookup(mint),
                old(self).accounts.lookup(to),
            ) {
                (Some(m), Some(a)) => a.mint == mint && m.mint_authority != Some(authority),
                _ => false,
            },
            r == Err::<(), LedgerError>(LedgerError::Overflow) <==> match (
                old(self).mints.lookup(mint),
                old(self).accounts.lookup(to),
            ) {
                (Some(m), Some(a)) => a.mint == mint && m.mint_authority == Some(authority) && (
                m.supply + amount > u64::MAX || a.amount + amount > u64::MAX),
                _ => false,
            },
            r == Ok::<(), LedgerError>(()) <==> match (
                old(self).mints.lookup(mint),
                old(self).accounts.lookup(to),
            ) {
                (Some(m), Some(a)) => a.mint == mint && m.mint_authority == Some(authority)
                    && m.supply + amount <= u64::MAX && a.amount + amount <= u64::MAX,
                _ => false,
            },
            r is Err ==> *final(self) == *old(self),
            r is Ok ==> {
                &&& old(self).mints.lookup(mint) matches Some(m) && final(self).mints.lookup(mint)
                    == Some(TokenMint { supply: (m.supply + amount) as u64, ..m })
                &&& old(self).accounts.lookup(to) matches Some(a) && final(self).accounts.lookup(
                    to,
                ) == Some(TokenAccount { amount: (a.amount + amount) as u64, ..a })
                &&& forall|k: AccountId|
                    k != mint ==> final(self).mints.lookup(k) == old(self).mints.lookup(k)
                &&& forall|k: AccountId|
                    k != to ==> final(self).accounts.lookup(k) == old(self).accounts.lookup(k)
                &&& final(self).mints.entries@.len() == old(self).mints.entries@.len()
                &&& final(self).accounts.entries@.len() == old(self).accounts.entries@.len()
            },
    {
        let mi = match self.mints.index_of(mint) {
            Some(i) => i,
            None => {
                return Err(LedgerError::UnknownMint);
            },
        };
        let ai = match self.accounts.index_of(to) {
            Some(i) => i,
            None => {
                return Err(LedgerError::UnknownAccount);
            },
        };
        let m = self.mints.entries[mi].1;
        let a = self.accounts.entries[ai].1;
        if a.mint != mint {
            return Err(LedgerError::MintMismatch);
        }
        let authority_ok = match m.mint_authority {
            Some(auth) => auth == authority,
            None => false,
        };
        if !authority_ok {
            return Err(LedgerError::AuthorityMismatch);
        }
        if amount > u64::MAX - m.supply || amount > u64::MAX - a.amount {
            return Err(LedgerError::Overflow);
        }
        self.mints.replace_at(mi, TokenMint { supply: m.supply + amount, ..m });
        self.accounts.replace_at(ai, TokenAccount { amount: a.amount + amount, ..a });
        Ok(())
    }
}

} // verus!
