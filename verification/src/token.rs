//! The model of the token-transfer service: accounts, balances, approvals.
//!
//! The protocol moves funds by calling a token service that keeps one account
//! per address. This module models that service: an account records its asset
//! kind (mint), its owner, its balance, and at most one spending approval.
//! A transfer debits the source and credits the destination sequentially, so
//! a transfer from an account to itself leaves its balance unchanged.

use vstd::prelude::*;

use crate::identity::Identity;
use crate::table::Table;

verus! {

/// A spending approval on a token account: at most one delegate may spend up
/// to the approved amount out of the account.
#[derive(Clone, Copy, PartialEq, Eq, Structural, Debug)]
pub enum Approval {
    Absent,
    Granted { delegate: Identity, amount: u64 },
}

/// A token account.
#[derive(Clone, Copy, PartialEq, Eq, Structural, Debug)]
pub struct TokenAccount {
    /// The asset this account holds.
    pub mint: Identity,
    /// The identity allowed to spend from the account directly.
    pub owner: Identity,
    pub balance: u64,
    pub approval: Approval,
}

/// Why the token service rejected an operation.
#[derive(Clone, Copy, PartialEq, Eq, Structural, Debug)]
pub enum TokenError {
    /// A named account does not exist.
    AccountNotFound,
    /// An account already exists at the address to be opened.
    AlreadyInUse,
    /// The supplied authority is neither the owner nor the approved delegate.
    NotAuthorized,
    /// Source and destination hold different assets.
    MintMismatch,
    /// The source balance is below the requested amount.
    InsufficientFunds,
    /// The spend exceeds what the approval still covers.
    InsufficientApproval,
    /// The destination balance cannot hold the result.
    BalanceOverflow,
}

/// The outcome of opening an account: fails only on an address already in use.
pub open spec fn spec_open_account(
    m: Map<Identity, TokenAccount>,
    address: Identity,
    mint: Identity,
    owner: Identity,
    balance: u64,
) -> Result<Map<Identity, TokenAccount>, TokenError> {
    if m.contains_key(address) {
        Err(TokenError::AlreadyInUse)
    } else {
        Ok(m.insert(address, TokenAccount { mint, owner, balance, approval: Approval::Absent }))
    }
}

/// The outcome of granting an approval: `authority` must own the account; the
/// new approval replaces any earlier one.
pub open spec fn spec_approve(
    m: Map<Identity, TokenAccount>,
    account: Identity,
    authority: Identity,
    delegate: Identity,
    amount: u64,
) -> Result<Map<Identity, TokenAccount>, TokenError> {
    if !m.contains_key(account) {
        Err(TokenError::AccountNotFound)
    } else if m[account].owner != authority {
        Err(TokenError::NotAuthorized)
    } else {
        Ok(m.insert(account, TokenAccount {
            approval: Approval::Granted { delegate, amount },
            ..m[account]
        }))
    }
}

/// The outcome of a transfer. The approval path is taken whenever the
/// authority equals the approved delegate, and the spend is deducted from the
/// approved amount; otherwise the authority must be the owner. The source is
/// debited before the destination is credited, so a self-transfer leaves the
/// balance unchanged and cannot overflow.
pub open spec fn spec_transfer(
    m: Map<Identity, TokenAccount>,
    from: Identity,
    to: Identity,
    amount: u64,
    authority: Identity,
) -> Result<Map<Identity, TokenAccount>, TokenError> {
    if !m.contains_key(from) || !m.contains_key(to) {
        Err(TokenError::AccountNotFound)
    } else if m[from].mint != m[to].mint {
        Err(TokenError::MintMismatch)
    } else {
        let f = m[from];
        let by_approval = f.approval matches Approval::Granted { delegate, .. } && delegate == authority;
        if !by_approval && f.owner != authority {
            Err(TokenError::NotAuthorized)
        } else if by_approval && spec_approved_amount(f.approval) < amount {
            Err(TokenError::InsufficientApproval)
        } else if f.balance < amount {
            Err(TokenError::InsufficientFunds)
        } else if from != to && m[to].balance + amount > u64::MAX {
            Err(TokenError::BalanceOverflow)
        } else {
            let approval2 = if by_approval {
                Approval::Granted {
                    delegate: authority,
                    amount: (spec_approved_amount(f.approval) - amount) as u64,
                }
            } else {
                f.approval
            };
            let m1 = m.insert(from, TokenAccount {
                balance: (f.balance - amount) as u64,
                approval: approval2,
                ..f
            });
            let t = m1[to];
            Ok(m1.insert(to, TokenAccount { balance: (t.balance + amount) as u64, ..t }))
        }
    }
}

/// The amount an approval still covers.
pub open spec fn spec_approved_amount(a: Approval) -> u64 {
    match a {
        Approval::Absent => 0,
        Approval::Granted { amount, .. } => amount,
    }
}

/// The model ledger: one token account per address.
pub struct Ledger {
    accounts: Table<TokenAccount>,
}

impl View for Ledger {
    type V = Map<Identity, TokenAccount>;

    closed spec fn view(&self) -> Map<Identity, TokenAccount> {
        self.accounts@
    }
}

impl Ledger {
    /// The underlying table is well-formed.
    pub closed spec fn wf(&self) -> bool {
        self.accounts.wf()
    }

    /// An empty ledger.
    pub fn new() -> (r: Ledger)
        ensures
            r.wf(),
            r@ == Map::<Identity, TokenAccount>::empty(),
    {
        Ledger { accounts: Table::new() }
    }

    /// The account at an address, if any.
    pub fn account(&self, address: Identity) -> (r: Option<TokenAccount>)
        requires
            self.wf(),
        ensures
            match r {
                Some(a) => self@.contains_key(address) && a == self@[address],
                None => !self@.contains_key(address),
            },
    {
        self.accounts.get(address)
    }

    /// Whether an account exists at an address.
    pub fn contains(&self, address: Identity) -> (r: bool)
        requires
            self.wf(),
        ensures
            r == self@.contains_key(address),
    {
        self.accounts.contains(address)
    }

    /// The balance at an address, if an account exists there.
    pub fn balance_of(&self, address: Identity) -> (r: Option<u64>)
        requires
            self.wf(),
        ensures
            match r {
                Some(b) => self@.contains_key(address) && b == self@[address].balance,
                None => !self@.contains_key(address),
            },
    {
        match self.accounts.get(address) {
            Some(a) => Some(a.balance),
            None => None,
        }
    }

    /// Open an account with an initial balance.
    pub fn open_account(
        &mut self,
        address: Identity,
        mint: Identity,
        owner: Identity,
        balance: u64,
    ) -> (r: Result<(), TokenError>)
        requires
            old(self).wf(),
        ensures
            final(self).wf(),
            match spec_open_account(old(self)@, address, mint, owner, balance) {
                Ok(m) => r == Ok::<(), TokenError>(()) && final(self)@ == m,
                Err(e) => r == Err::<(), TokenError>(e) && final(self)@ == old(self)@,
            },
    {
        if self.accounts.contains(address) {
            return Err(TokenError::AlreadyInUse);
        }
        self.accounts.set(address, TokenAccount { mint, owner, balance, approval: Approval::Absent });
        Ok(())
    }

    /// Grant a spending approval, signed by the account's owner.
    pub fn approve(
        &mut self,
        account: Identity,
        authority: Identity,
        delegate: Identity,
        amount: u64,
    ) -> (r: Result<(), TokenError>)
        requires
            old(self).wf(),
        ensures
            final(self).wf(),
            match spec_approve(old(self)@, account, authority, delegate, amount) {
                Ok(m) => r == Ok::<(), TokenError>(()) && final(self)@ == m,
                Err(e) => r == Err::<(), TokenError>(e) && final(self)@ == old(self)@,
            },
    {
        let acct = match self.accounts.get(account) {
            None => {
                return Err(TokenError::AccountNotFound);
            }
            Some(a) => a,
        };
        if acct.owner != authority {
            return Err(TokenError::NotAuthorized);
        }
        self.accounts.set(account, TokenAccount {
            approval: Approval::Granted { delegate, amount },
            ..acct
        });
        Ok(())
    }

    /// Move `amount` from `from` to `to` on the supplied authority.
    pub fn transfer(
        &mut self,
        from: Identity,
        to: Identity,
        amount: u64,
        authority: Identity,
    ) -> (r: Result<(), TokenError>)
        requires
            old(self).wf(),
        ensures
            final(self).wf(),
            match spec_transfer(old(self)@, from, to, amount, authority) {
                Ok(m) => r == Ok::<(), TokenError>(()) && final(self)@ == m,
                Err(e) => r == Err::<(), TokenError>(e) && final(self)@ == old(self)@,
            },
    {
        let f = match self.accounts.get(from) {
            None => {
                return Err(TokenError::AccountNotFound);
            }
            Some(a) => a,
        };
        let t = match self.accounts.get(to) {
            None => {
                return Err(TokenError::AccountNotFound);
            }
            Some(a) => a,
        };
        if f.mint != t.mint {
            return Err(TokenError::MintMismatch);
        }
        let by_approval = match f.approval {
            Approval::Granted { delegate, .. } => delegate == authority,
            Approval::Absent => false,
        };
        if !by_approval && f.owner != authority {
            return Err(TokenError::NotAuthorized);
        }
        let approved = match f.approval {
            Approval::Granted { amount: a, .. } => a,
            Approval::Absent => 0,
        };
        if by_approval && approved < amount {
            return Err(TokenError::InsufficientApproval);
        }
        if f.balance < amount {
            return Err(TokenError::InsufficientFunds);
        }
        if from != to && t.balance > u64::MAX - amount {
            return Err(TokenError::BalanceOverflow);
        }
        let approval2 = if by_approval {
            Approval::Granted { delegate: authority, amount: approved - amount }
        } else {
            f.approval
        };
        self.accounts.set(from, TokenAccount {
            balance: f.balance - amount,
            approval: approval2,
            ..f
        });
        let t1 = match self.accounts.get(to) {
            None => {
                proof {
                    assert(false);
                }
                return Err(TokenError::AccountNotFound);
            }
            Some(a) => a,
        };
        self.accounts.set(to, TokenAccount { balance: t1.balance + amount, ..t1 });
        Ok(())
    }

    /// Remove the account at an address, reclaiming its storage.
    pub(crate) fn close_account(&mut self, address: Identity)
        requires
            old(self).wf(),
        ensures
            final(self).wf(),
            final(self)@ == old(self)@.remove(address),
    {
        self.accounts.remove(address);
    }

    /// A copy of the ledger.
    pub fn duplicate(&self) -> (r: Ledger)
        requires
            self.wf(),
        ensures
            r.wf(),
            r@ == self@,
    {
        Ledger { accounts: self.accounts.duplicate() }
    }
}

} // verus!
