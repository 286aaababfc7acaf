//! The delegation variant of the swap protocol.
//!
//! The poster keeps custody of the funds being sold and grants the derived
//! swap authority a spending approval for exactly the amount sold. The swap
//! record is stored at the address derived from the poster's sell account, so
//! a second `post` with the same seed collides and is rejected. `take`
//! validates the supplied accounts against the record, spends the approval
//! under the derived authority, takes the counter-payment from the taker, and
//! deletes the record; any failure leaves the whole state unchanged.

use vstd::prelude::*;

use crate::authority::{derive_authority, spec_derive};
use crate::identity::{id_bytes, Identity};
use crate::table::Table;
use crate::token::{Approval, Ledger, TokenAccount, TokenError};

verus! {

/// The persisted swap record: the authoritative, immutable terms of one swap.
#[derive(Clone, Copy, PartialEq, Eq, Structural, Debug)]
pub struct SwapInfo {
    /// Set on the first successful `post`; a record whose flag is cleared is
    /// equivalent to one that does not exist.
    pub is_initialized: bool,
    /// The identity that created the swap.
    pub poster: Identity,
    /// The poster's token account funds are drawn from on `take`.
    pub poster_sell_account: Identity,
    /// The poster's destination account for the counter-payment.
    pub poster_buy_account: Identity,
    /// Exactly this much is sold; fixed at creation.
    pub poster_sell_amount: u64,
    /// Exactly this much is bought; fixed at creation.
    pub poster_buy_amount: u64,
}

/// The account references handed to `initialize_swap`.
#[derive(Clone, Copy, PartialEq, Eq, Structural, Debug)]
pub struct PostSwap {
    /// The signer posting the swap.
    pub poster: Identity,
    /// The poster's token account holding the asset sold.
    pub sell_from: Identity,
    /// The poster's destination account for the asset bought.
    pub buy_to: Identity,
    /// The record address; must equal the address derived from `sell_from`.
    pub swap_info: Identity,
}

/// The account references handed to `take_swap`.
#[derive(Clone, Copy, PartialEq, Eq, Structural, Debug)]
pub struct TakeSwap {
    /// The signer taking the swap.
    pub taker: Identity,
    /// The taker's token account the counter-payment is drawn from.
    pub taker_sell_from: Identity,
    /// The taker's destination account for the asset bought.
    pub taker_buy_to: Identity,
    /// The swap record address.
    pub swap_info: Identity,
    /// Must equal the record's `poster_sell_account`.
    pub poster_sell_from: Identity,
    /// Must equal the record's `poster_buy_account`.
    pub poster_buy_to: Identity,
}

/// Why an operation of the delegation variant failed. Every failure leaves
/// the state exactly as it was.
#[derive(Clone, Copy, PartialEq, Eq, Structural, Debug)]
pub enum DelegateError {
    /// `post` on a record that is already live.
    AlreadyInitialized,
    /// A referenced record or token account does not exist.
    NotFound,
    /// A supplied account does not match the stored references.
    TermsMismatch,
    /// A signer, derived address, bump, or spending approval does not match.
    AuthorityMismatch,
    /// The transfer service rejected the move for lack of funds or because
    /// the destination cannot hold the result.
    InsufficientFunds,
    /// The spend exceeds what the stored approval still covers.
    InsufficientApproval,
    /// Address derivation found no viable bump for the seed.
    InvalidSeed,
}

/// The mathematical state of the delegation program: the program identity,
/// the token ledger, and the record store keyed by derived address.
pub struct DelegateView {
    pub program: Identity,
    pub ledger: Map<Identity, TokenAccount>,
    pub records: Map<Identity, SwapInfo>,
}

/// A record is live when it exists and its flag is set.
pub open spec fn live_record(records: Map<Identity, SwapInfo>, k: Identity) -> bool {
    records.contains_key(k) && records[k].is_initialized
}

/// The outcome of `post`: the full success/failure verdict and the next state.
pub open spec fn spec_post(
    s: DelegateView,
    a: PostSwap,
    sell_amount: u64,
    buy_amount: u64,
) -> Result<DelegateView, DelegateError> {
    match spec_derive(id_bytes(a.sell_from), s.program) {
        None => Err(DelegateError::InvalidSeed),
        Some(d) => {
            if a.swap_info != d.0 {
                Err(DelegateError::AuthorityMismatch)
            } else if !s.ledger.contains_key(a.sell_from) || !s.ledger.contains_key(a.buy_to) {
                Err(DelegateError::NotFound)
            } else if s.ledger[a.sell_from].owner != a.poster {
                Err(DelegateError::AuthorityMismatch)
            } else if live_record(s.records, a.swap_info) {
                Err(DelegateError::AlreadyInitialized)
            } else {
                let record = SwapInfo {
                    is_initialized: true,
                    poster: a.poster,
                    poster_sell_account: a.sell_from,
                    poster_buy_account: a.buy_to,
                    poster_sell_amount: sell_amount,
                    poster_buy_amount: buy_amount,
                };
                match crate::token::spec_approve(s.ledger, a.sell_from, a.poster, a.swap_info, sell_amount) {
                    Ok(m) => Ok(DelegateView {
                        program: s.program,
                        ledger: m,
                        records: s.records.insert(a.swap_info, record),
                    }),
                    Err(_) => Err(DelegateError::AuthorityMismatch),
                }
            }
        }
    }
}

/// The outcome of `take`: the full success/failure verdict and the next state.
pub open spec fn spec_take(s: DelegateView, a: TakeSwap, bump: u8) -> Result<DelegateView, DelegateError> {
    if !live_record(s.records, a.swap_info) {
        Err(DelegateError::NotFound)
    } else {
        let rec = s.records[a.swap_info];
        match spec_derive(id_bytes(rec.poster_sell_account), s.program) {
            None => Err(DelegateError::InvalidSeed),
            Some(d) => {
                if d.0 != a.swap_info || d.1 != bump {
                    Err(DelegateError::AuthorityMismatch)
                } else if a.poster_sell_from != rec.poster_sell_account
                    || a.poster_buy_to != rec.poster_buy_account {
                    Err(DelegateError::TermsMismatch)
                } else if !s.ledger.contains_key(a.taker_sell_from) {
                    Err(DelegateError::NotFound)
                } else if s.ledger[a.taker_sell_from].owner != a.taker {
                    Err(DelegateError::AuthorityMismatch)
                } else if !s.ledger.contains_key(a.poster_sell_from) {
                    Err(DelegateError::NotFound)
                } else if s.ledger[a.poster_sell_from].owner != rec.poster {
                    Err(DelegateError::AuthorityMismatch)
                } else if !(s.ledger[a.poster_sell_from].approval matches Approval::Granted { delegate, .. }
                    && delegate == a.swap_info) {
                    Err(DelegateError::AuthorityMismatch)
                } else {
                    match crate::token::spec_transfer(
                        s.ledger, a.poster_sell_from, a.taker_buy_to, rec.poster_sell_amount, a.swap_info,
                    ) {
                        Err(e) => Err(spec_map_token_err(e)),
                        Ok(m1) => match crate::token::spec_transfer(
                            m1, a.taker_sell_from, a.poster_buy_to, rec.poster_buy_amount, a.taker,
                        ) {
                            Err(e) => Err(spec_map_token_err(e)),
                            Ok(m2) => Ok(DelegateView {
                                program: s.program,
                                ledger: m2,
                                records: s.records.remove(a.swap_info),
                            }),
                        },
                    }
                }
            }
        }
    }
}

/// The delegation program: its identity, the token ledger, and the record
/// store keyed by derived addresses.
pub struct DelegateState {
    pub program: Identity,
    pub ledger: Ledger,
    pub records: Table<SwapInfo>,
}

impl View for DelegateState {
    type V = DelegateView;

    open spec fn view(&self) -> DelegateView {
        DelegateView { program: self.program, ledger: self.ledger@, records: self.records@ }
    }
}

impl DelegateState {
    pub open spec fn wf(&self) -> bool {
        self.ledger.wf() && self.records.wf()
    }

    /// A fresh program state with an empty ledger and no records.
    pub fn new(program: Identity) -> (r: DelegateState)
        ensures
            r.wf(),
            r@.program == program,
            r@.ledger == Map::<Identity, TokenAccount>::empty(),
            r@.records == Map::<Identity, SwapInfo>::empty(),
    {
        DelegateState { program, ledger: Ledger::new(), records: Table::new() }
    }

    /// Post a swap: record the terms at the derived address and grant the
    /// derived authority a spending approval over `sell_amount`. The whole
    /// operation succeeds or leaves the state untouched.
    pub fn initialize_swap(&mut self, a: &PostSwap, sell_amount: u64, buy_amount: u64) -> (r: Result<
        (),
        DelegateError,
    >)
        requires
            old(self).wf(),
        ensures
            final(self).wf(),
            match spec_post(old(self)@, *a, sell_amount, buy_amount) {
                Ok(v) => r == Ok::<(), DelegateError>(()) && final(self)@ == v,
                Err(e) => r == Err::<(), DelegateError>(e) && final(self)@ == old(self)@,
            },
    {
        let seed = a.sell_from.to_bytes();
        let derived = match derive_authority(&seed, &self.program) {
            None => {
                return Err(DelegateError::InvalidSeed);
            }
            Some(d) => d,
        };
        if a.swap_info != derived.0 {
            return Err(DelegateError::AuthorityMismatch);
        }
        let sell_account = match self.ledger.account(a.sell_from) {
            None => {
                return Err(DelegateError::NotFound);
            }
            Some(acct) => acct,
        };
        if !self.ledger.contains(a.buy_to) {
            return Err(DelegateError::NotFound);
        }
        if sell_account.owner != a.poster {
            return Err(DelegateError::AuthorityMismatch);
        }
        let live = match self.records.get(a.swap_info) {
            Some(rec) => rec.is_initialized,
            None => false,
        };
        if live {
            return Err(DelegateError::AlreadyInitialized);
        }
        let record = SwapInfo {
            is_initialized: true,
            poster: a.poster,
            poster_sell_account: a.sell_from,
            poster_buy_account: a.buy_to,
            poster_sell_amount: sell_amount,
            poster_buy_amount: buy_amount,
        };
        match self.ledger.approve(a.sell_from, a.poster, a.swap_info, sell_amount) {
            Ok(()) => {}
            Err(_) => {
                proof {
                    assert(false);
                }
                return Err(DelegateError::AuthorityMismatch);
            }
        }
        self.records.set(a.swap_info, record);
        Ok(())
    }

    /// Take a swap: validate the supplied accounts against the stored record,
    /// move the sold amount to the taker under the derived authority, move
    /// the bought amount to the poster under the taker's signature, and
    /// delete the record. Both transfers and the deletion are one atomic
    /// unit: any failure leaves the state untouched.
    pub fn take_swap(&mut self, a: &TakeSwap, swap_info_bump: u8) -> (r: Result<(), DelegateError>)
        requires
            old(self).wf(),
        ensures
            final(self).wf(),
            match spec_take(old(self)@, *a, swap_info_bump) {
                Ok(v) => r == Ok::<(), DelegateError>(()) && final(self)@ == v,
                Err(e) => r == Err::<(), DelegateError>(e) && final(self)@ == old(self)@,
            },
    {
        let rec = match self.records.get(a.swap_info) {
            None => {
                return Err(DelegateError::NotFound);
            }
            Some(rec) => rec,
        };
        if !rec.is_initialized {
            return Err(DelegateError::NotFound);
        }
        let seed = rec.poster_sell_account.to_bytes();
        let derived = match derive_authority(&seed, &self.program) {
            None => {
                return Err(DelegateError::InvalidSeed);
            }
            Some(d) => d,
        };
        if derived.0 != a.swap_info || derived.1 != swap_info_bump {
            return Err(DelegateError::AuthorityMismatch);
        }
        if a.poster_sell_from != rec.poster_sell_account || a.poster_buy_to != rec.poster_buy_account {
            return Err(DelegateError::TermsMismatch);
        }
        let taker_sell_account = match self.ledger.account(a.taker_sell_from) {
            None => {
                return Err(DelegateError::NotFound);
            }
            Some(acct) => acct,
        };
        if taker_sell_account.owner != a.taker {
            return Err(DelegateError::AuthorityMismatch);
        }
        let poster_sell_account = match self.ledger.account(a.poster_sell_from) {
            None => {
                return Err(DelegateError::NotFound);
            }
            Some(acct) => acct,
        };
        if poster_sell_account.owner != rec.poster {
            return Err(DelegateError::AuthorityMismatch);
        }
        let approval_held = match poster_sell_account.approval {
            Approval::Granted { delegate, .. } => delegate == a.swap_info,
            Approval::Absent => false,
        };
        if !approval_held {
            return Err(DelegateError::AuthorityMismatch);
        }
        let mut working = self.ledger.duplicate();
        match working.transfer(a.poster_sell_from, a.taker_buy_to, rec.poster_sell_amount, a.swap_info) {
            Ok(()) => {}
            Err(e) => {
                return Err(map_token_err(e));
            }
        }
        match working.transfer(a.taker_sell_from, a.poster_buy_to, rec.poster_buy_amount, a.taker) {
            Ok(()) => {}
            Err(e) => {
                return Err(map_token_err(e));
            }
        }
        self.ledger = working;
        self.records.remove(a.swap_info);
        Ok(())
    }
}

/// How a token-service rejection surfaces in the protocol's error taxonomy.
pub open spec fn spec_map_token_err(e: TokenError) -> DelegateError {
    match e {
        TokenError::AccountNotFound => DelegateError::NotFound,
        TokenError::AlreadyInUse => DelegateError::AlreadyInitialized,
        TokenError::NotAuthorized => DelegateError::AuthorityMismatch,
        TokenError::MintMismatch => DelegateError::TermsMismatch,
        TokenError::InsufficientFunds => DelegateError::InsufficientFunds,
        TokenError::InsufficientApproval => DelegateError::InsufficientApproval,
        TokenError::BalanceOverflow => DelegateError::InsufficientFunds,
    }
}

/// The payload of a delegation `post` request: the selector, then the two
/// amounts as little-endian words.
pub open spec fn spec_post_data(sell_amount: u64, buy_amount: u64) -> Seq<u8> {
    seq![crate::request::POST_SELECTOR] + crate::identity::u64_le_bytes(sell_amount)
        + crate::identity::u64_le_bytes(buy_amount)
}

/// The payload of a delegation `take` request: the selector and the bump.
pub open spec fn spec_take_data(swap_info_bump: u8) -> Seq<u8> {
    seq![crate::request::TAKE_SELECTOR, swap_info_bump]
}

/// Build the `post` request for the delegation variant: the payload and the
/// ordered account references the runtime must supply.
pub fn initialize_swap(
    poster: Identity,
    sell_from: Identity,
    buy_to: Identity,
    swap_info: Identity,
    sell_amount: u64,
    buy_amount: u64,
    program: Identity,
    token_service: Identity,
    system_allocator: Identity,
) -> (r: crate::request::Request)
    ensures
        r.program == program,
        r.data@ == spec_post_data(sell_amount, buy_amount),
        r.accounts@ == seq![
            crate::request::spec_signer(poster),
            crate::request::spec_writable(sell_from),
            crate::request::spec_readonly(buy_to),
            crate::request::spec_writable(swap_info),
            crate::request::spec_readonly(program),
            crate::request::spec_readonly(token_service),
            crate::request::spec_readonly(system_allocator),
        ],
{
    let mut data: Vec<u8> = Vec::new();
    data.push(crate::request::POST_SELECTOR);
    crate::identity::push_u64_le(&mut data, sell_amount);
    crate::identity::push_u64_le(&mut data, buy_amount);
    let mut accounts: Vec<crate::request::AccountRef> = Vec::new();
    accounts.push(crate::request::signer(poster));
    accounts.push(crate::request::writable(sell_from));
    accounts.push(crate::request::readonly(buy_to));
    accounts.push(crate::request::writable(swap_info));
    accounts.push(crate::request::readonly(program));
    accounts.push(crate::request::readonly(token_service));
    accounts.push(crate::request::readonly(system_allocator));
    proof {
        assert(data@ =~= spec_post_data(sell_amount, buy_amount));
        assert(accounts@ =~= seq![
            crate::request::spec_signer(poster),
            crate::request::spec_writable(sell_from),
            crate::request::spec_readonly(buy_to),
            crate::request::spec_writable(swap_info),
            crate::request::spec_readonly(program),
            crate::request::spec_readonly(token_service),
            crate::request::spec_readonly(system_allocator),
        ]);
    }
    crate::request::Request { program, data, accounts }
}

/// Build the `take` request for the delegation variant.
pub fn take_swap(
    taker: Identity,
    taker_sell_from: Identity,
    taker_buy_to: Identity,
    swap_info: Identity,
    swap_info_bump: u8,
    poster_sell_from: Identity,
    poster_buy_to: Identity,
    program: Identity,
    token_service: Identity,
    system_allocator: Identity,
) -> (r: crate::request::Request)
    ensures
        r.program == program,
        r.data@ == spec_take_data(swap_info_bump),
        r.accounts@ == seq![
            crate::request::spec_signer(taker),
            crate::request::spec_writable(taker_sell_from),
            crate::request::spec_writable(taker_buy_to),
            crate::request::spec_writable(swap_info),
            crate::request::spec_writable(poster_sell_from),
            crate::request::spec_writable(poster_buy_to),
            crate::request::spec_readonly(program),
            crate::request::spec_readonly(token_service),
            crate::request::spec_readonly(system_allocator),
        ],
{
    let mut data: Vec<u8> = Vec::new();
    data.push(crate::request::TAKE_SELECTOR);
    data.push(swap_info_bump);
    let mut accounts: Vec<crate::request::AccountRef> = Vec::new();
    accounts.push(crate::request::signer(taker));
    accounts.push(crate::request::writable(taker_sell_from));
    accounts.push(crate::request::writable(taker_buy_to));
    accounts.push(crate::request::writable(swap_info));
    accounts.push(crate::request::writable(poster_sell_from));
    accounts.push(crate::request::writable(poster_buy_to));
    accounts.push(crate::request::readonly(program));
    accounts.push(crate::request::readonly(token_service));
    accounts.push(crate::request::readonly(system_allocator));
    proof {
        assert(data@ =~= spec_take_data(swap_info_bump));
        assert(accounts@ =~= seq![
            crate::request::spec_signer(taker),
            crate::request::spec_writable(taker_sell_from),
            crate::request::spec_writable(taker_buy_to),
            crate::request::spec_writable(swap_info),
            crate::request::spec_writable(poster_sell_from),
            crate::request::spec_writable(poster_buy_to),
            crate::request::spec_readonly(program),
            crate::request::spec_readonly(token_service),
            crate::request::spec_readonly(system_allocator),
        ]);
    }
    crate::request::Request { program, data, accounts }
}

/// Map a token-service rejection into the protocol's error taxonomy.
fn map_token_err(e: TokenError) -> (r: DelegateError)
    ensures
        r == spec_map_token_err(e),
{
    match e {
        TokenError::AccountNotFound => DelegateError::NotFound,
        TokenError::AlreadyInUse => DelegateError::AlreadyInitialized,
        TokenError::NotAuthorized => DelegateError::AuthorityMismatch,
        TokenError::MintMismatch => DelegateError::TermsMismatch,
        TokenError::InsufficientFunds => DelegateError::InsufficientFunds,
        TokenError::InsufficientApproval => DelegateError::InsufficientApproval,
        TokenError::BalanceOverflow => DelegateError::InsufficientFunds,
    }
}

} // verus!
