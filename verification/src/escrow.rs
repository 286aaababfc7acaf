//! The escrow variant of the swap protocol.
//!
//! The poster's funds are moved into a program-owned holding account whose
//! address and authority are derived from the swap record's own address (a
//! second-order derivation), so only the program's `take` path can release
//! them. The record is stored at the address derived from a poster-chosen
//! seed. `take` validates the supplied accounts against the record, releases
//! the held funds to the taker under the derived authority, takes the
//! counter-payment from the taker, and deletes both the record and the
//! now-empty holding account; any failure leaves the whole state unchanged.

use vstd::prelude::*;

use crate::authority::{derive_authority, spec_derive};
use crate::identity::{id_bytes, Identity};
use crate::table::Table;
use crate::token::{Ledger, TokenAccount, TokenError};

verus! {

/// The persisted swap record: the authoritative, immutable terms of one swap.
#[derive(Clone, Copy, PartialEq, Eq, Structural, Debug)]
pub struct SwapInfo {
    /// Set on the first successful `post`; a record whose flag is cleared is
    /// equivalent to one that does not exist.
    pub is_initialized: bool,
    /// The identity that created the swap.
    pub poster: Identity,
    /// The program-owned holding account the sold funds sit in.
    pub escrow_account: Identity,
    /// The poster's destination account for the counter-payment.
    pub poster_buy_account: Identity,
    /// Exactly this much is sold; fixed at creation.
    pub poster_sell_amount: u64,
    /// Exactly this much is bought; fixed at creation.
    pub poster_buy_amount: u64,
}

/// The account references handed to `initialize_swap`.
#[derive(Clone, Copy, PartialEq, Eq, Structural, Debug)]
pub struct PostSwap {
    /// The signer posting the swap.
    pub poster: Identity,
    /// The poster's token account holding the asset sold.
    pub sell_from: Identity,
    /// The poster's destination account for the asset bought.
    pub buy_to: Identity,
    /// The record address; must equal the address derived from the seed.
    pub swap_info: Identity,
    /// The holding account; must equal the address derived from `swap_info`.
    pub escrow: Identity,
    /// The asset sold; must equal the mint of `sell_from`.
    pub mint: Identity,
}

/// The account references handed to `take_swap`.
#[derive(Clone, Copy, PartialEq, Eq, Structural, Debug)]
pub struct TakeSwap {
    /// The signer taking the swap.
    pub taker: Identity,
    /// The taker's token account the counter-payment is drawn from.
    pub taker_sell_from: Identity,
    /// The taker's destination account for the asset bought.
    pub taker_buy_to: Identity,
    /// The swap record address.
    pub swap_info: Identity,
    /// Must equal the record's `escrow_account`.
    pub escrow: Identity,
    /// Must equal the record's `poster_buy_account`.
    pub poster_buy_to: Identity,
}

/// Why an operation of the escrow variant failed. Every failure leaves the
/// state exactly as it was.
#[derive(Clone, Copy, PartialEq, Eq, Structural, Debug)]
pub enum EscrowError {
    /// `post` on a live record, or on a holding address already in use.
    AlreadyInitialized,
    /// A referenced record or token account does not exist.
    NotFound,
    /// A supplied account does not match the stored references.
    TermsMismatch,
    /// A signer or derived authority does not match.
    AuthorityMismatch,
    /// The transfer service rejected the move for lack of funds or because
    /// the destination cannot hold the result.
    InsufficientFunds,
    /// The spend exceeds what an approval still covers.
    InsufficientApproval,
    /// Address derivation found no viable bump for the seed.
    InvalidSeed,
}

/// How a token-service rejection surfaces in the protocol's error taxonomy.
pub open spec fn spec_map_token_err(e: TokenError) -> EscrowError {
    match e {
        TokenError::AccountNotFound => EscrowError::NotFound,
        TokenError::AlreadyInUse => EscrowError::AlreadyInitialized,
        TokenError::NotAuthorized => EscrowError::AuthorityMismatch,
        TokenError::MintMismatch => EscrowError::TermsMismatch,
        TokenError::InsufficientFunds => EscrowError::InsufficientFunds,
        TokenError::InsufficientApproval => EscrowError::InsufficientApproval,
        TokenError::BalanceOverflow => EscrowError::InsufficientFunds,
    }
}

/// The mathematical state of the escrow program.
pub struct EscrowView {
    pub program: Identity,
    pub ledger: Map<Identity, TokenAccount>,
    pub records: Map<Identity, SwapInfo>,
}

/// A record is live when it exists and its flag is set.
pub open spec fn live_record(records: Map<Identity, SwapInfo>, k: Identity) -> bool {
    records.contains_key(k) && records[k].is_initialized
}

/// The outcome of `post`: the full success/failure verdict and the next state.
pub open spec fn spec_post(
    s: EscrowView,
    a: PostSwap,
    swap_seed: Seq<u8>,
    sell_amount: u64,
    buy_amount: u64,
) -> Result<EscrowView, EscrowError> {
    match spec_derive(swap_seed, s.program) {
        None => Err(EscrowError::InvalidSeed),
        Some(d1) => {
            if a.swap_info != d1.0 {
                Err(EscrowError::AuthorityMismatch)
            } else {
                match spec_derive(id_bytes(a.swap_info), s.program) {
                    None => Err(EscrowError::InvalidSeed),
                    Some(d2) => {
                        if a.escrow != d2.0 {
                            Err(EscrowError::AuthorityMismatch)
                        } else if !s.ledger.contains_key(a.sell_from) || !s.ledger.contains_key(a.buy_to) {
                            Err(EscrowError::NotFound)
                        } else if s.ledger[a.sell_from].owner != a.poster {
                            Err(EscrowError::AuthorityMismatch)
                        } else if s.ledger[a.sell_from].mint != a.mint {
                            Err(EscrowError::TermsMismatch)
                        } else if live_record(s.records, a.swap_info) {
                            Err(EscrowError::AlreadyInitialized)
                        } else {
                            let record = SwapInfo {
                                is_initialized: true,
                                poster: a.poster,
                                escrow_account: a.escrow,
                                poster_buy_account: a.buy_to,
                                poster_sell_amount: sell_amount,
                                poster_buy_amount: buy_amount,
                            };
                            match crate::token::spec_open_account(s.ledger, a.escrow, a.mint, a.escrow, 0) {
                                Err(e) => Err(spec_map_token_err(e)),
                                Ok(m1) => match crate::token::spec_transfer(
                                    m1, a.sell_from, a.escrow, sell_amount, a.poster,
                                ) {
                                    Err(e) => Err(spec_map_token_err(e)),
                                    Ok(m2) => Ok(EscrowView {
                                        program: s.program,
                                        ledger: m2,
                                        records: s.records.insert(a.swap_info, record),
                                    }),
                                },
                            }
                        }
                    }
                }
            }
        }
    }
}

/// The outcome of `take`: the full success/failure verdict and the next state.
pub open spec fn spec_take(s: EscrowView, a: TakeSwap) -> Result<EscrowView, EscrowError> {
    if !live_record(s.records, a.swap_info) {
        Err(EscrowError::NotFound)
    } else {
        let rec = s.records[a.swap_info];
        match spec_derive(id_bytes(a.swap_info), s.program) {
            None => Err(EscrowError::InvalidSeed),
            Some(d) => {
                if a.escrow != rec.escrow_account || a.poster_buy_to != rec.poster_buy_account {
                    Err(EscrowError::TermsMismatch)
                } else if !s.ledger.contains_key(a.taker_sell_from) {
                    Err(EscrowError::NotFound)
                } else if s.ledger[a.taker_sell_from].owner != a.taker {
                    Err(EscrowError::AuthorityMismatch)
                } else {
                    match crate::token::spec_transfer(
                        s.ledger, a.escrow, a.taker_buy_to, rec.poster_sell_amount, d.0,
                    ) {
                        Err(e) => Err(spec_map_token_err(e)),
                        Ok(m1) => match crate::token::spec_transfer(
                            m1, a.taker_sell_from, a.poster_buy_to, rec.poster_buy_amount, a.taker,
                        ) {
                            Err(e) => Err(spec_map_token_err(e)),
                            Ok(m2) => Ok(EscrowView {
                                program: s.program,
                                ledger: m2.remove(a.escrow),
                                records: s.records.remove(a.swap_info),
                            }),
                        },
                    }
                }
            }
        }
    }
}

/// The escrow program: its identity, the token ledger, and the record store
/// keyed by derived addresses.
pub struct EscrowState {
    pub program: Identity,
    pub ledger: Ledger,
    pub records: Table<SwapInfo>,
}

impl View for EscrowState {
    type V = EscrowView;

    open spec fn view(&self) -> EscrowView {
        EscrowView { program: self.program, ledger: self.ledger@, records: self.records@ }
    }
}

impl EscrowState {
    pub open spec fn wf(&self) -> bool {
        self.ledger.wf() && self.records.wf()
    }

    /// A fresh program state with an empty ledger and no records.
    pub fn new(program: Identity) -> (r: EscrowState)
        ensures
            r.wf(),
            r@.program == program,
            r@.ledger == Map::<Identity, TokenAccount>::empty(),
            r@.records == Map::<Identity, SwapInfo>::empty(),
    {
        EscrowState { program, ledger: Ledger::new(), records: Table::new() }
    }

    /// Post a swap: record the terms at the address derived from the seed,
    /// create the holding account at the address derived from the record
    /// address, and move exactly `sell_amount` into it. The whole operation
    /// succeeds or leaves the state untouched.
    pub fn initialize_swap(
        &mut self,
        a: &PostSwap,
        swap_seed: &Vec<u8>,
        sell_amount: u64,
        buy_amount: u64,
    ) -> (r: Result<(), EscrowError>)
        requires
            old(self).wf(),
        ensures
            final(self).wf(),
            match spec_post(old(self)@, *a, swap_seed@, sell_amount, buy_amount) {
                Ok(v) => r == Ok::<(), EscrowError>(()) && final(self)@ == v,
                Err(e) => r == Err::<(), EscrowError>(e) && final(self)@ == old(self)@,
            },
    {
        let d1 = match derive_authority(swap_seed, &self.program) {
            None => {
                return Err(EscrowError::InvalidSeed);
            }
            Some(d) => d,
        };
        if a.swap_info != d1.0 {
            return Err(EscrowError::AuthorityMismatch);
        }
        let record_seed = a.swap_info.to_bytes();
        let d2 = match derive_authority(&record_seed, &self.program) {
            None => {
                return Err(EscrowError::InvalidSeed);
            }
            Some(d) => d,
        };
        if a.escrow != d2.0 {
            return Err(EscrowError::AuthorityMismatch);
        }
        let sell_account = match self.ledger.account(a.sell_from) {
            None => {
                return Err(EscrowError::NotFound);
            }
            Some(acct) => acct,
        };
        if !self.ledger.contains(a.buy_to) {
            return Err(EscrowError::NotFound);
        }
        if sell_account.owner != a.poster {
            return Err(EscrowError::AuthorityMismatch);
        }
        if sell_account.mint != a.mint {
            return Err(EscrowError::TermsMismatch);
        }
        let live = match self.records.get(a.swap_info) {
            Some(rec) => rec.is_initialized,
            None => false,
        };
        if live {
            return Err(EscrowError::AlreadyInitialized);
        }
        let record = SwapInfo {
            is_initialized: true,
            poster: a.poster,
            escrow_account: a.escrow,
            poster_buy_account: a.buy_to,
            poster_sell_amount: sell_amount,
            poster_buy_amount: buy_amount,
        };
        let mut working = self.ledger.duplicate();
        match working.open_account(a.escrow, a.mint, a.escrow, 0) {
            Ok(()) => {}
            Err(e) => {
                return Err(map_token_err(e));
            }
        }
        match working.transfer(a.sell_from, a.escrow, sell_amount, a.poster) {
            Ok(()) => {}
            Err(e) => {
                return Err(map_token_err(e));
            }
        }
        self.ledger = working;
        self.records.set(a.swap_info, record);
        Ok(())
    }

    /// Take a swap: validate the supplied accounts against the stored record,
    /// release the held funds to the taker under the authority derived from
    /// the record address, move the bought amount to the poster under the
    /// taker's signature, and delete the record and the emptied holding
    /// account. Both transfers and the deletions are one atomic unit: any
    /// failure leaves the state untouched.
    pub fn take_swap(&mut self, a: &TakeSwap) -> (r: Result<(), EscrowError>)
        requires
            old(self).wf(),
        ensures
            final(self).wf(),
            match spec_take(old(self)@, *a) {
                Ok(v) => r == Ok::<(), EscrowError>(()) && final(self)@ == v,
                Err(e) => r == Err::<(), EscrowError>(e) && final(self)@ == old(self)@,
            },
    {
        let rec = match self.records.get(a.swap_info) {
            None => {
                return Err(EscrowError::NotFound);
            }
            Some(rec) => rec,
        };
        if !rec.is_initialized {
            return Err(EscrowError::NotFound);
        }
        let record_seed = a.swap_info.to_bytes();
        let d = match derive_authority(&record_seed, &self.program) {
            None => {
                return Err(EscrowError::InvalidSeed);
            }
            Some(d) => d,
        };
        if a.escrow != rec.escrow_account || a.poster_buy_to != rec.poster_buy_account {
            return Err(EscrowError::TermsMismatch);
        }
        let taker_sell_account = match self.ledger.account(a.taker_sell_from) {
            None => {
                return Err(EscrowError::NotFound);
            }
            Some(acct) => acct,
        };
        if taker_sell_account.owner != a.taker {
            return Err(EscrowError::AuthorityMismatch);
        }
        let mut working = self.ledger.duplicate();
        match working.transfer(a.escrow, a.taker_buy_to, rec.poster_sell_amount, d.0) {
            Ok(()) => {}
            Err(e) => {
                return Err(map_token_err(e));
            }
        }
        match working.transfer(a.taker_sell_from, a.poster_buy_to, rec.poster_buy_amount, a.taker) {
            Ok(()) => {}
            Err(e) => {
                return Err(map_token_err(e));
            }
        }
        working.close_account(a.escrow);
        self.ledger = working;
        self.records.remove(a.swap_info);
        Ok(())
    }
}

/// The payload of an escrow `post` request: the selector, the seed length
/// as a little-endian word, the raw seed bytes, then the two amounts.
pub open spec fn spec_post_data(swap_seed: Seq<u8>, sell_amount: u64, buy_amount: u64) -> Seq<u8> {
    seq![crate::request::POST_SELECTOR] + crate::identity::u64_le_bytes(swap_seed.len() as u64)
        + swap_seed + crate::identity::u64_le_bytes(sell_amount)
        + crate::identity::u64_le_bytes(buy_amount)
}

/// The payload of an escrow `take` request: the selector alone.
pub open spec fn spec_take_data() -> Seq<u8> {
    seq![crate::request::TAKE_SELECTOR]
}

/// Build the `post` request for the escrow variant: the payload and the
/// ordered account references the runtime must supply.
pub fn initialize_swap(
    poster: Identity,
    sell_from: Identity,
    buy_to: Identity,
    swap_info: Identity,
    swap_seed: &Vec<u8>,
    escrow_address: Identity,
    escrow_mint: Identity,
    sell_amount: u64,
    buy_amount: u64,
    program: Identity,
    token_service: Identity,
    system_allocator: Identity,
    rent_sysvar: Identity,
) -> (r: Result<crate::request::Request, EscrowError>)
    ensures
        r matches Ok(req) && req.program == program
            && req.data@ == spec_post_data(swap_seed@, sell_amount, buy_amount)
            && req.accounts@ == seq![
            crate::request::spec_signer(poster),
            crate::request::spec_writable(sell_from),
            crate::request::spec_readonly(buy_to),
            crate::request::spec_writable(swap_info),
            crate::request::spec_writable(escrow_address),
            crate::request::spec_readonly(escrow_mint),
            crate::request::spec_readonly(program),
            crate::request::spec_readonly(token_service),
            crate::request::spec_readonly(system_allocator),
            crate::request::spec_readonly(rent_sysvar),
        ],
{
    let mut data: Vec<u8> = Vec::new();
    data.push(crate::request::POST_SELECTOR);
    crate::identity::push_u64_le(&mut data, swap_seed.len() as u64);
    crate::request::push_bytes(&mut data, swap_seed);
    crate::identity::push_u64_le(&mut data, sell_amount);
    crate::identity::push_u64_le(&mut data, buy_amount);
    let mut accounts: Vec<crate::request::AccountRef> = Vec::new();
    accounts.push(crate::request::signer(poster));
    accounts.push(crate::request::writable(sell_from));
    accounts.push(crate::request::readonly(buy_to));
    accounts.push(crate::request::writable(swap_info));
    accounts.push(crate::request::writable(escrow_address));
    accounts.push(crate::request::readonly(escrow_mint));
    accounts.push(crate::request::readonly(program));
    accounts.push(crate::request::readonly(token_service));
    accounts.push(crate::request::readonly(system_allocator));
    accounts.push(crate::request::readonly(rent_sysvar));
    proof {
        assert(data@ =~= spec_post_data(swap_seed@, sell_amount, buy_amount));
        assert(accounts@ =~= seq![
            crate::request::spec_signer(poster),
            crate::request::spec_writable(sell_from),
            crate::request::spec_readonly(buy_to),
            crate::request::spec_writable(swap_info),
            crate::request::spec_writable(escrow_address),
            crate::request::spec_readonly(escrow_mint),
            crate::request::spec_readonly(program),
            crate::request::spec_readonly(token_service),
            crate::request::spec_readonly(system_allocator),
            crate::request::spec_readonly(rent_sysvar),
        ]);
    }
    Ok(crate::request::Request { program, data, accounts })
}

/// Build the `take` request for the escrow variant.
pub fn take_swap(
    taker: Identity,
    taker_sell_from: Identity,
    taker_buy_to: Identity,
    swap_info: Identity,
    escrow: Identity,
    poster_buy_to: Identity,
    program: Identity,
    token_service: Identity,
    system_allocator: Identity,
) -> (r: crate::request::Request)
    ensures
        r.program == program,
        r.data@ == spec_take_data(),
        r.accounts@ == seq![
            crate::request::spec_signer(taker),
            crate::request::spec_writable(taker_sell_from),
            crate::request::spec_writable(taker_buy_to),
            crate::request::spec_writable(swap_info),
            crate::request::spec_writable(escrow),
            crate::request::spec_writable(poster_buy_to),
            crate::request::spec_readonly(program),
            crate::request::spec_readonly(token_service),
            crate::request::spec_readonly(system_allocator),
        ],
{
    let mut data: Vec<u8> = Vec::new();
    data.push(crate::request::TAKE_SELECTOR);
    let mut accounts: Vec<crate::request::AccountRef> = Vec::new();
    accounts.push(crate::request::signer(taker));
    accounts.push(crate::request::writable(taker_sell_from));
    accounts.push(crate::request::writable(taker_buy_to));
    accounts.push(crate::request::writable(swap_info));
    accounts.push(crate::request::writable(escrow));
    accounts.push(crate::request::writable(poster_buy_to));
    accounts.push(crate::request::readonly(program));
    accounts.push(crate::request::readonly(token_service));
    accounts.push(crate::request::readonly(system_allocator));
    proof {
        assert(data@ =~= spec_take_data());
        assert(accounts@ =~= seq![
            crate::request::spec_signer(taker),
            crate::request::spec_writable(taker_sell_from),
            crate::request::spec_writable(taker_buy_to),
            crate::request::spec_writable(swap_info),
            crate::request::spec_writable(escrow),
            crate::request::spec_writable(poster_buy_to),
            crate::request::spec_readonly(program),
            crate::request::spec_readonly(token_service),
            crate::request::spec_readonly(system_allocator),
        ]);
    }
    crate::request::Request { program, data, accounts }
}

/// Map a token-service rejection into the protocol's error taxonomy.
fn map_token_err(e: TokenError) -> (r: EscrowError)
    ensures
        r == spec_map_token_err(e),
{
    match e {
        TokenError::AccountNotFound => EscrowError::NotFound,
        TokenError::AlreadyInUse => EscrowError::AlreadyInitialized,
        TokenError::NotAuthorized => EscrowError::AuthorityMismatch,
        TokenError::MintMismatch => EscrowError::TermsMismatch,
        TokenError::InsufficientFunds => EscrowError::InsufficientFunds,
        TokenError::InsufficientApproval => EscrowError::InsufficientApproval,
        TokenError::BalanceOverflow => EscrowError::InsufficientFunds,
    }
}

} // verus!
