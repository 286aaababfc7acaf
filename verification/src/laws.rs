//! The protocol's guarantees, stated and proved over the transition specs.
//!
//! Each law quantifies over all states and inputs; the scenarios the laws
//! describe are also exercised on concrete values by the test suite.

use vstd::prelude::*;

use crate::authority::spec_derive;
use crate::delegate;
use crate::escrow;
use crate::identity::id_bytes;
use crate::token::Approval;

verus! {

/// Delegation variant: posting a swap and immediately taking it with
/// correctly matching counter-accounts succeeds, decreases the poster's sell
/// balance by `sell_amount`, increases the poster's buy balance by
/// `buy_amount`, decreases the taker's sell balance by `buy_amount`,
/// increases the taker's buy balance by `sell_amount`, and removes the
/// record.
pub proof fn lemma_delegate_post_then_take(
    s0: delegate::DelegateView,
    a: delegate::PostSwap,
    t: delegate::TakeSwap,
    sell_amount: u64,
    buy_amount: u64,
    bump: u8,
)
    requires
        t.swap_info == a.swap_info,
        t.poster_sell_from == a.sell_from,
        t.poster_buy_to == a.buy_to,
        a.sell_from != a.buy_to,
        t.taker_sell_from != a.sell_from,
        t.taker_sell_from != a.buy_to,
        t.taker_buy_to != a.sell_from,
        t.taker_buy_to != a.buy_to,
        t.taker_sell_from != t.taker_buy_to,
    ensures
        ({
            let good = {
                &&& spec_derive(id_bytes(a.sell_from), s0.program) == Some((a.swap_info, bump))
                &&& s0.ledger.contains_key(a.sell_from)
                &&& s0.ledger.contains_key(a.buy_to)
                &&& s0.ledger.contains_key(t.taker_sell_from)
                &&& s0.ledger.contains_key(t.taker_buy_to)
                &&& s0.ledger[a.sell_from].owner == a.poster
                &&& s0.ledger[t.taker_sell_from].owner == t.taker
                &&& !(s0.ledger[t.taker_sell_from].approval matches Approval::Granted { delegate, .. }
                    && delegate == t.taker)
                &&& !delegate::live_record(s0.records, a.swap_info)
                &&& s0.ledger[a.sell_from].mint == s0.ledger[t.taker_buy_to].mint
                &&& s0.ledger[t.taker_sell_from].mint == s0.ledger[a.buy_to].mint
                &&& s0.ledger[a.sell_from].balance >= sell_amount
                &&& s0.ledger[t.taker_sell_from].balance >= buy_amount
                &&& s0.ledger[t.taker_buy_to].balance + sell_amount <= u64::MAX
                &&& s0.ledger[a.buy_to].balance + buy_amount <= u64::MAX
            };
            good ==> {
                &&& delegate::spec_post(s0, a, sell_amount, buy_amount) matches Ok(s1)
                    && delegate::spec_take(s1, t, bump) matches Ok(s2)
                    && s2.ledger[a.sell_from].balance == s0.ledger[a.sell_from].balance - sell_amount
                    && s2.ledger[a.buy_to].balance == s0.ledger[a.buy_to].balance + buy_amount
                    && s2.ledger[t.taker_sell_from].balance == s0.ledger[t.taker_sell_from].balance
                        - buy_amount
                    && s2.ledger[t.taker_buy_to].balance == s0.ledger[t.taker_buy_to].balance
                        + sell_amount
                    && !s2.records.contains_key(a.swap_info)
            }
        }),
{
    let ld = s0.ledger;
    if spec_derive(id_bytes(a.sell_from), s0.program) == Some((a.swap_info, bump))
        && ld.contains_key(a.sell_from) && ld.contains_key(a.buy_to)
        && ld.contains_key(t.taker_sell_from) && ld.contains_key(t.taker_buy_to)
        && ld[a.sell_from].owner == a.poster && ld[t.taker_sell_from].owner == t.taker
        && !(ld[t.taker_sell_from].approval matches Approval::Granted { delegate, .. }
            && delegate == t.taker)
        && !delegate::live_record(s0.records, a.swap_info)
        && ld[a.sell_from].mint == ld[t.taker_buy_to].mint
        && ld[t.taker_sell_from].mint == ld[a.buy_to].mint
        && ld[a.sell_from].balance >= sell_amount
        && ld[t.taker_sell_from].balance >= buy_amount
        && ld[t.taker_buy_to].balance + sell_amount <= u64::MAX
        && ld[a.buy_to].balance + buy_amount <= u64::MAX {
        let r1 = delegate::spec_post(s0, a, sell_amount, buy_amount);
        assert(crate::token::spec_approve(ld, a.sell_from, a.poster, a.swap_info, sell_amount) is Ok);
        assert(r1 is Ok);
        let s1 = r1->Ok_0;
        // After the post: the approval is in place and nothing else changed.
        assert(s1.ledger[a.sell_from].approval == Approval::Granted {
            delegate: a.swap_info,
            amount: sell_amount,
        });
        assert(s1.ledger[a.sell_from].balance == ld[a.sell_from].balance);
        assert(s1.ledger[a.buy_to] == ld[a.buy_to]);
        assert(s1.ledger[t.taker_sell_from] == ld[t.taker_sell_from]);
        assert(s1.ledger[t.taker_buy_to] == ld[t.taker_buy_to]);
        assert(delegate::live_record(s1.records, t.swap_info));
        let rec = s1.records[t.swap_info];
        assert(rec.poster_sell_account == a.sell_from && rec.poster_buy_account == a.buy_to);
        assert(rec.poster_sell_amount == sell_amount && rec.poster_buy_amount == buy_amount);
        // First leg: the approval is spent under the derived authority.
        let r_t1 = crate::token::spec_transfer(
            s1.ledger, t.poster_sell_from, t.taker_buy_to, rec.poster_sell_amount, t.swap_info,
        );
        assert(r_t1 is Ok);
        let m1 = r_t1->Ok_0;
        assert(m1[a.sell_from].balance == ld[a.sell_from].balance - sell_amount);
        assert(m1[t.taker_buy_to].balance == ld[t.taker_buy_to].balance + sell_amount);
        assert(m1[t.taker_sell_from] == ld[t.taker_sell_from]);
        assert(m1[a.buy_to] == ld[a.buy_to]);
        // Second leg: the taker pays the poster under the taker's signature.
        let r_t2 = crate::token::spec_transfer(
            m1, t.taker_sell_from, t.poster_buy_to, rec.poster_buy_amount, t.taker,
        );
        assert(r_t2 is Ok);
        let m2 = r_t2->Ok_0;
        assert(m2[t.taker_sell_from].balance == ld[t.taker_sell_from].balance - buy_amount);
        assert(m2[a.buy_to].balance == ld[a.buy_to].balance + buy_amount);
        assert(m2[a.sell_from].balance == ld[a.sell_from].balance - sell_amount);
        assert(m2[t.taker_buy_to].balance == ld[t.taker_buy_to].balance + sell_amount);
        let r2 = delegate::spec_take(s1, t, bump);
        assert(r2 is Ok);
    }
}

/// Delegation variant: a second `post` against the same derived address,
/// with any amounts, fails with `AlreadyInitialized`, and the record keeps
/// the terms of the first call.
pub proof fn lemma_delegate_repost_fails(
    s0: delegate::DelegateView,
    a: delegate::PostSwap,
    sell1: u64,
    buy1: u64,
    sell2: u64,
    buy2: u64,
)
    ensures
        delegate::spec_post(s0, a, sell1, buy1) matches Ok(s1) ==> {
            &&& delegate::spec_post(s1, a, sell2, buy2)
                == Err::<delegate::DelegateView, delegate::DelegateError>(
                    delegate::DelegateError::AlreadyInitialized,
                )
            &&& s1.records[a.swap_info].poster_sell_amount == sell1
            &&& s1.records[a.swap_info].poster_buy_amount == buy1
            &&& s1.records[a.swap_info].poster_sell_account == a.sell_from
            &&& s1.records[a.swap_info].poster_buy_account == a.buy_to
        },
{
}

/// Delegation variant: `take` against an address that holds no live record
/// fails with `NotFound`.
pub proof fn lemma_delegate_take_missing(s: delegate::DelegateView, t: delegate::TakeSwap, bump: u8)
    ensures
        !delegate::live_record(s.records, t.swap_info) ==> delegate::spec_take(s, t, bump)
            == Err::<delegate::DelegateView, delegate::DelegateError>(delegate::DelegateError::NotFound),
{
}

/// Delegation variant: after a successful `take`, any further `take` against
/// the same record address fails with `NotFound` — no swap executes twice.
pub proof fn lemma_delegate_take_twice(
    s: delegate::DelegateView,
    t: delegate::TakeSwap,
    bump: u8,
    t2: delegate::TakeSwap,
    bump2: u8,
)
    requires
        t2.swap_info == t.swap_info,
    ensures
        delegate::spec_take(s, t, bump) matches Ok(s2) ==> delegate::spec_take(s2, t2, bump2)
            == Err::<delegate::DelegateView, delegate::DelegateError>(delegate::DelegateError::NotFound),
{
}

/// Delegation variant: `take` that supplies a poster buy account other than
/// the stored one fails with `TermsMismatch`.
pub proof fn lemma_delegate_take_wrong_buy_account(
    s: delegate::DelegateView,
    t: delegate::TakeSwap,
    bump: u8,
)
    ensures
        ({
            &&& delegate::live_record(s.records, t.swap_info)
            &&& spec_derive(id_bytes(s.records[t.swap_info].poster_sell_account), s.program)
                == Some((t.swap_info, bump))
            &&& t.poster_buy_to != s.records[t.swap_info].poster_buy_account
        }) ==> delegate::spec_take(s, t, bump)
            == Err::<delegate::DelegateView, delegate::DelegateError>(
                delegate::DelegateError::TermsMismatch,
            ),
{
}

/// Escrow variant: posting a swap moves the sold amount into the holding
/// account; immediately taking it with correctly matching counter-accounts
/// succeeds, settles both legs, and removes both the record and the holding
/// account. Net effect: the poster's sell balance is down by `sell_amount`,
/// the poster's buy balance up by `buy_amount`, the taker's sell balance
/// down by `buy_amount`, the taker's buy balance up by `sell_amount`.
pub proof fn lemma_escrow_post_then_take(
    s0: escrow::EscrowView,
    a: escrow::PostSwap,
    t: escrow::TakeSwap,
    swap_seed: Seq<u8>,
    sell_amount: u64,
    buy_amount: u64,
)
    requires
        t.swap_info == a.swap_info,
        t.escrow == a.escrow,
        t.poster_buy_to == a.buy_to,
        a.sell_from != a.buy_to,
        t.taker_sell_from != a.sell_from,
        t.taker_sell_from != a.buy_to,
        t.taker_buy_to != a.sell_from,
        t.taker_buy_to != a.buy_to,
        t.taker_sell_from != t.taker_buy_to,
    ensures
        ({
            let good = {
                &&& spec_derive(swap_seed, s0.program) matches Some(d1) && d1.0 == a.swap_info
                &&& spec_derive(id_bytes(a.swap_info), s0.program) matches Some(d2) && d2.0 == a.escrow
                &&& s0.ledger.contains_key(a.sell_from)
                &&& s0.ledger.contains_key(a.buy_to)
                &&& s0.ledger.contains_key(t.taker_sell_from)
                &&& s0.ledger.contains_key(t.taker_buy_to)
                &&& !s0.ledger.contains_key(a.escrow)
                &&& s0.ledger[a.sell_from].owner == a.poster
                &&& !(s0.ledger[a.sell_from].approval matches Approval::Granted { delegate, .. }
                    && delegate == a.poster)
                &&& s0.ledger[t.taker_sell_from].owner == t.taker
                &&& !(s0.ledger[t.taker_sell_from].approval matches Approval::Granted { delegate, .. }
                    && delegate == t.taker)
                &&& !escrow::live_record(s0.records, a.swap_info)
                &&& s0.ledger[a.sell_from].mint == a.mint
                &&& s0.ledger[t.taker_buy_to].mint == a.mint
                &&& s0.ledger[t.taker_sell_from].mint == s0.ledger[a.buy_to].mint
                &&& s0.ledger[a.sell_from].balance >= sell_amount
                &&& s0.ledger[t.taker_sell_from].balance >= buy_amount
                &&& s0.ledger[t.taker_buy_to].balance + sell_amount <= u64::MAX
                &&& s0.ledger[a.buy_to].balance + buy_amount <= u64::MAX
            };
            good ==> (escrow::spec_post(s0, a, swap_seed, sell_amount, buy_amount) matches Ok(s1)
                && (s1.ledger[a.escrow].balance == sell_amount
                    && s1.ledger[a.sell_from].balance == s0.ledger[a.sell_from].balance - sell_amount
                    && escrow::live_record(s1.records, a.swap_info)
                    && s1.records[a.swap_info].poster_sell_amount == sell_amount
                    && s1.records[a.swap_info].poster_buy_amount == buy_amount
                    && (escrow::spec_take(s1, t) matches Ok(s2)
                        && (s2.ledger[a.sell_from].balance == s0.ledger[a.sell_from].balance
                            - sell_amount
                            && s2.ledger[a.buy_to].balance == s0.ledger[a.buy_to].balance + buy_amount
                            && s2.ledger[t.taker_sell_from].balance
                                == s0.ledger[t.taker_sell_from].balance - buy_amount
                            && s2.ledger[t.taker_buy_to].balance
                                == s0.ledger[t.taker_buy_to].balance + sell_amount
                            && !s2.records.contains_key(a.swap_info)
                            && !s2.ledger.contains_key(a.escrow)))))
        }),
{
    let ld = s0.ledger;
    if (spec_derive(swap_seed, s0.program) matches Some(d1) && d1.0 == a.swap_info)
        && (spec_derive(id_bytes(a.swap_info), s0.program) matches Some(d2) && d2.0 == a.escrow)
        && ld.contains_key(a.sell_from) && ld.contains_key(a.buy_to)
        && ld.contains_key(t.taker_sell_from) && ld.contains_key(t.taker_buy_to)
        && !ld.contains_key(a.escrow)
        && ld[a.sell_from].owner == a.poster
        && !(ld[a.sell_from].approval matches Approval::Granted { delegate, .. }
            && delegate == a.poster)
        && ld[t.taker_sell_from].owner == t.taker
        && !(ld[t.taker_sell_from].approval matches Approval::Granted { delegate, .. }
            && delegate == t.taker)
        && !escrow::live_record(s0.records, a.swap_info)
        && ld[a.sell_from].mint == a.mint
        && ld[t.taker_buy_to].mint == a.mint
        && ld[t.taker_sell_from].mint == ld[a.buy_to].mint
        && ld[a.sell_from].balance >= sell_amount
        && ld[t.taker_sell_from].balance >= buy_amount
        && ld[t.taker_buy_to].balance + sell_amount <= u64::MAX
        && ld[a.buy_to].balance + buy_amount <= u64::MAX {
        // The post: the holding account is created and funded.
        let opened = crate::token::spec_open_account(ld, a.escrow, a.mint, a.escrow, 0);
        assert(opened is Ok);
        let mo = opened->Ok_0;
        let funded = crate::token::spec_transfer(mo, a.sell_from, a.escrow, sell_amount, a.poster);
        assert(funded is Ok);
        let mp = funded->Ok_0;
        assert(mp[a.escrow].balance == sell_amount);
        assert(mp[a.escrow].owner == a.escrow);
        assert(mp[a.escrow].mint == a.mint);
        assert(mp[a.sell_from].balance == ld[a.sell_from].balance - sell_amount);
        assert(mp[a.buy_to] == ld[a.buy_to]);
        assert(mp[t.taker_sell_from] == ld[t.taker_sell_from]);
        assert(mp[t.taker_buy_to] == ld[t.taker_buy_to]);
        let r1 = escrow::spec_post(s0, a, swap_seed, sell_amount, buy_amount);
        assert(r1 is Ok);
        let s1 = r1->Ok_0;
        assert(s1.ledger == mp);
        assert(escrow::live_record(s1.records, t.swap_info));
        let rec = s1.records[t.swap_info];
        assert(rec.escrow_account == a.escrow && rec.poster_buy_account == a.buy_to);
        // First leg: the held funds are released under the derived authority.
        let r_t1 = crate::token::spec_transfer(
            mp, t.escrow, t.taker_buy_to, rec.poster_sell_amount,
            spec_derive(id_bytes(a.swap_info), s0.program)->Some_0.0,
        );
        assert(r_t1 is Ok);
        let m1 = r_t1->Ok_0;
        assert(m1[a.escrow].balance == 0);
        assert(m1[t.taker_buy_to].balance == ld[t.taker_buy_to].balance + sell_amount);
        assert(m1[t.taker_sell_from] == ld[t.taker_sell_from]);
        assert(m1[a.buy_to] == ld[a.buy_to]);
        // Second leg: the taker pays the poster under the taker's signature.
        let r_t2 = crate::token::spec_transfer(
            m1, t.taker_sell_from, t.poster_buy_to, rec.poster_buy_amount, t.taker,
        );
        assert(r_t2 is Ok);
        let m2 = r_t2->Ok_0;
        assert(m2[t.taker_sell_from].balance == ld[t.taker_sell_from].balance - buy_amount);
        assert(m2[a.buy_to].balance == ld[a.buy_to].balance + buy_amount);
        assert(m2[a.sell_from].balance == ld[a.sell_from].balance - sell_amount);
        assert(m2[t.taker_buy_to].balance == ld[t.taker_buy_to].balance + sell_amount);
        let r2 = escrow::spec_take(s1, t);
        assert(r2 is Ok);
    }
}

/// Escrow variant: a second `post` against the same seed, with any amounts,
/// fails with `AlreadyInitialized`, and the record keeps the terms of the
/// first call.
pub proof fn lemma_escrow_repost_fails(
    s0: escrow::EscrowView,
    a: escrow::PostSwap,
    swap_seed: Seq<u8>,
    sell1: u64,
    buy1: u64,
    sell2: u64,
    buy2: u64,
)
    ensures
        escrow::spec_post(s0, a, swap_seed, sell1, buy1) matches Ok(s1) ==> {
            &&& escrow::spec_post(s1, a, swap_seed, sell2, buy2)
                == Err::<escrow::EscrowView, escrow::EscrowError>(
                    escrow::EscrowError::AlreadyInitialized,
                )
            &&& s1.records[a.swap_info].poster_sell_amount == sell1
            &&& s1.records[a.swap_info].poster_buy_amount == buy1
            &&& s1.records[a.swap_info].escrow_account == a.escrow
            &&& s1.records[a.swap_info].poster_buy_account == a.buy_to
        },
{
}

/// Escrow variant: `take` against an address that holds no live record
/// fails with `NotFound`.
pub proof fn lemma_escrow_take_missing(s: escrow::EscrowView, t: escrow::TakeSwap)
    ensures
        !escrow::live_record(s.records, t.swap_info) ==> escrow::spec_take(s, t)
            == Err::<escrow::EscrowView, escrow::EscrowError>(escrow::EscrowError::NotFound),
{
}

/// Escrow variant: after a successful `take`, any further `take` against the
/// same record address fails with `NotFound` — no swap executes twice.
pub proof fn lemma_escrow_take_twice(s: escrow::EscrowView, t: escrow::TakeSwap, t2: escrow::TakeSwap)
    requires
        t2.swap_info == t.swap_info,
    ensures
        escrow::spec_take(s, t) matches Ok(s2) ==> escrow::spec_take(s2, t2)
            == Err::<escrow::EscrowView, escrow::EscrowError>(escrow::EscrowError::NotFound),
{
}

/// Escrow variant: `take` that supplies a poster buy account other than the
/// stored one fails with `TermsMismatch`.
pub proof fn lemma_escrow_take_wrong_buy_account(s: escrow::EscrowView, t: escrow::TakeSwap)
    ensures
        ({
            &&& escrow::live_record(s.records, t.swap_info)
            &&& spec_derive(id_bytes(t.swap_info), s.program) is Some
            &&& t.poster_buy_to != s.records[t.swap_info].poster_buy_account
        }) ==> escrow::spec_take(s, t)
            == Err::<escrow::EscrowView, escrow::EscrowError>(escrow::EscrowError::TermsMismatch),
{
}

} // verus!
