use token_swap::authority::derive_authority;
use token_swap::delegate::{DelegateError, DelegateState, PostSwap, TakeSwap};
use token_swap::escrow;
use token_swap::escrow::{EscrowError, EscrowState};
use token_swap::identity::Identity;
use token_swap::token::TokenError;

fn id(n: u64) -> Identity {
    Identity { w0: n, w1: n.wrapping_mul(7), w2: n.wrapping_add(13), w3: 99 }
}

fn mint_a() -> Identity {
    Identity { w0: 1000, w1: 0, w2: 0, w3: 1 }
}

fn mint_b() -> Identity {
    Identity { w0: 2000, w1: 0, w2: 0, w3: 1 }
}

struct DelegateSetup {
    state: DelegateState,
    accounts: PostSwap,
    take: TakeSwap,
    bump: u8,
}

/// A poster with 10 units of asset A and a taker with 7 units of asset B.
fn delegate_setup() -> DelegateSetup {
    let program = id(1);
    let poster = id(2);
    let taker = id(3);
    let sell_from = id(4);
    let buy_to = id(5);
    let taker_sell_from = id(6);
    let taker_buy_to = id(7);
    let mut state = DelegateState::new(program);
    state.ledger.open_account(sell_from, mint_a(), poster, 10).unwrap();
    state.ledger.open_account(buy_to, mint_b(), poster, 0).unwrap();
    state.ledger.open_account(taker_sell_from, mint_b(), taker, 7).unwrap();
    state.ledger.open_account(taker_buy_to, mint_a(), taker, 0).unwrap();
    let (swap_info, bump) = derive_authority(&sell_from.to_bytes(), &program).unwrap();
    DelegateSetup {
        state,
        accounts: PostSwap { poster, sell_from, buy_to, swap_info },
        take: TakeSwap {
            taker,
            taker_sell_from,
            taker_buy_to,
            swap_info,
            poster_sell_from: sell_from,
            poster_buy_to: buy_to,
        },
        bump,
    }
}

#[test]
fn delegate_post_take_roundtrip() {
    let mut s = delegate_setup();
    let a = s.accounts;
    let t = s.take;
    s.state.initialize_swap(&a, 10, 7).unwrap();
    // Posting moves no funds; it only records terms and grants the approval.
    assert_eq!(s.state.ledger.balance_of(a.sell_from), Some(10));
    assert_eq!(s.state.ledger.balance_of(t.taker_sell_from), Some(7));
    let rec = s.state.records.get(a.swap_info).unwrap();
    assert!(rec.is_initialized);
    assert_eq!(rec.poster_sell_amount, 10);
    assert_eq!(rec.poster_buy_amount, 7);
    assert_eq!(rec.poster_sell_account, a.sell_from);
    assert_eq!(rec.poster_buy_account, a.buy_to);
    s.state.take_swap(&t, s.bump).unwrap();
    assert_eq!(s.state.ledger.balance_of(a.sell_from), Some(0));
    assert_eq!(s.state.ledger.balance_of(a.buy_to), Some(7));
    assert_eq!(s.state.ledger.balance_of(t.taker_sell_from), Some(0));
    assert_eq!(s.state.ledger.balance_of(t.taker_buy_to), Some(10));
    assert!(s.state.records.get(a.swap_info).is_none());
    // A second take finds nothing.
    assert_eq!(s.state.take_swap(&t, s.bump), Err(DelegateError::NotFound));
}

#[test]
fn delegate_repost_fails_and_terms_remain() {
    let mut s = delegate_setup();
    let a = s.accounts;
    s.state.initialize_swap(&a, 10, 7).unwrap();
    assert_eq!(s.state.initialize_swap(&a, 10, 7), Err(DelegateError::AlreadyInitialized));
    // Different amounts change nothing either.
    assert_eq!(s.state.initialize_swap(&a, 9, 6), Err(DelegateError::AlreadyInitialized));
    let rec = s.state.records.get(a.swap_info).unwrap();
    assert_eq!(rec.poster_sell_amount, 10);
    assert_eq!(rec.poster_buy_amount, 7);
}

#[test]
fn delegate_take_absent_record() {
    let mut s = delegate_setup();
    let t = s.take;
    let before_taker = s.state.ledger.balance_of(t.taker_sell_from);
    assert_eq!(s.state.take_swap(&t, s.bump), Err(DelegateError::NotFound));
    assert_eq!(s.state.ledger.balance_of(t.taker_sell_from), before_taker);
    assert_eq!(s.state.ledger.balance_of(s.accounts.sell_from), Some(10));
}

#[test]
fn delegate_take_wrong_buy_account() {
    let mut s = delegate_setup();
    let a = s.accounts;
    let mut t = s.take;
    s.state.initialize_swap(&a, 10, 7).unwrap();
    t.poster_buy_to = id(77);
    assert_eq!(s.state.take_swap(&t, s.bump), Err(DelegateError::TermsMismatch));
    assert_eq!(s.state.ledger.balance_of(a.sell_from), Some(10));
    assert_eq!(s.state.ledger.balance_of(s.take.taker_sell_from), Some(7));
    assert!(s.state.records.get(a.swap_info).unwrap().is_initialized);
}

#[test]
fn delegate_take_wrong_bump() {
    let mut s = delegate_setup();
    let a = s.accounts;
    s.state.initialize_swap(&a, 10, 7).unwrap();
    let bad_bump = s.bump.wrapping_add(1);
    assert_eq!(s.state.take_swap(&s.take, bad_bump), Err(DelegateError::AuthorityMismatch));
}

#[test]
fn delegate_post_wrong_record_address() {
    let mut s = delegate_setup();
    let mut a = s.accounts;
    a.swap_info = id(123);
    assert_eq!(s.state.initialize_swap(&a, 10, 7), Err(DelegateError::AuthorityMismatch));
}

#[test]
fn delegate_post_wrong_owner() {
    let mut s = delegate_setup();
    let mut a = s.accounts;
    a.poster = id(99);
    assert_eq!(s.state.initialize_swap(&a, 10, 7), Err(DelegateError::AuthorityMismatch));
}

#[test]
fn delegate_post_missing_account() {
    let mut s = delegate_setup();
    let mut a = s.accounts;
    a.buy_to = id(404);
    assert_eq!(s.state.initialize_swap(&a, 10, 7), Err(DelegateError::NotFound));
}

#[test]
fn delegate_take_revoked_approval() {
    let mut s = delegate_setup();
    let a = s.accounts;
    s.state.initialize_swap(&a, 10, 7).unwrap();
    // The poster reassigns the approval to someone else out-of-band.
    s.state.ledger.approve(a.sell_from, a.poster, id(55), 10).unwrap();
    assert_eq!(s.state.take_swap(&s.take, s.bump), Err(DelegateError::AuthorityMismatch));
}

#[test]
fn delegate_take_shrunk_approval() {
    let mut s = delegate_setup();
    let a = s.accounts;
    s.state.initialize_swap(&a, 10, 7).unwrap();
    // The approval still names the swap but covers too little.
    s.state.ledger.approve(a.sell_from, a.poster, a.swap_info, 3).unwrap();
    assert_eq!(s.state.take_swap(&s.take, s.bump), Err(DelegateError::InsufficientApproval));
}

#[test]
fn delegate_take_insufficient_funds() {
    let program = id(1);
    let poster = id(2);
    let taker = id(3);
    let sell_from = id(4);
    let buy_to = id(5);
    let taker_sell_from = id(6);
    let taker_buy_to = id(7);
    let mut state = DelegateState::new(program);
    // The poster posts more than the account holds; the delegation variant
    // moves nothing at post time, so only the take fails.
    state.ledger.open_account(sell_from, mint_a(), poster, 4).unwrap();
    state.ledger.open_account(buy_to, mint_b(), poster, 0).unwrap();
    state.ledger.open_account(taker_sell_from, mint_b(), taker, 7).unwrap();
    state.ledger.open_account(taker_buy_to, mint_a(), taker, 0).unwrap();
    let (swap_info, bump) = derive_authority(&sell_from.to_bytes(), &program).unwrap();
    let a = PostSwap { poster, sell_from, buy_to, swap_info };
    let mut state2 = state;
    state2.initialize_swap(&a, 10, 7).unwrap();
    let t = TakeSwap {
        taker,
        taker_sell_from,
        taker_buy_to,
        swap_info,
        poster_sell_from: sell_from,
        poster_buy_to: buy_to,
    };
    assert_eq!(state2.take_swap(&t, bump), Err(DelegateError::InsufficientFunds));
    // The record survives the failed take, so the swap can still be retried.
    assert!(state2.records.get(swap_info).unwrap().is_initialized);
}

struct EscrowSetup {
    state: EscrowState,
    accounts: escrow::PostSwap,
    take: escrow::TakeSwap,
    seed: Vec<u8>,
}

fn escrow_setup() -> EscrowSetup {
    let program = id(21);
    let poster = id(22);
    let taker = id(23);
    let sell_from = id(24);
    let buy_to = id(25);
    let taker_sell_from = id(26);
    let taker_buy_to = id(27);
    let mut state = EscrowState::new(program);
    state.ledger.open_account(sell_from, mint_a(), poster, 10).unwrap();
    state.ledger.open_account(buy_to, mint_b(), poster, 0).unwrap();
    state.ledger.open_account(taker_sell_from, mint_b(), taker, 7).unwrap();
    state.ledger.open_account(taker_buy_to, mint_a(), taker, 0).unwrap();
    let seed: Vec<u8> = vec![11, 22, 33, 44];
    let (swap_info, _) = derive_authority(&seed, &program).unwrap();
    let (escrow_address, _) = derive_authority(&swap_info.to_bytes(), &program).unwrap();
    EscrowSetup {
        state,
        accounts: escrow::PostSwap {
            poster,
            sell_from,
            buy_to,
            swap_info,
            escrow: escrow_address,
            mint: mint_a(),
        },
        take: escrow::TakeSwap {
            taker,
            taker_sell_from,
            taker_buy_to,
            swap_info,
            escrow: escrow_address,
            poster_buy_to: buy_to,
        },
        seed,
    }
}

/// The full escrow scenario: post 10 A against 7 B, then take.
#[test]
fn test_program() {
    let mut s = escrow_setup();
    let a = s.accounts;
    let t = s.take;
    s.state.initialize_swap(&a, &s.seed, 10, 7).unwrap();
    // The sold funds sit in the holding account; nothing else moved.
    assert_eq!(s.state.ledger.balance_of(a.sell_from), Some(0));
    assert_eq!(s.state.ledger.balance_of(a.escrow), Some(10));
    assert_eq!(s.state.ledger.balance_of(a.buy_to), Some(0));
    assert_eq!(s.state.ledger.balance_of(t.taker_sell_from), Some(7));
    assert_eq!(s.state.ledger.balance_of(t.taker_buy_to), Some(0));
    let rec = s.state.records.get(a.swap_info).unwrap();
    assert!(rec.is_initialized);
    assert_eq!(rec.poster_sell_amount, 10);
    assert_eq!(rec.poster_buy_amount, 7);
    assert_eq!(rec.escrow_account, a.escrow);
    s.state.take_swap(&t).unwrap();
    assert_eq!(s.state.ledger.balance_of(a.sell_from), Some(0));
    assert_eq!(s.state.ledger.balance_of(a.buy_to), Some(7));
    assert_eq!(s.state.ledger.balance_of(t.taker_sell_from), Some(0));
    assert_eq!(s.state.ledger.balance_of(t.taker_buy_to), Some(10));
    // Both the record and the emptied holding account are gone.
    assert!(s.state.records.get(a.swap_info).is_none());
    assert!(s.state.ledger.balance_of(a.escrow).is_none());
    assert_eq!(s.state.take_swap(&t), Err(EscrowError::NotFound));
}

#[test]
fn escrow_repost_fails_and_terms_remain() {
    let mut s = escrow_setup();
    let a = s.accounts;
    s.state.initialize_swap(&a, &s.seed, 10, 7).unwrap();
    assert_eq!(s.state.initialize_swap(&a, &s.seed, 9, 6), Err(EscrowError::AlreadyInitialized));
    let rec = s.state.records.get(a.swap_info).unwrap();
    assert_eq!(rec.poster_sell_amount, 10);
    assert_eq!(rec.poster_buy_amount, 7);
}

#[test]
fn escrow_post_insufficient_funds() {
    let mut s = escrow_setup();
    let a = s.accounts;
    // The escrow variant moves funds at post time, so the post itself fails.
    assert_eq!(s.state.initialize_swap(&a, &s.seed, 11, 7), Err(EscrowError::InsufficientFunds));
    assert_eq!(s.state.ledger.balance_of(a.sell_from), Some(10));
    assert!(s.state.ledger.balance_of(a.escrow).is_none());
    assert!(s.state.records.get(a.swap_info).is_none());
}

#[test]
fn escrow_post_long_seed_rejected() {
    let mut s = escrow_setup();
    let a = s.accounts;
    let seed: Vec<u8> = vec![0; 33];
    assert_eq!(s.state.initialize_swap(&a, &seed, 10, 7), Err(EscrowError::InvalidSeed));
}

#[test]
fn escrow_post_wrong_mint() {
    let mut s = escrow_setup();
    let mut a = s.accounts;
    a.mint = mint_b();
    assert_eq!(s.state.initialize_swap(&a, &s.seed, 10, 7), Err(EscrowError::TermsMismatch));
}

#[test]
fn escrow_post_wrong_escrow_address() {
    let mut s = escrow_setup();
    let mut a = s.accounts;
    a.escrow = id(500);
    assert_eq!(s.state.initialize_swap(&a, &s.seed, 10, 7), Err(EscrowError::AuthorityMismatch));
}

#[test]
fn escrow_post_holding_address_in_use() {
    let mut s = escrow_setup();
    let a = s.accounts;
    // Someone already opened an account at the derived holding address.
    s.state.ledger.open_account(a.escrow, mint_a(), id(66), 1).unwrap();
    assert_eq!(s.state.initialize_swap(&a, &s.seed, 10, 7), Err(EscrowError::AlreadyInitialized));
}

#[test]
fn escrow_take_wrong_buy_account() {
    let mut s = escrow_setup();
    let a = s.accounts;
    let mut t = s.take;
    s.state.initialize_swap(&a, &s.seed, 10, 7).unwrap();
    t.poster_buy_to = id(77);
    assert_eq!(s.state.take_swap(&t), Err(EscrowError::TermsMismatch));
    assert_eq!(s.state.ledger.balance_of(a.escrow), Some(10));
    assert_eq!(s.state.ledger.balance_of(s.take.taker_sell_from), Some(7));
}

#[test]
fn ledger_rejects_bad_moves() {
    let owner = id(1);
    let other = id(2);
    let acct_a = id(3);
    let acct_b = id(4);
    let mut state = DelegateState::new(id(9));
    state.ledger.open_account(acct_a, mint_a(), owner, 5).unwrap();
    state.ledger.open_account(acct_b, mint_a(), other, u64::MAX).unwrap();
    assert_eq!(
        state.ledger.open_account(acct_a, mint_a(), owner, 1),
        Err(TokenError::AlreadyInUse)
    );
    assert_eq!(
        state.ledger.transfer(acct_a, acct_b, 6, owner),
        Err(TokenError::InsufficientFunds)
    );
    assert_eq!(state.ledger.transfer(acct_a, acct_b, 5, other), Err(TokenError::NotAuthorized));
    assert_eq!(
        state.ledger.transfer(acct_a, acct_b, 5, owner),
        Err(TokenError::BalanceOverflow)
    );
    assert_eq!(state.ledger.approve(acct_a, other, other, 5), Err(TokenError::NotAuthorized));
    // A self-transfer checks the balance but leaves it unchanged.
    state.ledger.transfer(acct_a, acct_a, 5, owner).unwrap();
    assert_eq!(state.ledger.balance_of(acct_a), Some(5));
    assert_eq!(state.ledger.transfer(acct_a, id(100), 1, owner), Err(TokenError::AccountNotFound));
}

#[test]
fn escrow_post_hijacked_by_small_approval() {
    let mut s = escrow_setup();
    let a = s.accounts;
    // The sell account carries an approval that names its own owner, so the
    // funding move spends through the approval and finds it too small.
    s.state.ledger.approve(a.sell_from, a.poster, a.poster, 2).unwrap();
    assert_eq!(
        s.state.initialize_swap(&a, &s.seed, 10, 7),
        Err(EscrowError::InsufficientApproval)
    );
    assert_eq!(s.state.ledger.balance_of(a.sell_from), Some(10));
}

#[test]
fn record_table_bindings() {
    let mut table: token_swap::table::Table<u64> = token_swap::table::Table::new();
    assert!(table.get(id(1)).is_none());
    table.set(id(1), 10);
    table.set(id(2), 20);
    table.set(id(1), 11);
    assert_eq!(table.get(id(1)), Some(11));
    assert_eq!(table.get(id(2)), Some(20));
    let copy = table.duplicate();
    table.remove(id(1));
    assert!(table.get(id(1)).is_none());
    assert_eq!(table.get(id(2)), Some(20));
    assert_eq!(copy.get(id(1)), Some(11));
    table.remove(id(3));
    assert_eq!(table.get(id(2)), Some(20));
}
