use token_swap::authority::derive_authority;
use token_swap::codec;
use token_swap::delegate;
use token_swap::escrow;
use token_swap::identity::Identity;
use token_swap::request::{AccountRef, POST_SELECTOR, TAKE_SELECTOR};

fn id(n: u64) -> Identity {
    Identity { w0: n, w1: n + 1, w2: n + 2, w3: n + 3 }
}

#[test]
fn identity_bytes_round_trip() {
    let a = Identity { w0: 0x0102030405060708, w1: 9, w2: u64::MAX, w3: 0 };
    let bytes = a.to_bytes();
    assert_eq!(bytes.len(), 32);
    // Little-endian: the low byte of the first word comes first.
    assert_eq!(bytes[0], 0x08);
    assert_eq!(bytes[7], 0x01);
    assert_eq!(bytes[8], 9);
    assert_eq!(bytes[16], 0xff);
    assert_eq!(Identity::from_bytes(&bytes), Some(a));
    assert_eq!(Identity::from_bytes(&bytes[..31]), None);
}

#[test]
fn derivation_is_deterministic_and_not_the_seed() {
    let program = id(40);
    let seed: Vec<u8> = vec![1, 2, 3];
    let first = derive_authority(&seed, &program).unwrap();
    let second = derive_authority(&seed, &program).unwrap();
    assert_eq!(first, second);
    let other = derive_authority(&vec![1, 2, 4], &program).unwrap();
    assert_ne!(first.0, other.0);
    // The derived address is a 32-byte digest, not the seed handed back.
    assert_ne!(first.0.to_bytes()[..3], seed[..]);
    // A different program identity derives a different address.
    let elsewhere = derive_authority(&seed, &id(41)).unwrap();
    assert_ne!(first.0, elsewhere.0);
}

#[test]
fn delegate_record_round_trip() {
    let rec = delegate::SwapInfo {
        is_initialized: true,
        poster: id(1),
        poster_sell_account: id(2),
        poster_buy_account: id(3),
        poster_sell_amount: 10,
        poster_buy_amount: 7,
    };
    let bytes = codec::serialize_delegate_record(&rec);
    assert_eq!(bytes.len(), 1 + codec::SWAP_INFO_BYTES);
    assert_eq!(bytes[0], codec::DELEGATE_RECORD_TAG);
    assert_eq!(bytes[1], 1);
    assert_eq!(codec::deserialize_delegate_record(&bytes), Some(rec));
    // A wrong tag, a mangled flag, or a truncated buffer parses to nothing.
    let mut wrong_tag = bytes.clone();
    wrong_tag[0] = codec::ESCROW_RECORD_TAG;
    assert_eq!(codec::deserialize_delegate_record(&wrong_tag), None);
    let mut wrong_flag = bytes.clone();
    wrong_flag[1] = 2;
    assert_eq!(codec::deserialize_delegate_record(&wrong_flag), None);
    assert_eq!(codec::deserialize_delegate_record(&bytes[..100]), None);
}

#[test]
fn escrow_record_round_trip() {
    let rec = escrow::SwapInfo {
        is_initialized: false,
        poster: id(4),
        escrow_account: id(5),
        poster_buy_account: id(6),
        poster_sell_amount: u64::MAX,
        poster_buy_amount: 0,
    };
    let bytes = codec::serialize_escrow_record(&rec);
    assert_eq!(bytes[0], codec::ESCROW_RECORD_TAG);
    assert_eq!(bytes[1], 0);
    assert_eq!(codec::deserialize_escrow_record(&bytes), Some(rec));
    assert_eq!(codec::deserialize_delegate_record(&bytes), None);
}

#[test]
fn delegate_post_request_layout() {
    let r = delegate::initialize_swap(
        id(1), id(2), id(3), id(4), 10, 7, id(8), id(9), id(10),
    );
    assert_eq!(r.program, id(8));
    // Selector, then the two amounts as little-endian words.
    assert_eq!(r.data.len(), 17);
    assert_eq!(r.data[0], POST_SELECTOR);
    assert_eq!(r.data[1], 10);
    assert_eq!(&r.data[2..9], &[0u8; 7]);
    assert_eq!(r.data[9], 7);
    assert_eq!(r.accounts.len(), 7);
    assert_eq!(
        r.accounts[0],
        AccountRef { address: id(1), is_signer: true, is_writable: true }
    );
    assert_eq!(
        r.accounts[1],
        AccountRef { address: id(2), is_signer: false, is_writable: true }
    );
    assert_eq!(
        r.accounts[2],
        AccountRef { address: id(3), is_signer: false, is_writable: false }
    );
    assert_eq!(
        r.accounts[3],
        AccountRef { address: id(4), is_signer: false, is_writable: true }
    );
    assert!(!r.accounts[4].is_writable && !r.accounts[5].is_writable && !r.accounts[6].is_writable);
}

#[test]
fn delegate_take_request_layout() {
    let r = delegate::take_swap(
        id(1), id(2), id(3), id(4), 251, id(5), id(6), id(8), id(9), id(10),
    );
    assert_eq!(r.data, vec![TAKE_SELECTOR, 251]);
    assert_eq!(r.accounts.len(), 9);
    assert!(r.accounts[0].is_signer);
    assert_eq!(r.accounts[4].address, id(5));
    assert_eq!(r.accounts[5].address, id(6));
}

#[test]
fn escrow_post_request_layout() {
    let seed: Vec<u8> = vec![9, 8, 7];
    let r = escrow::initialize_swap(
        id(1), id(2), id(3), id(4), &seed, id(5), id(6), 10, 7, id(8), id(9), id(10), id(11),
    )
    .unwrap();
    // Selector, seed length word, seed bytes, then the two amounts.
    assert_eq!(r.data.len(), 1 + 8 + 3 + 8 + 8);
    assert_eq!(r.data[0], POST_SELECTOR);
    assert_eq!(r.data[1], 3);
    assert_eq!(&r.data[9..12], &[9, 8, 7]);
    assert_eq!(r.data[12], 10);
    assert_eq!(r.data[20], 7);
    assert_eq!(r.accounts.len(), 10);
    assert!(r.accounts[0].is_signer);
    assert_eq!(r.accounts[4].address, id(5));
    assert!(r.accounts[4].is_writable);
    assert!(!r.accounts[5].is_writable);
}

#[test]
fn escrow_take_request_layout() {
    let r = escrow::take_swap(id(1), id(2), id(3), id(4), id(5), id(6), id(8), id(9), id(10));
    assert_eq!(r.data, vec![TAKE_SELECTOR]);
    assert_eq!(r.accounts.len(), 9);
    assert_eq!(r.accounts[4].address, id(5));
    assert!(r.accounts[4].is_writable);
}
