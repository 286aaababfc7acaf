//! Requests: how an operation is submitted to the surrounding runtime.
//!
//! Each operation travels as a discrete request carrying an operation
//! selector, a fixed-layout argument payload (little-endian integers, raw
//! byte sequences for seeds), and an ordered list of account references,
//! each tagged read/write and signer/non-signer. The builders in the
//! protocol modules state the exact payload and account list they produce.

use vstd::prelude::*;

use crate::identity::Identity;

verus! {

/// The selector byte of a `post` request.
pub const POST_SELECTOR: u8 = 0;

/// The selector byte of a `take` request.
pub const TAKE_SELECTOR: u8 = 1;

/// One account reference in a request.
#[derive(Clone, Copy, PartialEq, Eq, Structural, Debug)]
pub struct AccountRef {
    pub address: Identity,
    pub is_signer: bool,
    pub is_writable: bool,
}

/// A request: the program addressed, the argument payload, and the ordered
/// account references.
pub struct Request {
    pub program: Identity,
    pub data: Vec<u8>,
    pub accounts: Vec<AccountRef>,
}

/// A writable signer reference.
pub open spec fn spec_signer(address: Identity) -> AccountRef {
    AccountRef { address, is_signer: true, is_writable: true }
}

/// A writable non-signer reference.
pub open spec fn spec_writable(address: Identity) -> AccountRef {
    AccountRef { address, is_signer: false, is_writable: true }
}

/// A read-only reference.
pub open spec fn spec_readonly(address: Identity) -> AccountRef {
    AccountRef { address, is_signer: false, is_writable: false }
}

/// A writable signer reference.
pub fn signer(address: Identity) -> (r: AccountRef)
    ensures
        r == spec_signer(address),
{
    AccountRef { address, is_signer: true, is_writable: true }
}

/// A writable non-signer reference.
pub fn writable(address: Identity) -> (r: AccountRef)
    ensures
        r == spec_writable(address),
{
    AccountRef { address, is_signer: false, is_writable: true }
}

/// A read-only reference.
pub fn readonly(address: Identity) -> (r: AccountRef)
    ensures
        r == spec_readonly(address),
{
    AccountRef { address, is_signer: false, is_writable: false }
}

/// Append a byte sequence.
pub fn push_bytes(out: &mut Vec<u8>, bytes: &Vec<u8>)
    ensures
        final(out)@ == old(out)@ + bytes@,
{
    let mut i: usize = 0;
    while i < bytes.len()
        invariant
            i <= bytes@.len(),
            out@ == old(out)@ + bytes@.take(i as int),
        decreases bytes@.len() - i,
    {
        out.push(bytes[i]);
        i = i + 1;
        proof {
            assert(out@ =~= old(out)@ + bytes@.take(i as int));
        }
    }
    proof {
        assert(out@ =~= old(out)@ + bytes@);
    }
}

} // verus!
