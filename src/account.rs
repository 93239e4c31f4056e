//! Account identifiers of the value ledger: the CRC-32 of a SHA-224 hash,
//! big-endian, followed by the hash itself, written in lower-case hex. The
//! hash covers a domain separator, the owner's principal bytes and a
//! 32-byte subaccount (all zero by default).
use sha2::Digest;
use vstd::prelude::*;
use vstd::string::{StrSliceExecFns, StringExecFns};
use crate::proxy::AccountIdentifier;
use crate::types::Subaccount;

verus! {

/// SHA-224 digest of `b`.
pub uninterp spec fn sha224_of(b: Seq<u8>) -> Seq<u8>;

/// CRC-32 checksum of `b`.
pub uninterp spec fn crc32_of(b: Seq<u8>) -> u32;

/// Relies on `sha2::Sha224` (`Digest::digest`): the 28-byte digest of `b`.
#[verifier::external_body]
fn sha224(b: &[u8]) -> (r: Vec<u8>)
    ensures
        r@ == sha224_of(b@),
        r@.len() == 28,
{
    sha2::Sha224::digest(b).to_vec()
}

/// Relies on `crc32fast::hash`: the CRC-32 checksum of `b`.
#[verifier::external_body]
fn crc32(b: &[u8]) -> (r: u32)
    ensures
        r == crc32_of(b@),
{
    crc32fast::hash(b)
}

/// Domain separator of account hashes: a length byte and "account-id".
pub open spec fn account_domain() -> Seq<u8> {
    seq![10u8, 97u8, 99u8, 99u8, 111u8, 117u8, 110u8, 116u8, 45u8, 105u8, 100u8]
}

/// `n` as four big-endian bytes.
pub open spec fn be32(n: u32) -> Seq<u8> {
    seq![(n >> 24u32) as u8, (n >> 16u32) as u8, (n >> 8u32) as u8, n as u8]
}

/// The lower-case hex digits, in order.
pub const HEX_DIGITS: &'static str = "0123456789abcdef";

/// Lower-case hex digit of `d < 16`.
pub open spec fn hex_digit(d: int) -> char {
    HEX_DIGITS@[d]
}

/// Lower-case hex of `b`, two digits per byte.
pub open spec fn hex_of(b: Seq<u8>) -> Seq<char>
    decreases b.len(),
{
    if b.len() == 0 {
        Seq::empty()
    } else {
        hex_of(b.drop_last()) + seq![hex_digit(b.last() as int / 16), hex_digit(b.last() as int % 16)]
    }
}

/// The 32 bytes of `sub`, or zeros.
pub open spec fn subaccount_bytes(sub: Option<Subaccount>) -> Seq<u8> {
    match sub {
        Some(s) => s.0@,
        None => Seq::new(32, |i: int| 0u8),
    }
}

/// The identifier of the account of `principal` (its bytes) and `sub`.
pub open spec fn account_of(principal: Seq<u8>, sub: Option<Subaccount>) -> Seq<char> {
    let h = sha224_of(account_domain() + principal + subaccount_bytes(sub));
    hex_of(be32(crc32_of(h)) + h)
}

fn hex_char(d: u8) -> (c: &'static str)
    requires
        d < 16,
    ensures
        c@ == seq![hex_digit(d as int)],
{
    proof {
        reveal_strlit("0123456789abcdef");
    }
    let c = HEX_DIGITS.substring_char(d as usize, d as usize + 1);
    assert(c@ =~= seq![hex_digit(d as int)]);
    c
}

/// Lower-case hex of `b`.
pub fn to_hex(b: &Vec<u8>) -> (r: String)
    ensures
        r@ == hex_of(b@),
{
    let mut r = String::new();
    let mut i: usize = 0;
    while i < b.len()
        invariant
            i <= b@.len(),
            r@ == hex_of(b@.subrange(0, i as int)),
        decreases b@.len() - i,
    {
        proof {
            let s = b@.subrange(0, i as int + 1);
            assert(s.drop_last() == b@.subrange(0, i as int));
            assert(s.last() == b@[i as int]);
        }
        r = r.concat(hex_char(b[i] / 16));
        r = r.concat(hex_char(b[i] % 16));
        i = i + 1;
    }
    assert(b@.subrange(0, b@.len() as int) == b@);
    r
}

fn append_bytes(v: &mut Vec<u8>, s: &[u8])
    ensures
        final(v)@ == old(v)@ + s@,
{
    let mut i: usize = 0;
    while i < s.len()
        invariant
            i <= s@.len(),
            v@ == old(v)@ + s@.subrange(0, i as int),
        decreases s@.len() - i,
    {
        v.push(s[i]);
        i = i + 1;
        assert(s@.subrange(0, i as int) == s@.subrange(0, i as int - 1).push(s@[i as int - 1]));
    }
    assert(s@.subrange(0, s@.len() as int) == s@);
}

/// The identifier of the account of the principal whose bytes are
/// `principal`, with subaccount `sub`.
pub fn account_id(principal: &[u8], sub: Option<Subaccount>) -> (r: AccountIdentifier)
    ensures
        r@ == account_of(principal@, sub),
{
    let mut data: Vec<u8> = vec![10u8, 97u8, 99u8, 99u8, 111u8, 117u8, 110u8, 116u8, 45u8, 105u8, 100u8];
    assert(data@ == account_domain());
    append_bytes(&mut data, principal);
    let ghost head = data@;
    match sub {
        Some(s) => {
            append_bytes(&mut data, &s.0);
        },
        None => {
            let mut k: usize = 0;
            while k < 32
                invariant
                    k <= 32,
                    data@ == head + Seq::new(k as nat, |i: int| 0u8),
                decreases 32 - k,
            {
                data.push(0u8);
                k = k + 1;
                assert(Seq::new(k as nat, |i: int| 0u8) == Seq::new((k - 1) as nat, |i: int| 0u8).push(0u8));
            }
        },
    }
    assert(data@ == account_domain() + principal@ + subaccount_bytes(sub));
    let hash = sha224(data.as_slice());
    let crc = crc32(hash.as_slice());
    let mut all: Vec<u8> = vec![
        #[verifier::truncate] ((crc >> 24u32) as u8),
        #[verifier::truncate] ((crc >> 16u32) as u8),
        #[verifier::truncate] ((crc >> 8u32) as u8),
        #[verifier::truncate] (crc as u8),
    ];
    assert(all@ == be32(crc));
    append_bytes(&mut all, hash.as_slice());
    AccountIdentifier { hex: to_hex(&all) }
}

} // verus!
