//! Addresses, 32-byte words and 256-bit unsigned integers as plain bytes.

use vstd::prelude::*;

verus! {

/// The number that a byte string denotes when read big-endian.
pub open spec fn be_value(bytes: Seq<u8>) -> nat
    decreases bytes.len(),
{
    if bytes.len() == 0 {
        0
    } else {
        be_value(bytes.drop_last()) * 256 + bytes.last() as nat
    }
}

/// One more than the largest 256-bit unsigned integer.
pub open spec fn u256_limit() -> nat {
    0x1_0000_0000_0000_0000_0000_0000_0000_0000_0000_0000_0000_0000_0000_0000_0000_0000nat
}

/// The 32-byte big-endian word of a 64-bit number.
pub open spec fn u64_word(x: u64) -> Seq<u8> {
    Seq::new(
        32,
        |i: int|
            if 24 <= i < 32 {
                ((x >> (((31 - i) * 8) as u64)) & 0xff) as u8
            } else {
                0u8
            },
    )
}

/// A string of zero bytes denotes zero.
pub proof fn lemma_zero_bytes_value(bytes: Seq<u8>)
    requires
        forall|i: int| 0 <= i < bytes.len() ==> bytes[i] == 0,
    ensures
        be_value(bytes) == 0,
    decreases bytes.len(),
{
    if bytes.len() > 0 {
        lemma_zero_bytes_value(bytes.drop_last());
    }
}

/// Reading one more byte multiplies by 256 and adds the byte.
pub proof fn lemma_value_step(bytes: Seq<u8>, n: int)
    requires
        0 <= n < bytes.len(),
    ensures
        be_value(bytes.subrange(0, n + 1)) == be_value(bytes.subrange(0, n)) * 256
            + bytes[n] as nat,
{
    assert(bytes.subrange(0, n + 1).drop_last() =~= bytes.subrange(0, n));
}

/// The word of a 64-bit number denotes that number.
pub proof fn lemma_u64_word_value(x: u64)
    ensures
        be_value(u64_word(x)) == x,
{
    let w = u64_word(x);
    lemma_zero_bytes_value(w.subrange(0, 24));
    lemma_value_step(w, 24);
    lemma_value_step(w, 25);
    lemma_value_step(w, 26);
    lemma_value_step(w, 27);
    lemma_value_step(w, 28);
    lemma_value_step(w, 29);
    lemma_value_step(w, 30);
    lemma_value_step(w, 31);
    assert(w.subrange(0, 32) =~= w);
    let b0 = (x >> 56) & 0xff;
    let b1 = (x >> 48) & 0xff;
    let b2 = (x >> 40) & 0xff;
    let b3 = (x >> 32) & 0xff;
    let b4 = (x >> 24) & 0xff;
    let b5 = (x >> 16) & 0xff;
    let b6 = (x >> 8) & 0xff;
    let b7 = (x >> 0) & 0xff;
    assert(b0 < 256 && b1 < 256 && b2 < 256 && b3 < 256 && b4 < 256 && b5 < 256 && b6 < 256 && b7
        < 256 && x == b0 * 0x100_0000_0000_0000 + b1 * 0x1_0000_0000_0000 + b2 * 0x100_0000_0000 + b3
        * 0x1_0000_0000 + b4 * 0x100_0000 + b5 * 0x1_0000 + b6 * 0x100 + b7) by (bit_vector)
        requires
            b0 == (x >> 56) & 0xff,
            b1 == (x >> 48) & 0xff,
            b2 == (x >> 40) & 0xff,
            b3 == (x >> 32) & 0xff,
            b4 == (x >> 24) & 0xff,
            b5 == (x >> 16) & 0xff,
            b6 == (x >> 8) & 0xff,
            b7 == (x >> 0) & 0xff,
    ;
    assert(w[24] == b0 as u8);
    assert(w[25] == b1 as u8);
    assert(w[26] == b2 as u8);
    assert(w[27] == b3 as u8);
    assert(w[28] == b4 as u8);
    assert(w[29] == b5 as u8);
    assert(w[30] == b6 as u8);
    assert(w[31] == b7 as u8);
}

/// Byte strings of one length that denote the same number are the same.
pub proof fn lemma_value_decides_bytes(a: Seq<u8>, b: Seq<u8>)
    requires
        a.len() == b.len(),
        be_value(a) == be_value(b),
    ensures
        a == b,
    decreases a.len(),
{
    if a.len() > 0 {
        lemma_value_decides_bytes(a.drop_last(), b.drop_last());
        assert(a =~= a.drop_last().push(a.last()));
        assert(b =~= b.drop_last().push(b.last()));
    }
    assert(a =~= b);
}

/// 256 to the power of `n`.
pub open spec fn radix_power(n: nat) -> nat
    decreases n,
{
    if n == 0 {
        1
    } else {
        256 * radix_power((n - 1) as nat)
    }
}

/// A string of `n` bytes denotes a number below 256 to the power of `n`.
pub proof fn lemma_value_below_power(bytes: Seq<u8>)
    ensures
        be_value(bytes) < radix_power(bytes.len()),
    decreases bytes.len(),
{
    if bytes.len() > 0 {
        lemma_value_below_power(bytes.drop_last());
    }
}

/// Every 256-bit integer is below the limit.
pub proof fn lemma_u256_below_limit(n: U256)
    ensures
        n@ < u256_limit(),
{
    lemma_value_below_power(n.0@);
    reveal_with_fuel(radix_power, 5);
    assert(radix_power(4) == 0x1_0000_0000);
    assert(radix_power(8) == 0x1_0000_0000_0000_0000);
    assert(radix_power(12) == 0x1_0000_0000_0000_0000_0000_0000);
    assert(radix_power(16) == 0x1_0000_0000_0000_0000_0000_0000_0000_0000);
    assert(radix_power(20) == 0x1_0000_0000_0000_0000_0000_0000_0000_0000_0000_0000);
    assert(radix_power(24) == 0x1_0000_0000_0000_0000_0000_0000_0000_0000_0000_0000_0000_0000);
    assert(radix_power(28)
        == 0x1_0000_0000_0000_0000_0000_0000_0000_0000_0000_0000_0000_0000_0000_0000);
    assert(radix_power(32) == u256_limit());
}

/// A 20-byte account address.
#[derive(Clone, Copy, Debug, PartialEq, Eq)]
pub struct Address(pub [u8; 20]);

/// A 32-byte word: a digest, an identifier or a signature component.
#[derive(Clone, Copy, Debug, PartialEq, Eq)]
pub struct B256(pub [u8; 32]);

/// A 256-bit unsigned integer, held as its 32 big-endian bytes.
#[derive(Clone, Copy, Debug, PartialEq, Eq)]
pub struct U256(pub [u8; 32]);

impl View for Address {
    type V = Seq<u8>;

    open spec fn view(&self) -> Seq<u8> {
        self.0@
    }
}

impl View for B256 {
    type V = Seq<u8>;

    open spec fn view(&self) -> Seq<u8> {
        self.0@
    }
}

impl View for U256 {
    type V = nat;

    open spec fn view(&self) -> nat {
        be_value(self.0@)
    }
}

/// Whether two byte strings hold the same bytes.
pub fn same_bytes(a: &[u8], b: &[u8]) -> (same: bool)
    ensures
        same == (a@ == b@),
{
    if a.len() != b.len() {
        return false;
    }
    let mut i: usize = 0;
    while i < a.len()
        invariant
            a@.len() == b@.len(),
            0 <= i <= a@.len(),
            a@.subrange(0, i as int) == b@.subrange(0, i as int),
        decreases a@.len() - i,
    {
        if a[i] != b[i] {
            return false;
        }
        assert(a@.subrange(0, i + 1) =~= a@.subrange(0, i as int).push(a@[i as int]));
        assert(b@.subrange(0, i + 1) =~= b@.subrange(0, i as int).push(b@[i as int]));
        i += 1;
    }
    assert(a@ =~= a@.subrange(0, i as int));
    assert(b@ =~= b@.subrange(0, i as int));
    true
}

/// Whether every byte is zero.
pub fn all_zero(bytes: &[u8]) -> (zero: bool)
    ensures
        zero == (forall|i: int| 0 <= i < bytes@.len() ==> bytes@[i] == 0),
{
    let mut i: usize = 0;
    while i < bytes.len()
        invariant
            0 <= i <= bytes@.len(),
            forall|j: int| 0 <= j < i ==> bytes@[j] == 0,
        decreases bytes@.len() - i,
    {
        if bytes[i] != 0 {
            return false;
        }
        i += 1;
    }
    true
}

impl Address {
    /// The zero address, which stands for "no account".
    pub fn zero() -> (a: Address)
        ensures
            a@ == Seq::new(20, |i: int| 0u8),
    {
        let a = Address([0u8; 20]);
        assert(a@ =~= Seq::new(20, |i: int| 0u8));
        a
    }

    /// Whether this is the zero address.
    pub fn is_zero(&self) -> (zero: bool)
        ensures
            zero == (self@ == Seq::new(20, |i: int| 0u8)),
    {
        let zero = all_zero(self.0.as_slice());
        assert(zero == (self@ =~= Seq::new(20, |i: int| 0u8)));
        zero
    }

    /// Whether two addresses are the same.
    pub fn same_as(&self, other: &Address) -> (same: bool)
        ensures
            same == (self@ == other@),
    {
        same_bytes(self.0.as_slice(), other.0.as_slice())
    }
}

impl U256 {
    /// The number zero.
    pub fn zero() -> (z: U256)
        ensures
            z@ == 0,
            z.0@ == Seq::new(32, |i: int| 0u8),
    {
        let z = U256([0u8; 32]);
        proof {
            lemma_zero_bytes_value(z.0@);
        }
        assert(z.0@ =~= Seq::new(32, |i: int| 0u8));
        z
    }

    /// The number `x` as a 256-bit integer.
    pub fn from_u64(x: u64) -> (n: U256)
        ensures
            n.0@ == u64_word(x),
            n@ == x,
    {
        let mut bytes = [0u8; 32];
        let mut k: usize = 0;
        while k < 8
            invariant
                0 <= k <= 8,
                forall|i: int| 0 <= i < 24 ==> bytes@[i] == 0,
                forall|i: int| 24 <= i < 24 + k ==> bytes@[i] == u64_word(x)[i],
            decreases 8 - k,
        {
            let shift: u64 = (56 - 8 * k) as u64;
            bytes[24 + k] = ((x >> shift) & 0xff) as u8;
            k += 1;
        }
        assert(bytes@ =~= u64_word(x));
        proof {
            lemma_u64_word_value(x);
        }
        U256(bytes)
    }

    /// `self + rhs`, or `None` when the sum does not fit in 256 bits. The
    /// addition is `ruint`'s `Uint::checked_add` on the numbers that the two
    /// byte strings denote.
    ///
    /// Not proved: that the sum is handed back exactly when it is below
    /// `2^256`, as the big-endian bytes of the sum.
    #[verifier::external_body]
    pub(crate) fn checked_add(&self, rhs: &U256) -> (sum: Option<U256>)
        ensures
            sum is Some <==> self@ + rhs@ < u256_limit(),
            sum is Some ==> sum->Some_0@ == self@ + rhs@,
    {
        let a = alloy_primitives::U256::from_be_bytes(self.0);
        let b = alloy_primitives::U256::from_be_bytes(rhs.0);
        match a.checked_add(b) {
            Some(n) => Some(U256(n.to_be_bytes())),
            None => None,
        }
    }
}

} // verus!
