//! Fixed-width values on both sides of the replay engine.
//!
//! `H160`, `H256` and `U256` are the values as the blockchain client reports them;
//! `B160`, `B256` and `RU256` are the values as the execution engine takes them.
//! Hashes and addresses are viewed as their bytes, numbers as the natural number they stand for.

use vstd::prelude::*;

verus! {

/// 2^64, the weight of the second limb of a 256-bit number.
pub open spec fn pow2_64() -> nat {
    0x1_0000_0000_0000_0000nat
}

/// 2^128, the weight of the third limb of a 256-bit number.
pub open spec fn pow2_128() -> nat {
    0x1_0000_0000_0000_0000_0000_0000_0000_0000nat
}

/// 2^192, the weight of the fourth limb of a 256-bit number.
pub open spec fn pow2_192() -> nat {
    0x1_0000_0000_0000_0000_0000_0000_0000_0000_0000_0000_0000_0000nat
}

/// The number held by four 64-bit limbs, least significant limb first.
pub open spec fn limbs_value(limbs: Seq<u64>) -> nat {
    (limbs[0] as nat) + (limbs[1] as nat) * pow2_64() + (limbs[2] as nat) * pow2_128() + (
    limbs[3] as nat) * pow2_192()
}

/// The number held by a byte string read least significant byte first.
pub open spec fn le_value(bytes: Seq<u8>) -> nat
    decreases bytes.len(),
{
    if bytes.len() == 0 {
        0
    } else {
        (bytes[0] as nat) + 256 * le_value(bytes.skip(1))
    }
}

/// The number held by a byte string read most significant byte first.
pub open spec fn be_value(bytes: Seq<u8>) -> nat
    decreases bytes.len(),
{
    if bytes.len() == 0 {
        0
    } else {
        256 * be_value(bytes.drop_last()) + (bytes.last() as nat)
    }
}

/// Four limbs hold a number at most `u64::MAX` exactly when the upper three are zero,
/// and then the number is the lowest limb.
pub proof fn lemma_limbs_fit_word(limbs: Seq<u64>)
    requires
        limbs.len() == 4,
    ensures
        limbs_value(limbs) <= u64::MAX <==> (limbs[1] == 0 && limbs[2] == 0 && limbs[3] == 0),
        limbs_value(limbs) <= u64::MAX ==> limbs_value(limbs) == limbs[0],
{
}

/// A number splits in one way only into a low 64-bit word and what lies above it.
proof fn lemma_split_word(lo1: nat, hi1: nat, lo2: nat, hi2: nat)
    requires
        lo1 < pow2_64(),
        lo2 < pow2_64(),
        lo1 + hi1 * pow2_64() == lo2 + hi2 * pow2_64(),
    ensures
        lo1 == lo2,
        hi1 == hi2,
{
    if hi1 < hi2 {
        assert(hi2 * pow2_64() >= (hi1 + 1) * pow2_64());
    } else if hi2 < hi1 {
        assert(hi1 * pow2_64() >= (hi2 + 1) * pow2_64());
    }
}

/// Two sets of four limbs that hold the same number are the same limbs.
pub proof fn lemma_limbs_value_injective(a: Seq<u64>, b: Seq<u64>)
    requires
        a.len() == 4,
        b.len() == 4,
        limbs_value(a) == limbs_value(b),
    ensures
        a =~= b,
{
    let a3: nat = a[3] as nat;
    let b3: nat = b[3] as nat;
    let a2: nat = (a[2] as nat) + a3 * pow2_64();
    let b2: nat = (b[2] as nat) + b3 * pow2_64();
    let a1: nat = (a[1] as nat) + a2 * pow2_64();
    let b1: nat = (b[1] as nat) + b2 * pow2_64();
    assert(limbs_value(a) == (a[0] as nat) + a1 * pow2_64());
    assert(limbs_value(b) == (b[0] as nat) + b1 * pow2_64());
    lemma_split_word(a[0] as nat, a1, b[0] as nat, b1);
    lemma_split_word(a[1] as nat, a2, b[1] as nat, b2);
    lemma_split_word(a[2] as nat, a3, b[2] as nat, b3);
}

/// Two byte strings of one length that hold the same number, read most significant byte first,
/// are the same bytes: no two storage keys stand for one number.
pub proof fn lemma_be_value_injective(a: Seq<u8>, b: Seq<u8>)
    requires
        a.len() == b.len(),
        be_value(a) == be_value(b),
    ensures
        a =~= b,
    decreases a.len(),
{
    if a.len() > 0 {
        let hi_a = be_value(a.drop_last());
        let hi_b = be_value(b.drop_last());
        if hi_a < hi_b {
            assert(256 * hi_b >= 256 * (hi_a + 1));
        } else if hi_b < hi_a {
            assert(256 * hi_a >= 256 * (hi_b + 1));
        }
        lemma_be_value_injective(a.drop_last(), b.drop_last());
        assert(a =~= a.drop_last().push(a.last()));
        assert(b =~= b.drop_last().push(b.last()));
    }
}

/// A 20-byte account address as the blockchain client reports it.
#[derive(Clone, Copy, Debug, PartialEq, Eq)]
pub struct H160(pub [u8; 20]);

/// A 32-byte hash or storage key as the blockchain client reports it.
#[derive(Clone, Copy, Debug, PartialEq, Eq)]
pub struct H256(pub [u8; 32]);

/// A 256-bit number as the blockchain client reports it: four limbs, least significant first.
#[derive(Clone, Copy, Debug, PartialEq, Eq)]
pub struct U256(pub [u64; 4]);

/// A 20-byte account address as the execution engine takes it.
#[derive(Clone, Copy, Debug, PartialEq, Eq)]
pub struct B160(pub [u8; 20]);

/// A 32-byte hash as the execution engine takes it.
#[derive(Clone, Copy, Debug, PartialEq, Eq)]
pub struct B256(pub [u8; 32]);

/// A 256-bit number as the execution engine takes it: four limbs, least significant first.
#[derive(Clone, Copy, Debug, PartialEq, Eq)]
pub struct RU256(pub [u64; 4]);

impl View for H160 {
    type V = Seq<u8>;

    open spec fn view(&self) -> Seq<u8> {
        self.0@
    }
}

impl View for H256 {
    type V = Seq<u8>;

    open spec fn view(&self) -> Seq<u8> {
        self.0@
    }
}

impl View for B160 {
    type V = Seq<u8>;

    open spec fn view(&self) -> Seq<u8> {
        self.0@
    }
}

impl View for B256 {
    type V = Seq<u8>;

    open spec fn view(&self) -> Seq<u8> {
        self.0@
    }
}

impl View for U256 {
    type V = nat;

    open spec fn view(&self) -> nat {
        limbs_value(self.0@)
    }
}

impl View for RU256 {
    type V = nat;

    open spec fn view(&self) -> nat {
        limbs_value(self.0@)
    }
}

impl H160 {
    /// The all-zero address, which stands in for an address the client left out.
    pub fn zero() -> (h: Self)
        ensures
            h@ == Seq::new(20, |i: int| 0u8),
    {
        let h = H160([0u8;20]);
        assert(h@ =~= Seq::new(20, |i: int| 0u8));
        h
    }
}

impl U256 {
    /// The number zero, which stands in for a number the client left out.
    pub fn zero() -> (u: Self)
        ensures
            u@ == 0,
    {
        U256([0u64;4])
    }

    /// The 256-bit number equal to `value`.
    pub fn from_u64(value: u64) -> (u: Self)
        ensures
            u@ == value,
    {
        U256([value, 0, 0, 0])
    }

    /// Whether the number can be held by a `u64`.
    pub fn fits_u64(&self) -> (fits: bool)
        ensures
            fits == (self@ <= u64::MAX),
    {
        proof {
            lemma_limbs_fit_word(self.0@);
        }
        self.0[1] == 0 && self.0[2] == 0 && self.0[3] == 0
    }
}

impl B160 {
    /// Whether two addresses are the same twenty bytes.
    pub fn same(&self, other: &B160) -> (same: bool)
        ensures
            same == (self@ == other@),
    {
        let mut i: usize = 0;
        while i < 20
            invariant
                i <= 20,
                forall|j: int| 0 <= j < i ==> self.0[j] == other.0[j],
            decreases 20 - i,
        {
            if self.0[i] != other.0[i] {
                return false;
            }
            i = i + 1;
        }
        assert(self@ =~= other@);
        true
    }
}

impl RU256 {
    /// The number zero.
    pub fn zero() -> (u: Self)
        ensures
            u@ == 0,
    {
        RU256([0u64;4])
    }

    /// The 256-bit number equal to `value`.
    pub fn from_u64(value: u64) -> (u: Self)
        ensures
            u@ == value,
    {
        RU256([value, 0, 0, 0])
    }

    /// The largest 256-bit number.
    pub fn max_value() -> (u: Self)
        ensures
            u@ == pow2_64() * pow2_192() - 1,
    {
        RU256([u64::MAX, u64::MAX, u64::MAX, u64::MAX])
    }

    /// Whether two numbers are equal.
    pub fn same(&self, other: &RU256) -> (same: bool)
        ensures
            same == (self@ == other@),
    {
        proof {
            if self@ == other@ {
                lemma_limbs_value_injective(self.0@, other.0@);
            }
        }
        self.0[0] == other.0[0] && self.0[1] == other.0[1] && self.0[2] == other.0[2] && self.0[3]
            == other.0[3]
    }
}

} // verus!
